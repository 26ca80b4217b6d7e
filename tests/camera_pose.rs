use mountain_gl::camera::CameraPose;

#[test]
fn moves_update_only_their_part() {
    let mut p = CameraPose::new((0, 0, -3), (0, 0, 0), (0, 1, 0));
    p.reposition((0, 80, 0));
    assert_eq!((p.position, p.target, p.up), ((0, 80, 0), (0, 0, 0), (0, 1, 0)));
    p.look_at((0, 10, 0));
    assert_eq!((p.position, p.target, p.up), ((0, 80, 0), (0, 10, 0), (0, 1, 0)));
}

#[test]
fn pose_after_move_matches_fresh_pose() {
    let mut used = CameraPose::new((5, 5, 5), (1, 2, 3), (0, 1, 0));
    used.reposition((9, 9, 9));
    used.reposition_and_look_at((0, 80, 0), (0, 10, 0));
    let mut fresh = CameraPose::new((0, 0, -3), (0, 0, 0), (0, 1, 0));
    fresh.reposition_and_look_at((0, 80, 0), (0, 10, 0));
    assert_eq!(
        (used.position, used.target, used.up),
        (fresh.position, fresh.target, fresh.up)
    );
}
