use mountain_gl::controls::{Arrow, HeldArrows, OrbitStep};

#[test]
fn nothing_held_keeps_camera() {
    assert_eq!(HeldArrows::new().orbit_step(), None);
}

#[test]
fn arrows_turn_and_climb() {
    let mut h = HeldArrows::new();
    h.set(Arrow::Left, true);
    assert_eq!(h.orbit_step(), Some(OrbitStep { turn: -1, climb: 0 }));
    h.set(Arrow::Up, true);
    assert_eq!(h.orbit_step(), Some(OrbitStep { turn: -1, climb: 1 }));
    h.set(Arrow::Left, false);
    h.set(Arrow::Up, false);
    h.set(Arrow::Right, true);
    h.set(Arrow::Down, true);
    assert_eq!(h.orbit_step(), Some(OrbitStep { turn: 1, climb: -1 }));
}

#[test]
fn opposite_arrows_cancel_but_still_move() {
    let mut h = HeldArrows::new();
    h.set(Arrow::Left, true);
    h.set(Arrow::Right, true);
    assert_eq!(h.orbit_step(), Some(OrbitStep { turn: 0, climb: 0 }));
}

#[test]
fn release_clears_only_that_arrow() {
    let mut h = HeldArrows::new();
    h.set(Arrow::Up, true);
    h.set(Arrow::Down, true);
    h.set(Arrow::Up, false);
    assert!(!h.up && h.down && !h.left && !h.right);
}
