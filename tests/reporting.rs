use mountain_gl::report::{failure_to_string, Cause};

fn cause(message: &str, backtrace: &str) -> Cause {
    Cause { message: message.to_string(), backtrace: backtrace.to_string() }
}

#[test]
fn no_causes_give_no_text() {
    assert_eq!(failure_to_string(&vec![]), "");
}

#[test]
fn single_cause() {
    assert_eq!(failure_to_string(&vec![cause("boom", "")]), "boom\n");
}

#[test]
fn chain_starts_from_innermost_cause() {
    let causes = vec![cause("outer", ""), cause("middle", ""), cause("inner", "")];
    assert_eq!(
        failure_to_string(&causes),
        "inner\n   Which caused the following issue:\nmiddle\n   Which caused the following issue:\nouter\n"
    );
}

#[test]
fn backtrace_is_reported() {
    let causes = vec![cause("outer", "main.rs:3"), cause("inner", "")];
    assert_eq!(
        failure_to_string(&causes),
        "inner\n   Which caused the following issue:\nouter This happened at main.rs:3\n"
    );
}
