use monitor::{Severity, Status};

#[test]
fn status_starts_up() {
    assert_eq!(Status::default(), Status::Up);
}

#[test]
fn first_failure_warns_and_marks_down() {
    let mut status = Status::default();
    assert_eq!(status.down(), Severity::Warn);
    assert_eq!(status, Status::Down);
}

#[test]
fn repeated_failures_only_inform() {
    let mut status = Status::Up;
    assert_eq!(status.down(), Severity::Warn);
    for _ in 0..5 {
        assert_eq!(status.down(), Severity::Info);
        assert_eq!(status, Status::Down);
    }
}

#[test]
fn up_is_unconditional() {
    let mut status = Status::Down;
    status.up();
    assert_eq!(status, Status::Up);
    status.up();
    assert_eq!(status, Status::Up);
}

#[test]
fn every_recovery_makes_the_next_failure_a_warning() {
    let mut status = Status::default();
    for _ in 0..3 {
        assert_eq!(status.down(), Severity::Warn);
        assert_eq!(status.down(), Severity::Info);
        status.up();
    }
}
