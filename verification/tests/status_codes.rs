use ptyrelay::status::{translate_exit, WaitOutcome};

#[test]
fn normal_exit_code_is_passed_through() {
    assert_eq!(translate_exit(&WaitOutcome::Exited(0)), 0);
    assert_eq!(translate_exit(&WaitOutcome::Exited(2)), 2);
    assert_eq!(translate_exit(&WaitOutcome::Exited(255)), 255);
}

#[test]
fn death_by_signal_reports_128_plus_the_signal() {
    assert_eq!(translate_exit(&WaitOutcome::Signaled(9)), 137);
    assert_eq!(translate_exit(&WaitOutcome::Signaled(15)), 143);
    assert_eq!(translate_exit(&WaitOutcome::Signaled(1)), 129);
}

#[test]
fn any_other_status_is_the_generic_failure() {
    assert_eq!(translate_exit(&WaitOutcome::Other), 1);
}
