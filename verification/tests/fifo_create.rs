use ptyrelay::fifo::{fifo_status_to_result, mkfifo_atomic, FifoStatus, ALREADY_EXISTS_ERRNO};

#[test]
fn creating_then_recreating_the_fifo_both_succeed() {
    let path = "/tmp/ptyrelay_fifo_create_twice";
    let _ = nix::unistd::unlink(path);
    assert!(mkfifo_atomic(path).is_ok());
    assert!(mkfifo_atomic(path).is_ok());
    let _ = nix::unistd::unlink(path);
}

#[test]
fn creation_failure_reports_the_os_error() {
    let result = mkfifo_atomic("/tmp/ptyrelay_no_such_dir/fifo");
    assert!(matches!(result, Err(e) if e != ALREADY_EXISTS_ERRNO));
}

#[test]
fn an_existing_entry_is_never_surfaced_as_an_error() {
    let path = "/tmp/ptyrelay_fifo_existing_entry";
    let _ = nix::unistd::unlink(path);
    assert!(mkfifo_atomic(path).is_ok());
    match mkfifo_atomic(path) {
        Ok(()) => {}
        Err(e) => panic!("already-exists surfaced as error {}", e),
    }
    let _ = nix::unistd::unlink(path);
}

#[test]
fn an_existing_entry_counts_as_success() {
    assert_eq!(fifo_status_to_result(&FifoStatus::Created), Ok(()));
    assert_eq!(fifo_status_to_result(&FifoStatus::AlreadyExists), Ok(()));
    assert_eq!(fifo_status_to_result(&FifoStatus::Failed(5)), Err(5));
}
