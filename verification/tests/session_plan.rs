use ptyrelay::session::{initial_relay_state, plan_session, SpawnOptions};

fn options(out: Option<&str>, truncate: bool, no_flush: bool, control: Option<&str>) -> SpawnOptions {
    SpawnOptions {
        args: vec![b"cat".to_vec()],
        out_path: out.map(|s| s.to_string()),
        truncate_out: truncate,
        no_flush,
        in_path: control.map(|s| s.to_string()),
    }
}

#[test]
fn terminal_steps_happen_exactly_when_attached_to_a_terminal() {
    let opts = options(None, false, false, None);
    let on_tty = plan_session(&opts, true);
    assert!(on_tty.seed_pty_from_term);
    assert!(on_tty.enter_raw_mode);
    assert!(on_tty.forward_resize);
    let piped = plan_session(&opts, false);
    assert!(!piped.seed_pty_from_term);
    assert!(!piped.enter_raw_mode);
    assert!(!piped.forward_resize);
}

#[test]
fn log_is_opened_when_configured_and_truncated_only_on_request() {
    let none = plan_session(&options(None, true, false, None), true);
    assert!(!none.open_log);
    assert!(!none.truncate_log);
    let keep = plan_session(&options(Some("/tmp/session.log"), false, false, None), true);
    assert!(keep.open_log);
    assert!(!keep.truncate_log);
    let truncate = plan_session(&options(Some("/tmp/session.log"), true, false, None), true);
    assert!(truncate.open_log);
    assert!(truncate.truncate_log);
}

#[test]
fn control_fifo_is_created_and_opened_when_configured() {
    let without = plan_session(&options(None, false, false, None), false);
    assert!(!without.create_control_fifo);
    assert!(!without.open_control);
    let with = plan_session(&options(None, false, false, Some("/tmp/session.in")), false);
    assert!(with.create_control_fifo);
    assert!(with.open_control);
}

#[test]
fn flushing_is_the_default_and_no_flush_turns_it_off() {
    assert!(plan_session(&options(Some("/tmp/l"), false, false, None), true).flush_each_write);
    assert!(!plan_session(&options(Some("/tmp/l"), false, true, None), true).flush_each_write);
}

#[test]
fn initial_relay_state_matches_the_configuration() {
    let opts = options(Some("/tmp/session.log"), false, true, Some("/tmp/session.in"));
    let s = initial_relay_state(&opts, true);
    assert!(s.is_tty);
    assert!(s.stdin_open);
    assert!(!s.done);
    assert!(s.has_log);
    assert!(!s.flush_log);
    assert!(s.has_control);
    let bare = initial_relay_state(&options(None, false, false, None), false);
    assert!(!bare.is_tty);
    assert!(bare.stdin_open);
    assert!(!bare.has_log);
    assert!(bare.flush_log);
    assert!(!bare.has_control);
}

#[test]
fn exec_args_drop_arguments_holding_nul_bytes() {
    let opts = SpawnOptions {
        args: vec![b"ls".to_vec(), b"a\0b".to_vec(), b"-l".to_vec()],
        out_path: None,
        truncate_out: false,
        no_flush: false,
        in_path: None,
    };
    let args = opts.exec_args();
    assert_eq!(args.len(), 2);
    assert_eq!(args[0].as_slice(), b"ls");
    assert_eq!(args[1].as_slice(), b"-l");
}

#[test]
fn exec_args_keep_clean_arguments_in_order() {
    let opts = SpawnOptions {
        args: vec![b"echo".to_vec(), b"one".to_vec(), b"two".to_vec()],
        out_path: None,
        truncate_out: false,
        no_flush: false,
        in_path: None,
    };
    let args = opts.exec_args();
    assert_eq!(args.len(), 3);
    assert_eq!(args[0].as_slice(), b"echo");
    assert_eq!(args[1].as_slice(), b"one");
    assert_eq!(args[2].as_slice(), b"two");
}
