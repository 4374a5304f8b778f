use ptyrelay::relay::{RelayAction, RelayEvent, RelayState};

fn assert_write_master(action: &RelayAction, expected: &[u8]) {
    match action {
        RelayAction::WriteMaster { data } => assert_eq!(data.as_slice(), expected),
        _ => panic!("expected a write to the master"),
    }
}

#[test]
fn master_output_goes_to_log_then_stdout() {
    let mut s = RelayState::init(true, true, true, false);
    let actions = s.step(RelayEvent::Master { data: b"hello".to_vec() });
    assert_eq!(actions.len(), 2);
    match &actions[0] {
        RelayAction::AppendLog { data, flush } => {
            assert_eq!(data.as_slice(), b"hello");
            assert!(*flush);
        }
        _ => panic!("expected the log append first"),
    }
    match &actions[1] {
        RelayAction::WriteStdout { data } => assert_eq!(data.as_slice(), b"hello"),
        _ => panic!("expected the stdout write second"),
    }
    assert!(!s.done);
}

#[test]
fn master_output_without_log_goes_to_stdout_only() {
    let mut s = RelayState::init(true, false, true, false);
    let actions = s.step(RelayEvent::Master { data: b"out".to_vec() });
    assert_eq!(actions.len(), 1);
    match &actions[0] {
        RelayAction::WriteStdout { data } => assert_eq!(data.as_slice(), b"out"),
        _ => panic!("expected only the stdout write"),
    }
}

#[test]
fn no_flush_policy_is_carried_into_the_log_write() {
    let mut s = RelayState::init(false, true, false, false);
    let actions = s.step(RelayEvent::Master { data: b"x".to_vec() });
    match &actions[0] {
        RelayAction::AppendLog { flush, .. } => assert!(!*flush),
        _ => panic!("expected the log append first"),
    }
}

#[test]
fn master_eof_ends_the_loop() {
    let mut s = RelayState::init(true, true, true, true);
    assert!(!s.done);
    let actions = s.step(RelayEvent::Master { data: Vec::new() });
    assert!(actions.is_empty());
    assert!(s.done);
}

#[test]
fn nothing_but_master_eof_ends_the_loop() {
    let mut s = RelayState::init(false, true, true, true);
    assert!(s.step(RelayEvent::Timeout).is_empty());
    assert!(!s.done);
    assert!(s.step(RelayEvent::Interrupted).is_empty());
    assert!(!s.done);
    s.step(RelayEvent::Stdin { data: Vec::new(), veof: Some(4) });
    assert!(!s.done);
    s.step(RelayEvent::Control { data: Vec::new() });
    assert!(!s.done);
    s.step(RelayEvent::Master { data: b"still here".to_vec() });
    assert!(!s.done);
    s.step(RelayEvent::Master { data: Vec::new() });
    assert!(s.done);
}

#[test]
fn stdin_bytes_are_forwarded_verbatim() {
    let mut s = RelayState::init(true, false, true, false);
    let actions = s.step(RelayEvent::Stdin { data: b"typed input".to_vec(), veof: None });
    assert_eq!(actions.len(), 1);
    assert_write_master(&actions[0], b"typed input");
    let (_, stdin_wanted, _) = s.interest();
    assert!(stdin_wanted);
}

#[test]
fn stdin_eof_on_terminal_sends_veof_and_drops_stdin() {
    let mut s = RelayState::init(true, false, true, false);
    let actions = s.step(RelayEvent::Stdin { data: Vec::new(), veof: Some(4) });
    assert_eq!(actions.len(), 1);
    assert_write_master(&actions[0], &[4]);
    let (master_wanted, stdin_wanted, _) = s.interest();
    assert!(master_wanted);
    assert!(!stdin_wanted);
    assert!(!s.done);
}

#[test]
fn stdin_eof_on_terminal_without_canonical_mode_sends_nothing() {
    let mut s = RelayState::init(true, false, true, false);
    let actions = s.step(RelayEvent::Stdin { data: Vec::new(), veof: None });
    assert!(actions.is_empty());
    let (_, stdin_wanted, _) = s.interest();
    assert!(!stdin_wanted);
}

#[test]
fn stdin_eof_when_piped_is_benign() {
    let mut s = RelayState::init(false, false, true, false);
    let actions = s.step(RelayEvent::Stdin { data: Vec::new(), veof: Some(4) });
    assert!(actions.is_empty());
    let (_, stdin_wanted, _) = s.interest();
    assert!(stdin_wanted);
    assert!(!s.done);
    let actions = s.step(RelayEvent::Master { data: b"child keeps talking".to_vec() });
    assert_eq!(actions.len(), 1);
    assert!(!s.done);
}

#[test]
fn control_bytes_are_forwarded_as_synthetic_input() {
    let mut s = RelayState::init(true, false, true, true);
    let actions = s.step(RelayEvent::Control { data: b"cmd".to_vec() });
    assert_eq!(actions.len(), 1);
    assert_write_master(&actions[0], b"cmd");
}

#[test]
fn empty_control_read_means_nothing_pending() {
    let mut s = RelayState::init(true, false, true, true);
    let actions = s.step(RelayEvent::Control { data: Vec::new() });
    assert!(actions.is_empty());
    let (_, stdin_wanted, control_wanted) = s.interest();
    assert!(stdin_wanted);
    assert!(control_wanted);
    assert!(!s.done);
}

#[test]
fn interest_always_includes_master_and_control_only_when_configured() {
    let with_control = RelayState::init(true, false, true, true);
    assert_eq!(with_control.interest(), (true, true, true));
    let without_control = RelayState::init(true, false, true, false);
    assert_eq!(without_control.interest(), (true, true, false));
}
