//! Session-long guarantees of the relay loop, stated over whole event
//! sequences and proved from the single-step transition.

use vstd::prelude::*;
use crate::relay::{ActionV, EventV, RelayState, spec_step};

verus! {

/// The state reached and the writes owed after a whole sequence of events.
pub open spec fn run(s: RelayState, evts: Seq<EventV>) -> (RelayState, Seq<ActionV>)
    decreases evts.len(),
{
    if evts.len() == 0 {
        (s, Seq::<ActionV>::empty())
    } else {
        let first = spec_step(s, evts[0]);
        let rest = run(first.0, evts.drop_first());
        (rest.0, first.1 + rest.1)
    }
}

/// The bytes a list of actions forwards to the PTY master, in order.
pub open spec fn master_bytes(acts: Seq<ActionV>) -> Seq<u8>
    decreases acts.len(),
{
    if acts.len() == 0 {
        Seq::<u8>::empty()
    } else {
        match acts[0] {
            ActionV::WriteMaster { data } => data + master_bytes(acts.drop_first()),
            _ => master_bytes(acts.drop_first()),
        }
    }
}

/// The bytes a list of actions appends to the log file, in order.
pub open spec fn log_bytes(acts: Seq<ActionV>) -> Seq<u8>
    decreases acts.len(),
{
    if acts.len() == 0 {
        Seq::<u8>::empty()
    } else {
        match acts[0] {
            ActionV::AppendLog { data, .. } => data + log_bytes(acts.drop_first()),
            _ => log_bytes(acts.drop_first()),
        }
    }
}

/// The bytes a list of actions writes to the real stdout, in order.
pub open spec fn stdout_bytes(acts: Seq<ActionV>) -> Seq<u8>
    decreases acts.len(),
{
    if acts.len() == 0 {
        Seq::<u8>::empty()
    } else {
        match acts[0] {
            ActionV::WriteStdout { data } => data + stdout_bytes(acts.drop_first()),
            _ => stdout_bytes(acts.drop_first()),
        }
    }
}

/// Whether an event is the sole termination condition: an empty read on the
/// PTY master.
pub open spec fn is_master_eof(e: EventV) -> bool {
    e matches EventV::Master { data } && data.len() == 0
}

/// Whether an event is an empty read on real stdin.
pub open spec fn is_stdin_eof(e: EventV) -> bool {
    e matches EventV::Stdin { data, veof: _ } && data.len() == 0
}

/// Whether some event of the sequence is an empty master read.
pub open spec fn has_master_eof(evts: Seq<EventV>) -> bool {
    exists|i: int| 0 <= i < evts.len() && is_master_eof(#[trigger] evts[i])
}

/// One step never touches the session's configuration; it can only drop
/// stdin from the wait (end of file on a real terminal's stdin) or end the
/// loop (an empty master read).
pub proof fn lemma_step_frame(s: RelayState, e: EventV)
    ensures
        spec_step(s, e).0.is_tty == s.is_tty,
        spec_step(s, e).0.has_log == s.has_log,
        spec_step(s, e).0.flush_log == s.flush_log,
        spec_step(s, e).0.has_control == s.has_control,
        spec_step(s, e).0.done == (s.done || is_master_eof(e)),
        spec_step(s, e).0.stdin_open == (s.stdin_open && !(s.is_tty && is_stdin_eof(e))),
{
}

/// The master bytes of a single action.
proof fn lemma_master_bytes_one(a: ActionV)
    ensures
        master_bytes(seq![a]) == (match a {
            ActionV::WriteMaster { data } => data,
            _ => Seq::<u8>::empty(),
        }),
{
    assert(seq![a].drop_first() =~= Seq::<ActionV>::empty());
    assert(master_bytes(Seq::<ActionV>::empty()) == Seq::<u8>::empty());
    match a {
        ActionV::WriteMaster { data } => {
            assert(data + Seq::<u8>::empty() =~= data);
        },
        _ => {},
    }
}

/// The log bytes of a single action.
proof fn lemma_log_bytes_one(a: ActionV)
    ensures
        log_bytes(seq![a]) == (match a {
            ActionV::AppendLog { data, .. } => data,
            _ => Seq::<u8>::empty(),
        }),
{
    assert(seq![a].drop_first() =~= Seq::<ActionV>::empty());
    assert(log_bytes(Seq::<ActionV>::empty()) == Seq::<u8>::empty());
    match a {
        ActionV::AppendLog { data, .. } => {
            assert(data + Seq::<u8>::empty() =~= data);
        },
        _ => {},
    }
}

/// The stdout bytes of a single action.
proof fn lemma_stdout_bytes_one(a: ActionV)
    ensures
        stdout_bytes(seq![a]) == (match a {
            ActionV::WriteStdout { data } => data,
            _ => Seq::<u8>::empty(),
        }),
{
    assert(seq![a].drop_first() =~= Seq::<ActionV>::empty());
    assert(stdout_bytes(Seq::<ActionV>::empty()) == Seq::<u8>::empty());
    match a {
        ActionV::WriteStdout { data } => {
            assert(data + Seq::<u8>::empty() =~= data);
        },
        _ => {},
    }
}

/// Concatenating action lists concatenates their master bytes.
proof fn lemma_master_bytes_add(a: Seq<ActionV>, b: Seq<ActionV>)
    ensures
        master_bytes(a + b) == master_bytes(a) + master_bytes(b),
    decreases a.len(),
{
    if a.len() == 0 {
        assert(a + b =~= b);
        assert(Seq::<u8>::empty() + master_bytes(b) =~= master_bytes(b));
    } else {
        lemma_master_bytes_add(a.drop_first(), b);
        assert((a + b).drop_first() =~= a.drop_first() + b);
        assert((a + b)[0] == a[0]);
        match a[0] {
            ActionV::WriteMaster { data } => {
                assert(data + (master_bytes(a.drop_first()) + master_bytes(b)) =~= (data
                    + master_bytes(a.drop_first())) + master_bytes(b));
            },
            _ => {},
        }
    }
}

/// Concatenating action lists concatenates their log bytes.
proof fn lemma_log_bytes_add(a: Seq<ActionV>, b: Seq<ActionV>)
    ensures
        log_bytes(a + b) == log_bytes(a) + log_bytes(b),
    decreases a.len(),
{
    if a.len() == 0 {
        assert(a + b =~= b);
        assert(Seq::<u8>::empty() + log_bytes(b) =~= log_bytes(b));
    } else {
        lemma_log_bytes_add(a.drop_first(), b);
        assert((a + b).drop_first() =~= a.drop_first() + b);
        assert((a + b)[0] == a[0]);
        match a[0] {
            ActionV::AppendLog { data, .. } => {
                assert(data + (log_bytes(a.drop_first()) + log_bytes(b)) =~= (data + log_bytes(
                    a.drop_first(),
                )) + log_bytes(b));
            },
            _ => {},
        }
    }
}

/// Concatenating action lists concatenates their stdout bytes.
proof fn lemma_stdout_bytes_add(a: Seq<ActionV>, b: Seq<ActionV>)
    ensures
        stdout_bytes(a + b) == stdout_bytes(a) + stdout_bytes(b),
    decreases a.len(),
{
    if a.len() == 0 {
        assert(a + b =~= b);
        assert(Seq::<u8>::empty() + stdout_bytes(b) =~= stdout_bytes(b));
    } else {
        lemma_stdout_bytes_add(a.drop_first(), b);
        assert((a + b).drop_first() =~= a.drop_first() + b);
        assert((a + b)[0] == a[0]);
        match a[0] {
            ActionV::WriteStdout { data } => {
                assert(data + (stdout_bytes(a.drop_first()) + stdout_bytes(b)) =~= (data
                    + stdout_bytes(a.drop_first())) + stdout_bytes(b));
            },
            _ => {},
        }
    }
}

/// One step writes the same bytes to the log (when one is configured) as to
/// stdout; without a log it writes none to a log.
pub proof fn lemma_step_log_matches_stdout(s: RelayState, e: EventV)
    ensures
        s.has_log ==> log_bytes(spec_step(s, e).1) == stdout_bytes(spec_step(s, e).1),
        !s.has_log ==> log_bytes(spec_step(s, e).1) == Seq::<u8>::empty(),
{
    let acts = spec_step(s, e).1;
    match e {
        EventV::Master { data } => {
            if data.len() == 0 {
                assert(log_bytes(acts) == Seq::<u8>::empty());
                assert(stdout_bytes(acts) == Seq::<u8>::empty());
            } else if s.has_log {
                let a0 = ActionV::AppendLog { data, flush: s.flush_log };
                let a1 = ActionV::WriteStdout { data };
                assert(acts == seq![a0, a1]);
                assert(acts.drop_first() =~= seq![a1]);
                lemma_log_bytes_one(a1);
                lemma_stdout_bytes_one(a1);
                assert(log_bytes(acts) == data + Seq::<u8>::empty());
                assert(stdout_bytes(acts) == stdout_bytes(seq![a1]));
                assert(data + Seq::<u8>::empty() =~= data);
            } else {
                lemma_log_bytes_one(ActionV::WriteStdout { data });
                lemma_stdout_bytes_one(ActionV::WriteStdout { data });
            }
        },
        EventV::Stdin { data, veof } => {
            if s.stdin_open && data.len() == 0 && s.is_tty {
                match veof {
                    Some(c) => {
                        lemma_log_bytes_one(ActionV::WriteMaster { data: seq![c] });
                        lemma_stdout_bytes_one(ActionV::WriteMaster { data: seq![c] });
                    },
                    None => {},
                }
            } else if s.stdin_open && data.len() > 0 {
                lemma_log_bytes_one(ActionV::WriteMaster { data });
                lemma_stdout_bytes_one(ActionV::WriteMaster { data });
            }
        },
        EventV::Control { data } => {
            if data.len() > 0 {
                lemma_log_bytes_one(ActionV::WriteMaster { data });
                lemma_stdout_bytes_one(ActionV::WriteMaster { data });
            }
        },
        _ => {},
    }
}

/// Everything the child wrote reaches the log exactly as it reaches the
/// terminal: over any whole session with a log configured, the log receives
/// byte for byte what stdout receives, in the same order.
pub proof fn lemma_run_log_matches_stdout(s: RelayState, evts: Seq<EventV>)
    ensures
        s.has_log ==> log_bytes(run(s, evts).1) == stdout_bytes(run(s, evts).1),
        !s.has_log ==> log_bytes(run(s, evts).1) == Seq::<u8>::empty(),
    decreases evts.len(),
{
    if evts.len() == 0 {
    } else {
        let first = spec_step(s, evts[0]);
        let rest = run(first.0, evts.drop_first());
        lemma_step_frame(s, evts[0]);
        lemma_step_log_matches_stdout(s, evts[0]);
        lemma_run_log_matches_stdout(first.0, evts.drop_first());
        lemma_log_bytes_add(first.1, rest.1);
        lemma_stdout_bytes_add(first.1, rest.1);
        if !s.has_log {
            assert(Seq::<u8>::empty() + Seq::<u8>::empty() =~= Seq::<u8>::empty());
        }
    }
}

/// Once the loop is over it stays over, whatever else is observed.
pub proof fn lemma_run_stays_done(s: RelayState, evts: Seq<EventV>)
    requires
        s.done,
    ensures
        run(s, evts).0.done,
    decreases evts.len(),
{
    if evts.len() > 0 {
        lemma_step_frame(s, evts[0]);
        lemma_run_stays_done(spec_step(s, evts[0]).0, evts.drop_first());
    }
}

/// The relay loop terminates exactly when a zero-length read occurs on the
/// master descriptor: over any whole session, the final state is `done` if
/// and only if some observed event was an empty master read.
pub proof fn lemma_run_terminates_iff_master_eof(s: RelayState, evts: Seq<EventV>)
    requires
        !s.done,
    ensures
        run(s, evts).0.done <==> has_master_eof(evts),
    decreases evts.len(),
{
    if evts.len() == 0 {
    } else {
        let first = spec_step(s, evts[0]);
        lemma_step_frame(s, evts[0]);
        if is_master_eof(evts[0]) {
            lemma_run_stays_done(first.0, evts.drop_first());
            assert(has_master_eof(evts));
        } else {
            lemma_run_terminates_iff_master_eof(first.0, evts.drop_first());
            if has_master_eof(evts.drop_first()) {
                let j = choose|j: int|
                    0 <= j < evts.drop_first().len() && is_master_eof(
                        #[trigger] evts.drop_first()[j],
                    );
                assert(evts[j + 1] == evts.drop_first()[j]);
                assert(is_master_eof(evts[j + 1]));
            }
            if has_master_eof(evts) {
                let j = choose|j: int| 0 <= j < evts.len() && is_master_eof(#[trigger] evts[j]);
                assert(j != 0);
                assert(evts.drop_first()[j - 1] == evts[j]);
                assert(is_master_eof(evts.drop_first()[j - 1]));
                assert(has_master_eof(evts.drop_first()));
            }
        }
    }
}

/// When stdin is not a real terminal, end of file on stdin neither ends the
/// session nor removes stdin from the wait; only master end of file ends it.
pub proof fn lemma_piped_stdin_eof_not_terminal(s: RelayState, e: EventV)
    requires
        !s.is_tty,
    ensures
        spec_step(s, e).0.stdin_open == s.stdin_open,
        !is_master_eof(e) ==> spec_step(s, e).0.done == s.done,
{
    lemma_step_frame(s, e);
}

/// A whole piped session (stdin not a terminal) survives any amount of
/// stdin end of file: as long as no empty master read is observed the loop
/// is still running and stdin still takes part in the wait.
pub proof fn lemma_piped_session_survives_stdin_eof(s: RelayState, evts: Seq<EventV>)
    requires
        !s.done,
        !s.is_tty,
        forall|i: int| 0 <= i < evts.len() ==> !is_master_eof(#[trigger] evts[i]),
    ensures
        !run(s, evts).0.done,
        run(s, evts).0.stdin_open == s.stdin_open,
    decreases evts.len(),
{
    if evts.len() > 0 {
        let first = spec_step(s, evts[0]);
        lemma_step_frame(s, evts[0]);
        assert(!is_master_eof(evts[0]));
        assert(forall|i: int|
            0 <= i < evts.drop_first().len() ==> !is_master_eof(#[trigger] evts.drop_first()[i]));
        lemma_piped_session_survives_stdin_eof(first.0, evts.drop_first());
    }
}

/// The bytes one stdin observation owes the master when attached to a real
/// terminal: a non-empty read verbatim; end of file, the master's
/// end-of-file control character when there is one.
pub open spec fn stdin_image(e: EventV) -> Seq<u8> {
    match e {
        EventV::Stdin { data, veof } => if data.len() > 0 {
            data
        } else {
            match veof {
                Some(c) => seq![c],
                None => Seq::<u8>::empty(),
            }
        },
        _ => Seq::<u8>::empty(),
    }
}

/// The bytes a sequence of stdin observations owes the master, in order.
pub open spec fn stdin_images(evts: Seq<EventV>) -> Seq<u8>
    decreases evts.len(),
{
    if evts.len() == 0 {
        Seq::<u8>::empty()
    } else {
        stdin_image(evts[0]) + stdin_images(evts.drop_first())
    }
}

/// One stdin observation, on a real terminal with stdin still open, puts
/// exactly its image on the master side.
pub proof fn lemma_step_stdin_image(s: RelayState, e: EventV)
    requires
        s.is_tty,
        s.stdin_open,
        e is Stdin,
    ensures
        master_bytes(spec_step(s, e).1) == stdin_image(e),
{
    match e {
        EventV::Stdin { data, veof } => {
            if data.len() == 0 {
                match veof {
                    Some(c) => {
                        lemma_master_bytes_one(ActionV::WriteMaster { data: seq![c] });
                    },
                    None => {},
                }
            } else {
                lemma_master_bytes_one(ActionV::WriteMaster { data });
            }
        },
        _ => {},
    }
}

/// An event that is neither stdin bytes nor control bytes puts nothing on
/// the master side.
proof fn lemma_step_no_input_no_master_bytes(s: RelayState, e: EventV)
    requires
        !(e is Stdin),
        !(e is Control),
    ensures
        master_bytes(spec_step(s, e).1) == Seq::<u8>::empty(),
{
    let acts = spec_step(s, e).1;
    match e {
        EventV::Master { data } => {
            if data.len() == 0 {
                assert(master_bytes(acts) == Seq::<u8>::empty());
            } else if s.has_log {
                let a1 = ActionV::WriteStdout { data };
                assert(acts.drop_first() =~= seq![a1]);
                lemma_master_bytes_one(a1);
            } else {
                lemma_master_bytes_one(ActionV::WriteStdout { data });
            }
        },
        _ => {},
    }
}

/// A run without stdin or control observations writes nothing to the
/// master.
proof fn lemma_run_without_input_writes_no_master_bytes(s: RelayState, evts: Seq<EventV>)
    requires
        forall|i: int|
            0 <= i < evts.len() ==> !((#[trigger] evts[i]) is Stdin) && !(evts[i] is Control),
    ensures
        master_bytes(run(s, evts).1) == Seq::<u8>::empty(),
    decreases evts.len(),
{
    if evts.len() == 0 {
    } else {
        let first = spec_step(s, evts[0]);
        let rest = run(first.0, evts.drop_first());
        lemma_step_no_input_no_master_bytes(s, evts[0]);
        assert(forall|i: int|
            0 <= i < evts.drop_first().len() ==> evts.drop_first()[i] == evts[i + 1]);
        lemma_run_without_input_writes_no_master_bytes(first.0, evts.drop_first());
        lemma_master_bytes_add(first.1, rest.1);
        assert(Seq::<u8>::empty() + Seq::<u8>::empty() =~= Seq::<u8>::empty());
    }
}

/// A sequence without stdin observations owes the master nothing.
proof fn lemma_stdin_images_empty(evts: Seq<EventV>)
    requires
        forall|i: int| 0 <= i < evts.len() ==> !((#[trigger] evts[i]) is Stdin),
    ensures
        stdin_images(evts) == Seq::<u8>::empty(),
    decreases evts.len(),
{
    if evts.len() > 0 {
        assert(forall|i: int|
            0 <= i < evts.drop_first().len() ==> evts.drop_first()[i] == evts[i + 1]);
        lemma_stdin_images_empty(evts.drop_first());
        assert(Seq::<u8>::empty() + Seq::<u8>::empty() =~= Seq::<u8>::empty());
    }
}

/// Everything typed at a real terminal reaches the child exactly as typed:
/// over any whole session without control input — child output and quiet
/// waits may interleave freely with typing, and stdin may close along the
/// way — the master side receives exactly the stdin bytes, in order, with
/// at most the end-of-file control character appended on stdin closure.
pub proof fn lemma_terminal_input_relayed_verbatim(s: RelayState, evts: Seq<EventV>)
    requires
        s.is_tty,
        s.stdin_open,
        forall|i: int| 0 <= i < evts.len() ==> !((#[trigger] evts[i]) is Control),
        forall|i: int, j: int|
            0 <= i && i < j && j < evts.len() && is_stdin_eof(#[trigger] evts[i]) ==> !((
            #[trigger] evts[j]) is Stdin),
    ensures
        master_bytes(run(s, evts).1) == stdin_images(evts),
    decreases evts.len(),
{
    if evts.len() == 0 {
    } else {
        let first = spec_step(s, evts[0]);
        let rest = run(first.0, evts.drop_first());
        let tail = evts.drop_first();
        lemma_step_frame(s, evts[0]);
        lemma_master_bytes_add(first.1, rest.1);
        assert(run(s, evts).1 == first.1 + rest.1);
        assert(stdin_images(evts) == stdin_image(evts[0]) + stdin_images(tail));
        assert(forall|i: int| 0 <= i < tail.len() ==> tail[i] == evts[i + 1]);
        if evts[0] is Stdin {
            lemma_step_stdin_image(s, evts[0]);
            if is_stdin_eof(evts[0]) {
                assert(forall|j: int| 0 <= j < tail.len() ==> !((#[trigger] tail[j]) is Stdin))
                    by {
                    assert(forall|j: int|
                        0 <= j < tail.len() ==> tail[j] == evts[j + 1] && !(evts[j + 1] is Stdin));
                }
                lemma_run_without_input_writes_no_master_bytes(first.0, tail);
                lemma_stdin_images_empty(tail);
                assert(stdin_image(evts[0]) + Seq::<u8>::empty() =~= stdin_image(evts[0]));
            } else {
                assert(first.0.stdin_open);
                lemma_terminal_input_relayed_verbatim(first.0, tail);
            }
        } else {
            lemma_step_no_input_no_master_bytes(s, evts[0]);
            assert(first.0.stdin_open);
            lemma_terminal_input_relayed_verbatim(first.0, tail);
            assert(Seq::<u8>::empty() + stdin_images(tail) =~= stdin_images(tail));
        }
    }
}

} // verus!
