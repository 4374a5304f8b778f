//! The multiplexed I/O relay loop as a verified state machine.
//!
//! The driver owns the descriptors and performs the blocking wait and the
//! reads; the state machine decides everything else.  Each cycle the driver
//! asks [`RelayState::interest`] which descriptors to wait on, performs one
//! wait, turns what it observed into a [`RelayEvent`], and hands it to
//! [`RelayState::step`], which returns the writes to perform, in order, as
//! [`RelayAction`]s.

use vstd::prelude::*;
use crate::bytes::clone_bytes;

verus! {

/// Spec-level image of one observation made by the relay driver.
pub enum EventV {
    /// The bounded wait elapsed with nothing ready (the periodic liveness
    /// wake).
    Timeout,
    /// The wait was cut short by a signal.
    Interrupted,
    /// A read from real stdin returned `data`; empty means end of file.
    /// `veof` is the master's end-of-file control character when the master
    /// is currently in canonical (line-buffered) mode, absent otherwise.
    Stdin { data: Seq<u8>, veof: Option<u8> },
    /// A non-blocking read from the control-input file returned `data`;
    /// empty means nothing was pending.
    Control { data: Seq<u8> },
    /// A read from the PTY master returned `data`; empty means the child
    /// closed its side of the PTY.
    Master { data: Seq<u8> },
}

/// One observation made by the relay driver after a multiplexed wait.
pub enum RelayEvent {
    /// The bounded wait elapsed with nothing ready.
    Timeout,
    /// The wait was cut short by a signal.
    Interrupted,
    /// Bytes read from real stdin; empty means end of file.  `veof` carries
    /// the master's end-of-file control character when the master is in
    /// canonical mode.
    Stdin { data: Vec<u8>, veof: Option<u8> },
    /// Bytes read, without blocking, from the control-input file; empty
    /// means nothing was pending.
    Control { data: Vec<u8> },
    /// Bytes read from the PTY master; empty means the child closed its
    /// side.
    Master { data: Vec<u8> },
}

impl View for RelayEvent {
    type V = EventV;

    open spec fn view(&self) -> EventV {
        match *self {
            RelayEvent::Timeout => EventV::Timeout,
            RelayEvent::Interrupted => EventV::Interrupted,
            RelayEvent::Stdin { data, veof } => EventV::Stdin { data: data@, veof },
            RelayEvent::Control { data } => EventV::Control { data: data@ },
            RelayEvent::Master { data } => EventV::Master { data: data@ },
        }
    }
}

/// Spec-level image of one write the relay owes after an event.
pub enum ActionV {
    /// Forward these bytes to the PTY master, as input to the child.
    WriteMaster { data: Seq<u8> },
    /// Append these bytes to the log file, flushing right away when `flush`
    /// holds.
    AppendLog { data: Seq<u8>, flush: bool },
    /// Write these bytes to the real stdout.
    WriteStdout { data: Seq<u8> },
}

/// One write the relay driver must perform, in list order, after an event.
pub enum RelayAction {
    /// Forward these bytes to the PTY master, as input to the child.
    WriteMaster { data: Vec<u8> },
    /// Append these bytes to the log file, flushing right away when `flush`
    /// holds.
    AppendLog { data: Vec<u8>, flush: bool },
    /// Write these bytes to the real stdout.
    WriteStdout { data: Vec<u8> },
}

impl View for RelayAction {
    type V = ActionV;

    open spec fn view(&self) -> ActionV {
        match *self {
            RelayAction::WriteMaster { data } => ActionV::WriteMaster { data: data@ },
            RelayAction::AppendLog { data, flush } => ActionV::AppendLog { data: data@, flush },
            RelayAction::WriteStdout { data } => ActionV::WriteStdout { data: data@ },
        }
    }
}

/// The views of a list of actions, in order.
pub open spec fn acts_view(v: Seq<RelayAction>) -> Seq<ActionV> {
    v.map_values(|a: RelayAction| a@)
}

/// The relay loop's whole mutable state.  The descriptor set is fixed for a
/// session; the only things that change are whether stdin still takes part
/// in the wait and whether the loop is over.
#[derive(Clone, Copy, Debug, PartialEq, Eq, Structural)]
pub struct RelayState {
    /// Whether the session is attached to a real terminal.
    pub is_tty: bool,
    /// Whether real stdin is still part of the read-interest set.
    pub stdin_open: bool,
    /// Whether an output log file is configured.
    pub has_log: bool,
    /// Whether the log is flushed after every write.
    pub flush_log: bool,
    /// Whether a control-input file is configured.
    pub has_control: bool,
    /// Whether the loop has observed master end of file and must stop.
    pub done: bool,
}

/// The transition relation of the relay loop, one event at a time.
///
/// - A timeout or an interrupted wait changes nothing.
/// - Stdin bytes are forwarded verbatim to the master.  End of file on
///   stdin, when attached to a real terminal, forwards the master's
///   end-of-file control character (if the master is in canonical mode) and
///   drops stdin from further interest; when not attached to a terminal the
///   empty read is benign and stdin participation continues.
/// - Control-input bytes are forwarded to the master as synthetic input; an
///   empty read means nothing was pending.
/// - Master bytes are appended to the log (when configured, flushed per the
///   flush policy) and then written to stdout, in that order.  An empty
///   master read is the sole termination condition.
pub open spec fn spec_step(s: RelayState, e: EventV) -> (RelayState, Seq<ActionV>) {
    match e {
        EventV::Timeout => (s, Seq::<ActionV>::empty()),
        EventV::Interrupted => (s, Seq::<ActionV>::empty()),
        EventV::Stdin { data, veof } => {
            if !s.stdin_open {
                (s, Seq::<ActionV>::empty())
            } else if data.len() == 0 {
                if s.is_tty {
                    let next = RelayState { stdin_open: false, ..s };
                    match veof {
                        Some(c) => (next, seq![ActionV::WriteMaster { data: seq![c] }]),
                        None => (next, Seq::<ActionV>::empty()),
                    }
                } else {
                    (s, Seq::<ActionV>::empty())
                }
            } else {
                (s, seq![ActionV::WriteMaster { data }])
            }
        },
        EventV::Control { data } => {
            if data.len() == 0 {
                (s, Seq::<ActionV>::empty())
            } else {
                (s, seq![ActionV::WriteMaster { data }])
            }
        },
        EventV::Master { data } => {
            if data.len() == 0 {
                (RelayState { done: true, ..s }, Seq::<ActionV>::empty())
            } else if s.has_log {
                (s, seq![
                    ActionV::AppendLog { data, flush: s.flush_log },
                    ActionV::WriteStdout { data },
                ])
            } else {
                (s, seq![ActionV::WriteStdout { data }])
            }
        },
    }
}

impl RelayState {
    /// The state a session starts in: stdin takes part in the wait and the
    /// loop is not over.
    pub fn init(is_tty: bool, has_log: bool, flush_log: bool, has_control: bool) -> (s: RelayState)
        ensures
            s == (RelayState {
                is_tty,
                stdin_open: true,
                has_log,
                flush_log,
                has_control,
                done: false,
            }),
    {
        RelayState { is_tty, stdin_open: true, has_log, flush_log, has_control, done: false }
    }

    /// The read-interest set for the next wait, as (master, stdin, control):
    /// the PTY master always; real stdin while still open; the control-input
    /// file when configured.
    pub fn interest(&self) -> (r: (bool, bool, bool))
        ensures
            r == (true, self.stdin_open, self.has_control),
    {
        (true, self.stdin_open, self.has_control)
    }

    /// Performs one transition of the relay loop and returns the writes the
    /// driver owes, in order.
    pub fn step(&mut self, e: RelayEvent) -> (acts: Vec<RelayAction>)
        ensures
            *final(self) == spec_step(*old(self), e@).0,
            acts_view(acts@) == spec_step(*old(self), e@).1,
    {
        let ghost s0 = *self;
        let ghost ev = e@;
        let mut acts: Vec<RelayAction> = Vec::new();
        match e {
            RelayEvent::Timeout => {},
            RelayEvent::Interrupted => {},
            RelayEvent::Stdin { data, veof } => {
                if !self.stdin_open {
                } else if data.len() == 0 {
                    if self.is_tty {
                        self.stdin_open = false;
                        match veof {
                            Some(c) => {
                                let mut eof_mark: Vec<u8> = Vec::new();
                                eof_mark.push(c);
                                acts.push(RelayAction::WriteMaster { data: eof_mark });
                                proof {
                                    assert(acts_view(acts@) =~= spec_step(s0, ev).1);
                                }
                            },
                            None => {},
                        }
                    }
                } else {
                    acts.push(RelayAction::WriteMaster { data });
                    proof {
                        assert(acts_view(acts@) =~= spec_step(s0, ev).1);
                    }
                }
            },
            RelayEvent::Control { data } => {
                if data.len() > 0 {
                    acts.push(RelayAction::WriteMaster { data });
                    proof {
                        assert(acts_view(acts@) =~= spec_step(s0, ev).1);
                    }
                }
            },
            RelayEvent::Master { data } => {
                if data.len() == 0 {
                    self.done = true;
                } else if self.has_log {
                    let copy = clone_bytes(&data);
                    acts.push(RelayAction::AppendLog { data: copy, flush: self.flush_log });
                    acts.push(RelayAction::WriteStdout { data });
                    proof {
                        assert(acts_view(acts@) =~= spec_step(s0, ev).1);
                    }
                } else {
                    acts.push(RelayAction::WriteStdout { data });
                    proof {
                        assert(acts_view(acts@) =~= spec_step(s0, ev).1);
                    }
                }
            },
        }
        proof {
            assert(acts_view(acts@) =~= spec_step(s0, ev).1);
        }
        acts
    }
}

} // verus!
