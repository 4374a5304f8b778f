//! The session configuration and the decisions the spawner takes from it:
//! which setup steps a session needs, the initial relay state, and the
//! argument vector the child may exec.

use vstd::prelude::*;
use crate::bytes::clone_bytes;
use crate::relay::RelayState;

verus! {

/// Configuration of one PTY session, immutable for the session's duration.
///
/// `args` is the target command and its arguments, as raw OS byte strings;
/// it must be non-empty.  `out_path` is the optional output-log file,
/// truncated at open when `truncate_out` holds, and flushed after every
/// write unless `no_flush` holds.  `in_path` is the optional control-input
/// FIFO.
pub struct SpawnOptions {
    pub args: Vec<Vec<u8>>,
    pub out_path: Option<String>,
    pub truncate_out: bool,
    pub no_flush: bool,
    pub in_path: Option<String>,
}

impl SpawnOptions {
    /// A session needs a target: the argument vector is non-empty.
    pub open spec fn wf(&self) -> bool {
        self.args@.len() > 0
    }
}

/// The setup steps one session needs, decided once from the configuration
/// and from whether stdin is a real terminal.
///
/// Terminal-related steps (seeding the PTY from the caller's terminal,
/// switching it to raw mode, forwarding window resizes) happen exactly when
/// attached to a real terminal; the log and control files are opened exactly
/// when configured; the log is truncated only at open time, and only when
/// asked for.
#[derive(Clone, Copy, Debug, PartialEq, Eq, Structural)]
pub struct SetupPlan {
    /// Seed the new PTY from the caller's terminal attributes and size.
    pub seed_pty_from_term: bool,
    /// Switch the real terminal to raw/no-echo mode (restored on exit).
    pub enter_raw_mode: bool,
    /// Create the control-input FIFO if it does not exist yet.
    pub create_control_fifo: bool,
    /// Run the background window-resize forwarder.
    pub forward_resize: bool,
    /// Open the output-log file (append, create if absent).
    pub open_log: bool,
    /// Truncate the log at open.
    pub truncate_log: bool,
    /// Open the control-input file, non-blocking, for reading.
    pub open_control: bool,
    /// Flush the log after every write.
    pub flush_each_write: bool,
}

/// Decides every setup step of a session from its configuration.
pub fn plan_session(opts: &SpawnOptions, is_tty: bool) -> (p: SetupPlan)
    requires
        opts.wf(),
    ensures
        p.seed_pty_from_term == is_tty,
        p.enter_raw_mode == is_tty,
        p.forward_resize == is_tty,
        p.create_control_fifo == (opts.in_path is Some),
        p.open_control == (opts.in_path is Some),
        p.open_log == (opts.out_path is Some),
        p.truncate_log == (opts.out_path is Some && opts.truncate_out),
        p.flush_each_write == !opts.no_flush,
{
    let has_control = opts.in_path.is_some();
    let has_log = opts.out_path.is_some();
    SetupPlan {
        seed_pty_from_term: is_tty,
        enter_raw_mode: is_tty,
        create_control_fifo: has_control,
        forward_resize: is_tty,
        open_log: has_log,
        truncate_log: has_log && opts.truncate_out,
        open_control: has_control,
        flush_each_write: !opts.no_flush,
    }
}

/// The state the relay loop starts in for this configuration: stdin open,
/// loop running, log and control presence and the flush policy taken from
/// the configuration.
pub fn initial_relay_state(opts: &SpawnOptions, is_tty: bool) -> (s: RelayState)
    requires
        opts.wf(),
    ensures
        s.is_tty == is_tty,
        s.stdin_open,
        !s.done,
        s.has_log == (opts.out_path is Some),
        s.flush_log == !opts.no_flush,
        s.has_control == (opts.in_path is Some),
{
    RelayState::init(is_tty, opts.out_path.is_some(), !opts.no_flush, opts.in_path.is_some())
}

/// Whether a byte string can be handed to exec as one argument: it holds no
/// NUL byte.
pub open spec fn nul_free(a: Seq<u8>) -> bool {
    forall|i: int| 0 <= i < a.len() ==> a[i] != 0
}

/// The NUL-free byte strings of a list, in their original order.
pub open spec fn nul_free_args(args: Seq<Seq<u8>>) -> Seq<Seq<u8>>
    decreases args.len(),
{
    if args.len() == 0 {
        Seq::<Seq<u8>>::empty()
    } else {
        let rest = nul_free_args(args.drop_last());
        if nul_free(args.last()) {
            rest.push(args.last())
        } else {
            rest
        }
    }
}

/// An argument vector whose entries are all NUL-free reaches exec exactly
/// as configured: the filtering drops nothing.
pub proof fn lemma_clean_args_exec_unchanged(args: Seq<Seq<u8>>)
    requires
        forall|i: int| 0 <= i < args.len() ==> nul_free(#[trigger] args[i]),
    ensures
        nul_free_args(args) == args,
    decreases args.len(),
{
    if args.len() == 0 {
        assert(nul_free_args(args) =~= args);
    } else {
        assert(forall|i: int|
            0 <= i < args.drop_last().len() ==> args.drop_last()[i] == args[i]);
        lemma_clean_args_exec_unchanged(args.drop_last());
        assert(nul_free(args.last()));
        assert(args.drop_last().push(args.last()) =~= args);
    }
}

/// The views of a list of byte buffers.
pub open spec fn views_of(args: Seq<Vec<u8>>) -> Seq<Seq<u8>> {
    args.map_values(|v: Vec<u8>| v@)
}

/// Whether a byte buffer holds no NUL byte.
fn is_nul_free(a: &Vec<u8>) -> (r: bool)
    ensures
        r == nul_free(a@),
{
    let mut i: usize = 0;
    while i < a.len()
        invariant
            i <= a.len(),
            forall|j: int| 0 <= j < i ==> a@[j] != 0,
        decreases a.len() - i,
    {
        if a[i] == 0 {
            proof {
                assert(a@[i as int] == 0);
            }
            return false;
        }
        i = i + 1;
    }
    true
}

impl SpawnOptions {
    /// The argument vector the child hands to exec: the configured
    /// arguments, minus any that hold a NUL byte (an OS argument cannot),
    /// in their original order.
    pub fn exec_args(&self) -> (r: Vec<Vec<u8>>)
        ensures
            views_of(r@) == nul_free_args(views_of(self.args@)),
    {
        let ghost all = views_of(self.args@);
        let mut r: Vec<Vec<u8>> = Vec::new();
        let mut i: usize = 0;
        while i < self.args.len()
            invariant
                i <= self.args.len(),
                all == views_of(self.args@),
                views_of(r@) == nul_free_args(all.take(i as int)),
            decreases self.args.len() - i,
        {
            let keep = is_nul_free(&self.args[i]);
            proof {
                assert(all.take(i + 1).drop_last() =~= all.take(i as int));
                assert(all.take(i + 1).last() == all[i as int]);
                assert(all[i as int] == self.args@[i as int]@);
            }
            if keep {
                let copy = clone_bytes(&self.args[i]);
                r.push(copy);
                proof {
                    assert(views_of(r@) =~= nul_free_args(all.take(i + 1)));
                }
            } else {
                proof {
                    assert(views_of(r@) =~= nul_free_args(all.take(i + 1)));
                }
            }
            i = i + 1;
        }
        proof {
            assert(all.take(self.args.len() as int) =~= all);
        }
        r
    }
}

} // verus!
