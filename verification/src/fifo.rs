//! Creation of the control-input FIFO: a named pipe made at the configured
//! path, where an entry that already exists is success, not an error.

use vstd::prelude::*;

verus! {

/// The OS error number for a filesystem entry that already exists (libc
/// EEXIST).  Creation maps it to success, so it never reaches a caller as
/// an error.
pub const ALREADY_EXISTS_ERRNO: i32 = 17;

/// Outcome of one attempt to create the control-input FIFO.
#[derive(Clone, Copy, Debug, PartialEq, Eq, Structural)]
pub enum FifoStatus {
    /// The named pipe was created now.
    Created,
    /// A filesystem entry already existed at the path.
    AlreadyExists,
    /// The attempt failed with this OS error number.
    Failed(i32),
}

/// Relies on nix::unistd::mkfifo: creates a named pipe at the path with
/// owner read/write permission, and fails with EEXIST exactly when an entry
/// already exists at the path.  The outcome depends on the state of the
/// filesystem, so success is not promised; what holds of every outcome is
/// that an already-existing entry becomes `AlreadyExists`, never `Failed`,
/// so `Failed` never carries the EEXIST number.
#[verifier::external_body]
fn create_fifo_node(path: &str) -> (r: FifoStatus)
    ensures
        r matches FifoStatus::Failed(e) ==> e != ALREADY_EXISTS_ERRNO,
{
    match nix::unistd::mkfifo(
        path,
        nix::sys::stat::Mode::S_IRUSR | nix::sys::stat::Mode::S_IWUSR,
    ) {
        Ok(()) => FifoStatus::Created,
        Err(nix::errno::Errno::EEXIST) => FifoStatus::AlreadyExists,
        Err(err) => FifoStatus::Failed(err as i32),
    }
}

/// What each creation outcome means for the session: a pipe created now and
/// one that already existed are both success; any other OS failure is
/// handed back as the error it was.
pub fn fifo_status_to_result(s: &FifoStatus) -> (r: Result<(), i32>)
    ensures
        (r is Ok) <==> (*s is Created || *s is AlreadyExists),
        *s matches FifoStatus::Failed(e) ==> r == Err::<(), i32>(e),
{
    match *s {
        FifoStatus::Created => Ok(()),
        FifoStatus::AlreadyExists => Ok(()),
        FifoStatus::Failed(e) => Err(e),
    }
}

/// Creates the control-input FIFO at the path unless an entry already
/// exists there.  The filesystem decides the outcome, which is judged by
/// [`fifo_status_to_result`]: creation and an already existing entry
/// succeed, anything else returns the OS error number — so an error result
/// never carries the already-exists number; that case is success.
pub fn mkfifo_atomic(path: &str) -> (r: Result<(), i32>)
    ensures
        r matches Err(e) ==> e != ALREADY_EXISTS_ERRNO,
{
    let status = create_fifo_node(path);
    fifo_status_to_result(&status)
}

} // verus!
