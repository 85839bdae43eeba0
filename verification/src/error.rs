//! Error codes a syscall surfaces to the calling process.

use vstd::prelude::*;

verus! {

/// The error class of a failed syscall.
#[derive(Clone, Copy, Debug, PartialEq, Eq, Structural)]
pub enum LxError {
    /// An argument was invalid; in this excerpt: a non-null timezone
    /// pointer, which is unsupported by design.
    EINVAL,
    /// A user pointer did not refer to a validated, accessible range
    /// (the access-fault error class).
    EFAULT,
}

/// What a syscall hands back: a non-negative value, or an error code.
pub type SysResult = Result<u64, LxError>;

} // verus!
