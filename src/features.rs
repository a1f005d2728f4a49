//! Which optional parts of a task's state a machine saves and restores on a
//! switch.
use vstd::prelude::*;

verus! {

/// The optional capabilities that a task switch honours.
///
/// Each one may be enabled independently of the others.
#[derive(Clone, Copy, Debug, PartialEq, Eq, Structural)]
pub struct Features {
    /// The thread pointer (thread-local storage base) belongs to each task.
    pub tls: bool,
    /// The floating-point / SIMD register file belongs to each task.
    pub fp_simd: bool,
    /// Each task may run in its own user address space.
    pub uspace: bool,
}

impl Features {
    /// Every optional capability enabled.
    pub fn all() -> (r: Features)
        ensures
            r.tls && r.fp_simd && r.uspace,
    {
        Features { tls: true, fp_simd: true, uspace: true }
    }

    /// No optional capability enabled.
    pub fn none() -> (r: Features)
        ensures
            !r.tls && !r.fp_simd && !r.uspace,
    {
        Features { tls: false, fp_simd: false, uspace: false }
    }
}

/// A hardware event counter after one more event; it wraps at its width.
pub open spec fn bumped(n: u64) -> u64 {
    if n < u64::MAX {
        (n + 1) as u64
    } else {
        0
    }
}

/// Counts one more event.
pub fn bump(n: u64) -> (r: u64)
    ensures
        r == bumped(n),
{
    if n < u64::MAX {
        n + 1
    } else {
        0
    }
}

} // verus!
