//! The system-call interface: numbers and the kernel-side dispatcher.

use vstd::prelude::*;

verus! {

/// System-call numbers of the kernel's interface.
#[derive(Clone, Copy, Debug, PartialEq, Eq, Structural)]
pub enum Syscall {
    /// Returns a fixed probe value, to exercise the dispatch path.
    Test,
}

impl Syscall {
    /// The number a call is dispatched on.
    pub fn number(&self) -> (r: u64)
        ensures
            r == spec_syscall_number(*self),
    {
        match self {
            Syscall::Test => 0,
        }
    }
}

/// The number of each system call.
pub open spec fn spec_syscall_number(s: Syscall) -> u64 {
    match s {
        Syscall::Test => 0,
    }
}

/// What the dispatcher returns for a call number: the probe value for the
/// test call, the all-ones sentinel for an unknown number.
pub open spec fn spec_syscall_result(num: u64) -> u64 {
    if num == spec_syscall_number(Syscall::Test) {
        42
    } else {
        u64::MAX
    }
}

/// Dispatches one system call by number. Unknown numbers report the
/// all-ones sentinel; the argument registers are ignored by every call
/// defined so far.
pub fn syscall_handler(
    num: u64,
    _arg1: u64,
    _arg2: u64,
    _arg3: u64,
    _arg4: u64,
    _arg5: u64,
    _arg6: u64,
) -> (r: u64)
    ensures
        r == spec_syscall_result(num),
{
    if num == 0 {
        syscall_test()
    } else {
        u64::MAX
    }
}

/// The test system call: returns the probe value.
pub fn syscall_test() -> (r: u64)
    ensures
        r == 42,
{
    42
}

} // verus!
