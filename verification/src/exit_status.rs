//! The exit status of a child process, as the operating system reports it.
use vstd::prelude::*;

verus! {

/// How a child process ended.
#[derive(Clone, Copy, PartialEq, Eq, Structural, Debug)]
pub enum ExitStatus {
    /// The process exited normally with the given code.
    Exited(u32),
    /// The process was terminated by the given signal (unix only).
    Signaled(u8),
    /// The operating system reported an unusual status value.
    Other(i32),
    /// The process ended, but its status could not be determined.
    Undetermined,
}

impl ExitStatus {
    /// What `success` returns: a normal exit with code zero.
    pub open spec fn is_success(self) -> bool {
        self == ExitStatus::Exited(0u32)
    }

    /// What `code` returns: the exit code, when the process exited with one
    /// that fits the usual signed range.
    pub open spec fn spec_code(self) -> Option<i32> {
        match self {
            ExitStatus::Exited(c) => if c <= 0x7fff_ffffu32 {
                Some(c as i32)
            } else {
                None
            },
            ExitStatus::Signaled(_) => None,
            ExitStatus::Other(v) => Some(v),
            ExitStatus::Undetermined => None,
        }
    }

    /// True when the child exited normally with code zero.
    pub fn success(&self) -> (r: bool)
        ensures
            r == self.is_success(),
    {
        match self {
            ExitStatus::Exited(code) => *code == 0,
            _ => false,
        }
    }

    /// The exit code, when the child exited with one.
    pub fn code(&self) -> (r: Option<i32>)
        ensures
            r == self.spec_code(),
    {
        match self {
            ExitStatus::Exited(c) => {
                if *c <= 0x7fff_ffffu32 {
                    Some(*c as i32)
                } else {
                    None
                }
            },
            ExitStatus::Signaled(_) => None,
            ExitStatus::Other(v) => Some(*v),
            ExitStatus::Undetermined => None,
        }
    }
}

} // verus!
