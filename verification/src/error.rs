//! The error taxonomy: one variant for every failure point of an invocation,
//! each carrying the fully quoted command line for diagnosability.
use vstd::prelude::*;

verus! {

use crate::exit_status::ExitStatus;
use crate::text::dec_str;
use crate::text::dec_str_signed;
use crate::text::u64_to_string;
use crate::text::i64_to_string;
use vstd::string::StringExecFns;

/// Why an invocation failed.
#[derive(Debug)]
pub enum Error {
    /// The argument sequence was empty: there is no program to run.
    NoArgumentsGiven,
    /// The operating system could not create the process.
    ProcessSpawnFailed { full_command: String, program: String, os_error: String },
    /// Writing the child's stdin or reading its stdout or stderr failed.
    ChildIoError { full_command: String, program: String, os_error: String },
    /// The child ran to completion but exited with a non-success status
    /// while the configuration asked to treat that as an error.
    NonZeroExitCode { full_command: String, exit_status: ExitStatus },
    /// Captured stdout was requested as text but was not valid UTF-8.
    InvalidUtf8ToStdout { full_command: String },
    /// Captured stderr was requested as text but was not valid UTF-8.
    InvalidUtf8ToStderr { full_command: String },
}

impl Error {
    /// Whether `self` and `other` are the same error: the same variant with
    /// fields that hold the same text.
    pub open spec fn equiv(self, other: Error) -> bool {
        match (self, other) {
            (Error::NoArgumentsGiven, Error::NoArgumentsGiven) => true,
            (
                Error::ProcessSpawnFailed { full_command: f1, program: p1, os_error: o1 },
                Error::ProcessSpawnFailed { full_command: f2, program: p2, os_error: o2 },
            ) => f1@ == f2@ && p1@ == p2@ && o1@ == o2@,
            (
                Error::ChildIoError { full_command: f1, program: p1, os_error: o1 },
                Error::ChildIoError { full_command: f2, program: p2, os_error: o2 },
            ) => f1@ == f2@ && p1@ == p2@ && o1@ == o2@,
            (
                Error::NonZeroExitCode { full_command: f1, exit_status: s1 },
                Error::NonZeroExitCode { full_command: f2, exit_status: s2 },
            ) => f1@ == f2@ && s1 == s2,
            (
                Error::InvalidUtf8ToStdout { full_command: f1 },
                Error::InvalidUtf8ToStdout { full_command: f2 },
            ) => f1@ == f2@,
            (
                Error::InvalidUtf8ToStderr { full_command: f1 },
                Error::InvalidUtf8ToStderr { full_command: f2 },
            ) => f1@ == f2@,
            _ => false,
        }
    }

    /// The text that describes an exit status in an error message.
    pub open spec fn exit_status_text(st: ExitStatus) -> Seq<char> {
        match st {
            ExitStatus::Exited(c) => "exited with exit code: "@ + dec_str(c as int),
            ExitStatus::Signaled(s) => "terminated by signal: "@ + dec_str(s as int),
            ExitStatus::Other(v) => "exited with exit code: "@ + dec_str_signed(v as int),
            ExitStatus::Undetermined => "exited with unknown exit status"@,
        }
    }

    /// The full text of this error's message.
    pub open spec fn message_spec(self) -> Seq<char> {
        match self {
            Error::NoArgumentsGiven => "no arguments given"@,
            Error::ProcessSpawnFailed { full_command, program: _, os_error } => full_command@
                + ":\n  "@ + os_error@,
            Error::ChildIoError { full_command, program: _, os_error } => full_command@ + ":\n  "@
                + os_error@,
            Error::NonZeroExitCode { full_command, exit_status } => full_command@ + ":\n  "@
                + Error::exit_status_text(exit_status),
            Error::InvalidUtf8ToStdout { full_command } => full_command@
                + ":\n  invalid utf-8 written to stdout"@,
            Error::InvalidUtf8ToStderr { full_command } => full_command@
                + ":\n  invalid utf-8 written to stderr"@,
        }
    }

    /// The message that describes this error, as shown to a caller.
    pub fn message(&self) -> (r: String)
        ensures
            r@ == self.message_spec(),
    {
        match self {
            Error::NoArgumentsGiven => "no arguments given".to_owned(),
            Error::ProcessSpawnFailed { full_command, program: _, os_error } => {
                let mut s = full_command.clone();
                s.append(":\n  ");
                s.append(os_error.as_str());
                s
            },
            Error::ChildIoError { full_command, program: _, os_error } => {
                let mut s = full_command.clone();
                s.append(":\n  ");
                s.append(os_error.as_str());
                s
            },
            Error::NonZeroExitCode { full_command, exit_status } => {
                let mut s = full_command.clone();
                s.append(":\n  ");
                match exit_status {
                    ExitStatus::Exited(c) => {
                        s.append("exited with exit code: ");
                        let d = u64_to_string(*c as u64);
                        s.append(d.as_str());
                    },
                    ExitStatus::Signaled(sig) => {
                        s.append("terminated by signal: ");
                        let d = u64_to_string(*sig as u64);
                        s.append(d.as_str());
                    },
                    ExitStatus::Other(v) => {
                        s.append("exited with exit code: ");
                        let d = i64_to_string(*v as i64);
                        s.append(d.as_str());
                    },
                    ExitStatus::Undetermined => {
                        s.append("exited with unknown exit status");
                    },
                }
                s
            },
            Error::InvalidUtf8ToStdout { full_command } => {
                let mut s = full_command.clone();
                s.append(":\n  invalid utf-8 written to stdout");
                s
            },
            Error::InvalidUtf8ToStderr { full_command } => {
                let mut s = full_command.clone();
                s.append(":\n  invalid utf-8 written to stderr");
                s
            },
        }
    }

    /// A copy of this error whose fields hold the same text.
    pub fn dup(&self) -> (r: Error)
        ensures
            r.equiv(*self),
    {
        match self {
            Error::NoArgumentsGiven => Error::NoArgumentsGiven,
            Error::ProcessSpawnFailed { full_command, program, os_error } => {
                Error::ProcessSpawnFailed {
                    full_command: full_command.clone(),
                    program: program.clone(),
                    os_error: os_error.clone(),
                }
            },
            Error::ChildIoError { full_command, program, os_error } => {
                Error::ChildIoError {
                    full_command: full_command.clone(),
                    program: program.clone(),
                    os_error: os_error.clone(),
                }
            },
            Error::NonZeroExitCode { full_command, exit_status } => {
                Error::NonZeroExitCode {
                    full_command: full_command.clone(),
                    exit_status: *exit_status,
                }
            },
            Error::InvalidUtf8ToStdout { full_command } => {
                Error::InvalidUtf8ToStdout { full_command: full_command.clone() }
            },
            Error::InvalidUtf8ToStderr { full_command } => {
                Error::InvalidUtf8ToStderr { full_command: full_command.clone() }
            },
        }
    }
}

} // verus!
