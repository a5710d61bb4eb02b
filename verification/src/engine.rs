//! The seam to the process layer: the outside crate that spawns the child
//! and pumps its three standard streams without deadlock. Each function
//! here wraps exactly one call of that crate; what the child does with the
//! bytes is outside anyone's contract, so these functions promise only the
//! shape of their results.
use vstd::prelude::*;

verus! {

use crate::exit_status::ExitStatus;

#[verifier::external_type_specification]
#[verifier::external_body]
pub struct ExExec(subprocess::Exec);

#[verifier::external_type_specification]
#[verifier::external_body]
pub struct ExPopen(subprocess::Popen);

#[verifier::external_type_specification]
#[verifier::external_body]
pub struct ExCommunicator(subprocess::Communicator);

/// Relies on `subprocess::Exec::cmd`: a command description that will run
/// `program`, found by the operating system's usual executable lookup.
#[verifier::external_body]
pub(crate) fn exec_cmd(program: &String) -> subprocess::Exec {
    subprocess::Exec::cmd(program)
}

/// Relies on `subprocess::Exec::arg`: appends one argument token, taken
/// as it is.
#[verifier::external_body]
pub(crate) fn exec_arg(e: subprocess::Exec, a: &String) -> subprocess::Exec {
    e.arg(a)
}

/// Relies on `subprocess::Exec::env`: sets one environment variable on top
/// of the inherited environment; when the same name is set twice, the
/// later value wins at spawn time.
#[verifier::external_body]
pub(crate) fn exec_env(e: subprocess::Exec, key: &String, value: &String) -> subprocess::Exec {
    e.env(key, value)
}

/// Relies on `subprocess::Exec::cwd`: the child will run in this
/// directory.
#[verifier::external_body]
pub(crate) fn exec_cwd(e: subprocess::Exec, dir: &String) -> subprocess::Exec {
    e.cwd(dir)
}

/// Relies on `subprocess::Exec::stdin` with `Redirection::Pipe`: the
/// child's stdin is connected to a pipe owned by this process.
#[verifier::external_body]
pub(crate) fn exec_stdin_pipe(e: subprocess::Exec) -> subprocess::Exec {
    e.stdin(subprocess::Redirection::Pipe)
}

/// Relies on `subprocess::Exec::stdout` with `Redirection::Pipe`: the
/// child's stdout is connected to a pipe owned by this process. Without
/// this, the child inherits the parent's stdout.
#[verifier::external_body]
pub(crate) fn exec_stdout_pipe(e: subprocess::Exec) -> subprocess::Exec {
    e.stdout(subprocess::Redirection::Pipe)
}

/// Relies on `subprocess::Exec::stderr` with `Redirection::Pipe`: the
/// child's stderr is connected to a pipe owned by this process. Without
/// this, the child inherits the parent's stderr.
#[verifier::external_body]
pub(crate) fn exec_stderr_pipe(e: subprocess::Exec) -> subprocess::Exec {
    e.stderr(subprocess::Redirection::Pipe)
}

/// Relies on `subprocess::Exec::popen`: spawns the process. On failure
/// the program did not start, and the operating system's message, such as
/// `No such file or directory (os error 2)`, is returned.
#[verifier::external_body]
pub(crate) fn exec_spawn(e: subprocess::Exec) -> (r: Result<subprocess::Popen, String>) {
    match e.popen() {
        Ok(p) => Ok(p),
        Err(err) => Err(format!("{}", err)),
    }
}

/// Relies on `subprocess::Popen::communicate_start`: takes the three pipe
/// ends out of the process handle; the returned communicator will feed
/// `input` to the child's stdin and then close it. The input is handed
/// over only when stdin was in fact piped, which is what the call demands.
#[verifier::external_body]
pub(crate) fn popen_communicate_start(
    p: &mut subprocess::Popen,
    input: Vec<u8>,
) -> subprocess::Communicator {
    let data = match p.stdin {
        Some(_) => Some(input),
        None => None,
    };
    p.communicate_start(data)
}

/// Relies on `subprocess::Communicator::read`: concurrently writes the
/// input to the child's stdin (closing it when done) and drains stdout and
/// stderr until both are closed, polling all three pipes so that neither
/// side can block the other. Returns the drained bytes of each piped
/// stream; on an I/O failure, such as a broken pipe when the child stops
/// reading its stdin, its loop stops at that failure and it returns the
/// failure's message — the operating system's text, or the loop's own
/// marker when only the poll saw the broken pipe — together with whatever
/// had been drained before it.
#[verifier::external_body]
pub(crate) fn communicator_read(c: &mut subprocess::Communicator) -> (r: Result<
    (Option<Vec<u8>>, Option<Vec<u8>>),
    (String, Option<Vec<u8>>, Option<Vec<u8>>),
>) {
    match c.read() {
        Ok(pair) => Ok(pair),
        Err(err) => {
            let msg = format!("{}", err.error);
            Err((msg, err.capture.0, err.capture.1))
        },
    }
}

/// Relies on the communicator's drop: releases the pipe ends it still
/// holds. After a drain failure this closes the child's stdout and stderr
/// read-ends, so a child with more output to write receives a broken pipe
/// of its own instead of blocking forever against a drain that has
/// stopped, and waiting for its exit can finish.
#[verifier::external_body]
pub(crate) fn communicator_close(c: subprocess::Communicator) {
    drop(c);
}

/// Relies on `subprocess::Popen::wait`: blocks until the child exits and
/// reports how it ended; on failure returns the operating system's
/// message.
#[verifier::external_body]
pub(crate) fn popen_wait(p: &mut subprocess::Popen) -> (r: Result<ExitStatus, String>) {
    match p.wait() {
        Ok(subprocess::ExitStatus::Exited(c)) => Ok(ExitStatus::Exited(c)),
        Ok(subprocess::ExitStatus::Signaled(s)) => Ok(ExitStatus::Signaled(s)),
        Ok(subprocess::ExitStatus::Other(v)) => Ok(ExitStatus::Other(v)),
        Ok(subprocess::ExitStatus::Undetermined) => Ok(ExitStatus::Undetermined),
        Err(err) => Err(format!("{}", err)),
    }
}

} // verus!
