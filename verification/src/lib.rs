//! Runs child processes: spawns a program with piped standard streams,
//! feeds its stdin, drains and either captures or relays its stdout and
//! stderr without deadlock, waits for the exit status, and folds it all
//! into the result shape the caller asked for, under an explicit
//! exit-status and UTF-8 policy.

mod config;
mod context;
mod engine;
mod error;
mod exit_status;
mod input;
mod output;
mod text;

pub use config::Config;
pub use context::Context;
pub use error::Error;
pub use exit_status::ExitStatus;
pub use input::build_config;
pub use input::Input;
pub use output::Output;
pub use output::Status;
pub use output::Stderr;
pub use output::StdoutTrimmed;
pub use output::StdoutUntrimmed;

use vstd::prelude::*;

verus! {

/// The raw outcome of one invocation, before a shape is applied: what was
/// captured from each stream, and how the child ended. A stream that was
/// not captured is empty here.
pub struct RunResult {
    /// Captured stdout bytes; empty when stdout was not captured.
    pub stdout: Vec<u8>,
    /// Captured stderr bytes; empty when stderr was not captured.
    pub stderr: Vec<u8>,
    /// How the child ended.
    pub exit_status: ExitStatus,
}

use config::full_command_spec;
use config::wf_flags;
use vstd::string::StringExecFns;

/// Which errors the launcher, relay and wait stages can hand back for a
/// given configuration, and what each of them carries. In particular, the
/// stages before assembly never report a UTF-8 error.
pub open spec fn err_wf(c: Config, e: Error) -> bool {
    match e {
        Error::NoArgumentsGiven => c.arguments.deep_view().len() == 0,
        Error::ProcessSpawnFailed { full_command, program, os_error: _ } => {
            &&& c.arguments.deep_view().len() > 0
            &&& full_command@ == full_command_spec(c.arguments.deep_view())
            &&& program@ == c.arguments.deep_view()[0]
        },
        Error::ChildIoError { full_command, program, os_error: _ } => {
            &&& c.arguments.deep_view().len() > 0
            &&& full_command@ == full_command_spec(c.arguments.deep_view())
            &&& program@ == c.arguments.deep_view()[0]
        },
        Error::NonZeroExitCode { full_command, exit_status } => {
            &&& c.error_on_non_zero_exit_code
            &&& !exit_status.is_success()
            &&& full_command@ == full_command_spec(c.arguments.deep_view())
        },
        Error::InvalidUtf8ToStdout { .. } => false,
        Error::InvalidUtf8ToStderr { .. } => false,
    }
}

/// The view of an optional failure message.
pub open spec fn os_message_view(m: Option<String>) -> Option<Seq<char>> {
    match m {
        Some(s) => Some(s@),
        None => None,
    }
}

/// The view of a wait outcome: the status as it is, a failure as its text.
pub open spec fn wait_outcome_view(w: Result<ExitStatus, String>) -> Result<
    ExitStatus,
    Seq<char>,
> {
    match w {
        Ok(st) => Ok(st),
        Err(s) => Err(s@),
    }
}

/// How the raw result relates to one observation of the child: the bytes
/// drained from its two piped streams, whether draining them failed with an
/// I/O error, and the outcome of waiting for its exit status. A drain
/// failure wins, then a wait failure, then the exit-status policy; on
/// success a captured stream holds exactly the drained bytes, in the order
/// the child wrote them, and an uncaptured stream comes back empty.
pub open spec fn assembled_raw(
    c: Config,
    stdout_drained: Seq<u8>,
    stderr_drained: Seq<u8>,
    io_failure: Option<Seq<char>>,
    wait_result: Result<ExitStatus, Seq<char>>,
    r: Result<RunResult, Error>,
) -> bool {
    match io_failure {
        Some(msg) => (r matches Err(e) && e matches Error::ChildIoError {
            full_command,
            program,
            os_error,
        } && full_command@ == full_command_spec(c.arguments.deep_view()) && program@
            == c.arguments.deep_view()[0] && os_error@ == msg),
        None => match wait_result {
            Err(msg) => (r matches Err(e) && e matches Error::ChildIoError {
                full_command,
                program,
                os_error,
            } && full_command@ == full_command_spec(c.arguments.deep_view()) && program@
                == c.arguments.deep_view()[0] && os_error@ == msg),
            Ok(st) => if c.error_on_non_zero_exit_code && !st.is_success() {
                (r matches Err(e) && e matches Error::NonZeroExitCode {
                    full_command,
                    exit_status,
                } && exit_status == st && full_command@ == full_command_spec(
                    c.arguments.deep_view(),
                ))
            } else {
                (r matches Ok(rr) && rr.exit_status == st && rr.stdout@ == (
                if c.capture_stdout {
                    stdout_drained
                } else {
                    Seq::<u8>::empty()
                }) && rr.stderr@ == (
                if c.capture_stderr {
                    stderr_drained
                } else {
                    Seq::<u8>::empty()
                }))
            },
        },
    }
}

/// Whether `r` is the exact assembly, under `assembled_raw`, of some
/// observation of a child: what a result that went through the spawn can
/// look like.
pub open spec fn from_child_observation(c: Config, r: Result<RunResult, Error>) -> bool {
    exists|
        stdout_drained: Seq<u8>,
        stderr_drained: Seq<u8>,
        io_failure: Option<Seq<char>>,
        wait_result: Result<ExitStatus, Seq<char>>,
    |
        assembled_raw(c, stdout_drained, stderr_drained, io_failure, wait_result, r)
}

/// What running one configuration guarantees of its raw result: an empty
/// argument sequence is rejected as such before anything is spawned, a
/// non-success exit status never comes back as a success when the policy
/// forbids it, a stream that was not captured comes back empty, every
/// error is one that `err_wf` allows for this configuration, and every
/// success — and every exit-status error — is the exact assembly of an
/// observation of the child, as `assembled_raw` states it.
pub open spec fn run_post(c: Config, r: Result<RunResult, Error>) -> bool {
    &&& (c.arguments.deep_view().len() == 0 ==> (r matches Err(e) && e is NoArgumentsGiven))
    &&& (r matches Ok(rr) ==> {
        &&& c.arguments.deep_view().len() > 0
        &&& (c.error_on_non_zero_exit_code ==> rr.exit_status.is_success())
        &&& (!c.capture_stdout ==> rr.stdout@.len() == 0)
        &&& (!c.capture_stderr ==> rr.stderr@.len() == 0)
    })
    &&& (r matches Err(e) ==> err_wf(c, e))
    &&& (r is Ok ==> from_child_observation(c, r))
    &&& ((r matches Err(e) && e is NonZeroExitCode) ==> from_child_observation(c, r))
}

/// From one observation of the child — the drained bytes of its two piped
/// streams, whether the drain failed, and the wait outcome — the raw
/// result: a drain failure is reported first, then a wait failure, then
/// the exit-status policy is applied; on success a captured stream keeps
/// exactly the drained bytes and an uncaptured one comes back empty. Every
/// value of every observation is accepted, so whatever the child did is
/// folded by this one contract. An observation presupposes a spawned
/// child, so there is a program: the arguments are not empty.
pub fn assemble_raw(
    config: &Config,
    stdout_drained: Vec<u8>,
    stderr_drained: Vec<u8>,
    io_failure: Option<String>,
    wait_result: Result<ExitStatus, String>,
) -> (r: Result<RunResult, Error>)
    requires
        config.arguments@.len() > 0,
    ensures
        assembled_raw(
            *config,
            stdout_drained@,
            stderr_drained@,
            os_message_view(io_failure),
            wait_outcome_view(wait_result),
            r,
        ),
{
    match io_failure {
        Some(msg) => Err(
            Error::ChildIoError {
                full_command: config.full_command(),
                program: config.arguments[0].clone(),
                os_error: msg,
            },
        ),
        None => match wait_result {
            Err(msg) => Err(
                Error::ChildIoError {
                    full_command: config.full_command(),
                    program: config.arguments[0].clone(),
                    os_error: msg,
                },
            ),
            Ok(exit_status) => match check_exit_status(config, exit_status) {
                Err(e) => Err(e),
                Ok(_) => Ok(
                    RunResult {
                        stdout: if config.capture_stdout {
                            stdout_drained
                        } else {
                            Vec::new()
                        },
                        stderr: if config.capture_stderr {
                            stderr_drained
                        } else {
                            Vec::new()
                        },
                        exit_status,
                    },
                ),
            },
        },
    }
}

/// Whether the engine forwards the child's drained stdout to the sink's
/// stdout channel: only a stream that is relayed and not captured is
/// forwarded.
pub open spec fn spec_relays_stdout(c: Config) -> bool {
    !c.capture_stdout && c.relay_stdout
}

/// Whether the engine forwards the child's drained stderr to the sink's
/// stderr channel: only a stream that is relayed and not captured is
/// forwarded.
pub open spec fn spec_relays_stderr(c: Config) -> bool {
    !c.capture_stderr && c.relay_stderr
}

fn relays_stdout(c: &Config) -> (r: bool)
    ensures
        r == spec_relays_stdout(*c),
{
    !c.capture_stdout && c.relay_stdout
}

fn relays_stderr(c: &Config) -> (r: bool)
    ensures
        r == spec_relays_stderr(*c),
{
    !c.capture_stderr && c.relay_stderr
}

/// Forwards a drained stdout to the sink's stdout channel when that sink
/// is an in-memory buffer; a stream relayed to the parent's own stream was
/// never piped, so there is nothing to forward. This is the only place the
/// library writes a child's stdout to the sink, and its precondition is
/// the relay predicate itself: a configuration that captures stdout cannot
/// reach it.
fn relay_stdout_to_sink(config: &Config, context: &Context, bytes: &Vec<u8>)
    requires
        spec_relays_stdout(*config),
{
    if context.stdout.is_memory() {
        let _relayed = context.stdout.write_chunk(bytes.as_slice());
    }
}

/// The stderr twin of `relay_stdout_to_sink`, under the stderr relay
/// predicate.
fn relay_stderr_to_sink(config: &Config, context: &Context, bytes: &Vec<u8>)
    requires
        spec_relays_stderr(*config),
{
    if context.stderr.is_memory() {
        let _relayed = context.stderr.write_chunk(bytes.as_slice());
    }
}

/// Capturing stdout suppresses its relay: with `capture_stdout` set, the
/// engine forwards nothing to the sink's stdout channel, whatever the
/// relay flag says; and under the flag invariant the relay flag itself is
/// off.
pub proof fn lemma_capture_stdout_excludes_relay(c: Config)
    requires
        c.capture_stdout,
    ensures
        !spec_relays_stdout(c),
        wf_flags(c) ==> !c.relay_stdout,
{
}

/// Capturing stderr suppresses its relay, as `lemma_capture_stdout_excludes_relay`
/// states for stdout.
pub proof fn lemma_capture_stderr_excludes_relay(c: Config)
    requires
        c.capture_stderr,
    ensures
        !spec_relays_stderr(c),
        wf_flags(c) ==> !c.relay_stderr,
{
}

/// The program to run: the first argument token. An empty argument
/// sequence has no program and is rejected.
fn parse_input(arguments: &Vec<String>) -> (r: Result<&String, Error>)
    ensures
        r is Err <==> arguments@.len() == 0,
        r matches Err(e) ==> e is NoArgumentsGiven,
        r matches Ok(p) ==> *p == arguments@[0],
{
    if arguments.len() == 0 {
        Err(Error::NoArgumentsGiven)
    } else {
        Ok(&arguments[0])
    }
}

/// Applies the exit-status policy: a non-success status is an error
/// exactly when the configuration says so, and the error carries the
/// quoted command line and the offending status.
pub fn check_exit_status(config: &Config, exit_status: ExitStatus) -> (r: Result<(), Error>)
    ensures
        r is Ok <==> (!config.error_on_non_zero_exit_code || exit_status.is_success()),
        r matches Err(e) ==> e matches Error::NonZeroExitCode {
            full_command,
            exit_status: st,
        } && st == exit_status && full_command@ == full_command_spec(
            config.arguments.deep_view(),
        ),
{
    if config.error_on_non_zero_exit_code && !exit_status.success() {
        Err(
            Error::NonZeroExitCode {
                full_command: config.full_command(),
                exit_status,
            },
        )
    } else {
        Ok(())
    }
}

/// All stdin buffers joined into the single byte sequence that is written
/// to the child, in order.
fn concat_payload(buffers: &Vec<Vec<u8>>) -> (r: Vec<u8>)
    ensures
        r@ == buffers.deep_view().flatten(),
{
    let ghost bv = buffers.deep_view();
    let mut out: Vec<u8> = Vec::new();
    let mut i: usize = 0;
    proof {
        assert(bv.subrange(0, 0) =~= Seq::<Seq<u8>>::empty());
        assert(out@ =~= bv.subrange(0, 0).flatten());
    }
    while i < buffers.len()
        invariant
            0 <= i <= buffers@.len(),
            bv == buffers.deep_view(),
            bv.len() == buffers@.len(),
            out@ == bv.subrange(0, i as int).flatten(),
        decreases buffers@.len() - i,
    {
        out.extend_from_slice(buffers[i].as_slice());
        proof {
            let pre = bv.subrange(0, i as int);
            pre.lemma_flatten_push(bv[i as int]);
            assert(pre.push(bv[i as int]) =~= bv.subrange(0, i + 1));
            assert(bv[i as int] =~= buffers@[i as int]@);
            assert(out@ =~= pre.flatten() + bv[i as int]);
        }
        i = i + 1;
    }
    proof {
        assert(bv.subrange(0, bv.len() as int) =~= bv);
    }
    out
}

/// Spawns the configured process, relays and captures its output, waits
/// for it, and applies the exit-status policy. While all three pipes are
/// healthy they are serviced together, so a child that fills one pipe
/// while another is still being fed makes progress. When feeding or
/// draining fails, the drain stops at that failure with what it had; the
/// remaining pipe ends are then closed, so the child is not kept waiting
/// on them, and the failure is reported alongside the partial output.
fn run_cmd_safe(context: &Context, config: &Config) -> (r: Result<RunResult, Error>)
    ensures
        run_post(*config, r),
{
    let program = match parse_input(&config.arguments) {
        Ok(p) => p,
        Err(e) => {
            return Err(e);
        },
    };
    let full_command = config.full_command();
    if config.log_command {
        let mut line = "+ ".to_owned();
        line.append(full_command.as_str());
        line.append("\n");
        match context.stderr.write_chunk(line.as_str().as_bytes()) {
            Ok(_) => {},
            Err(msg) => {
                return Err(
                    Error::ChildIoError {
                        full_command,
                        program: program.clone(),
                        os_error: msg,
                    },
                );
            },
        }
    }
    let mut child_cmd = engine::exec_cmd(program);
    let mut i: usize = 1;
    while i < config.arguments.len()
        decreases config.arguments@.len() - i,
    {
        child_cmd = engine::exec_arg(child_cmd, &config.arguments[i]);
        i = i + 1;
    }
    let mut j: usize = 0;
    while j < config.environment_additions.len()
        decreases config.environment_additions@.len() - j,
    {
        let pair = &config.environment_additions[j];
        child_cmd = engine::exec_env(child_cmd, &pair.0, &pair.1);
        j = j + 1;
    }
    child_cmd = match &config.working_directory {
        Some(dir) => engine::exec_cwd(child_cmd, dir),
        None => child_cmd,
    };
    child_cmd = engine::exec_stdin_pipe(child_cmd);
    // A stream is piped unless it is relayed straight to the parent's own
    // stream, which the child then inherits; a piped stream is drained
    // even when its bytes are dropped, so the child can never block on it.
    if config.capture_stdout || !config.relay_stdout || context.stdout.is_memory() {
        child_cmd = engine::exec_stdout_pipe(child_cmd);
    }
    if config.capture_stderr || !config.relay_stderr || context.stderr.is_memory() {
        child_cmd = engine::exec_stderr_pipe(child_cmd);
    }
    let payload = concat_payload(&config.stdin);
    let mut child = match engine::exec_spawn(child_cmd) {
        Ok(c) => c,
        Err(msg) => {
            return Err(
                Error::ProcessSpawnFailed {
                    full_command,
                    program: program.clone(),
                    os_error: msg,
                },
            );
        },
    };
    let mut comm = engine::popen_communicate_start(&mut child, payload);
    let read_result = engine::communicator_read(&mut comm);
    // Close the pipe ends before waiting: when the drain stopped at an
    // I/O failure, a child that still has output to write must not be
    // left blocking on pipes nobody reads any more.
    engine::communicator_close(comm);
    let wait_result = engine::popen_wait(&mut child);
    let (stdout_opt, stderr_opt, io_failure) = match read_result {
        Ok((o, e)) => (o, e, None),
        Err((msg, o, e)) => (o, e, Some(msg)),
    };
    let stdout_bytes = match stdout_opt {
        Some(v) => v,
        None => Vec::new(),
    };
    let stderr_bytes = match stderr_opt {
        Some(v) => v,
        None => Vec::new(),
    };
    // Relaying to an in-memory sink forwards the drained bytes in the
    // order the child wrote them, also when the child failed: partial
    // output stays visible. The relay functions demand the relay
    // predicate, so a captured stream can never reach them.
    if relays_stdout(config) {
        relay_stdout_to_sink(config, context, &stdout_bytes);
    }
    if relays_stderr(config) {
        relay_stderr_to_sink(config, context, &stderr_bytes);
    }
    let ghost observed_stdout = stdout_bytes@;
    let ghost observed_stderr = stderr_bytes@;
    let ghost observed_failure = os_message_view(io_failure);
    let ghost observed_wait = wait_outcome_view(wait_result);
    let r = assemble_raw(config, stdout_bytes, stderr_bytes, io_failure, wait_result);
    proof {
        assert(assembled_raw(
            *config,
            observed_stdout,
            observed_stderr,
            observed_failure,
            observed_wait,
            r,
        ));
    }
    r
}

/// Runs one configured invocation and assembles the caller's shape `T`
/// from it: the shape first adjusts the configuration, the engine runs,
/// and the raw result is folded into a value of `T` or an error.
pub fn run_cmd<T: Output>(context: &Context, config: Config) -> (r: Result<T, Error>)
    ensures
        exists|res: Result<RunResult, Error>|
            #[trigger] T::assembled(T::configure_spec(config), res, r) && run_post(
                T::configure_spec(config),
                res,
            ),
        wf_flags(config) ==> wf_flags(T::configure_spec(config)),
{
    let mut config = config;
    T::configure(&mut config);
    let result = run_cmd_safe(context, &config);
    T::from_run_result(&config, &result)
}

} // verus!
