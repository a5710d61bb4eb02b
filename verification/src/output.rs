//! Result shapes: what a caller wants back from an invocation, how each
//! shape configures the engine, and how it is assembled from the raw result.
use vstd::prelude::*;

verus! {

use vstd::utf8::valid_utf8;
use vstd::utf8::decode_utf8;
use crate::config::Config;
use crate::config::full_command_spec;
use crate::config::wf_flags;
use crate::error::Error;
use crate::exit_status::ExitStatus;
use crate::RunResult;
use crate::text::bytes_to_string;
use crate::text::trim;
use crate::text::trim_spec;

/// A return shape of an invocation.
///
/// A shape first adjusts the configuration (which streams to capture, and
/// whether a non-success exit status is an error), and later extracts its
/// value from the raw result. Tuples of shapes combine both steps
/// positionally; when several components fail, the first one in declaration
/// order decides the reported error.
pub trait Output: Sized {
    /// The configuration as `configure` leaves it.
    spec fn configure_spec(pre: Config) -> Config;

    /// How a raw engine result and an assembled value of this shape relate.
    spec fn assembled(config: Config, result: Result<RunResult, Error>, r: Result<
        Self,
        Error,
    >) -> bool;

    /// Adjusts the stream and exit-status flags for this shape. Everything
    /// that is not such a flag stays untouched, and a captured stream is
    /// never left relayed.
    fn configure(config: &mut Config)
        ensures
            *final(config) == Self::configure_spec(*old(config)),
            final(config).arguments == old(config).arguments,
            final(config).environment_additions == old(config).environment_additions,
            final(config).working_directory == old(config).working_directory,
            final(config).stdin == old(config).stdin,
            final(config).log_command == old(config).log_command,
            wf_flags(*old(config)) ==> wf_flags(*final(config)),
            old(config).capture_stdout ==> final(config).capture_stdout,
            old(config).capture_stderr ==> final(config).capture_stderr,
    ;

    /// Builds the value of this shape from the raw result, or hands the
    /// raw error on.
    fn from_run_result(config: &Config, result: &Result<RunResult, Error>) -> (r: Result<
        Self,
        Error,
    >)
        ensures
            Self::assembled(*config, *result, r),
    ;
}

/// The unit shape: nothing is captured and nothing is returned.
impl Output for () {
    open spec fn configure_spec(pre: Config) -> Config {
        pre
    }

    open spec fn assembled(config: Config, result: Result<RunResult, Error>, r: Result<
        Self,
        Error,
    >) -> bool {
        match (result, r) {
            (Ok(_), Ok(_)) => true,
            (Err(e), Err(e2)) => e2.equiv(e),
            _ => false,
        }
    }

    fn configure(config: &mut Config) {
    }

    fn from_run_result(config: &Config, result: &Result<RunResult, Error>) -> (r: Result<
        Self,
        Error,
    >) {
        match result {
            Ok(_) => Ok(()),
            Err(e) => Err(e.dup()),
        }
    }
}

/// The success shape: true exactly when the child exited with code zero.
/// Using it switches the exit-status policy off.
impl Output for bool {
    open spec fn configure_spec(pre: Config) -> Config {
        Config { error_on_non_zero_exit_code: false, ..pre }
    }

    open spec fn assembled(config: Config, result: Result<RunResult, Error>, r: Result<
        Self,
        Error,
    >) -> bool {
        match (result, r) {
            (Ok(rr), Ok(b)) => b == rr.exit_status.is_success(),
            (Err(e), Err(e2)) => e2.equiv(e),
            _ => false,
        }
    }

    fn configure(config: &mut Config) {
        config.error_on_non_zero_exit_code = false;
    }

    fn from_run_result(config: &Config, result: &Result<RunResult, Error>) -> (r: Result<
        Self,
        Error,
    >) {
        match result {
            Ok(rr) => Ok(rr.exit_status.success()),
            Err(e) => Err(e.dup()),
        }
    }
}

/// Captures what the child writes to stdout, decoded as UTF-8 and trimmed
/// of leading and trailing whitespace. Capturing suppresses the relay of
/// stdout.
#[derive(Debug, PartialEq, Clone)]
pub struct StdoutTrimmed(pub String);

impl Output for StdoutTrimmed {
    open spec fn configure_spec(pre: Config) -> Config {
        Config { capture_stdout: true, relay_stdout: false, ..pre }
    }

    open spec fn assembled(config: Config, result: Result<RunResult, Error>, r: Result<
        Self,
        Error,
    >) -> bool {
        match (result, r) {
            (Ok(rr), Ok(StdoutTrimmed(s))) => valid_utf8(rr.stdout@) && s@ == trim_spec(
                decode_utf8(rr.stdout@),
            ),
            (Ok(rr), Err(e)) => !valid_utf8(rr.stdout@) && (e matches Error::InvalidUtf8ToStdout {
                full_command,
            } && full_command@ == full_command_spec(config.arguments.deep_view())),
            (Err(e), Err(e2)) => e2.equiv(e),
            _ => false,
        }
    }

    fn configure(config: &mut Config) {
        config.capture_stdout = true;
        config.relay_stdout = false;
    }

    fn from_run_result(config: &Config, result: &Result<RunResult, Error>) -> (r: Result<
        Self,
        Error,
    >) {
        match result {
            Ok(rr) => match bytes_to_string(&rr.stdout) {
                Some(s) => Ok(StdoutTrimmed(trim(s.as_str()))),
                None => Err(Error::InvalidUtf8ToStdout { full_command: config.full_command() }),
            },
            Err(e) => Err(e.dup()),
        }
    }
}

/// Captures what the child writes to stdout, decoded as UTF-8, exactly as
/// written. Capturing suppresses the relay of stdout.
#[derive(Debug, PartialEq, Clone)]
pub struct StdoutUntrimmed(pub String);

impl Output for StdoutUntrimmed {
    open spec fn configure_spec(pre: Config) -> Config {
        Config { capture_stdout: true, relay_stdout: false, ..pre }
    }

    open spec fn assembled(config: Config, result: Result<RunResult, Error>, r: Result<
        Self,
        Error,
    >) -> bool {
        match (result, r) {
            (Ok(rr), Ok(StdoutUntrimmed(s))) => valid_utf8(rr.stdout@) && s@ == decode_utf8(
                rr.stdout@,
            ),
            (Ok(rr), Err(e)) => !valid_utf8(rr.stdout@) && (e matches Error::InvalidUtf8ToStdout {
                full_command,
            } && full_command@ == full_command_spec(config.arguments.deep_view())),
            (Err(e), Err(e2)) => e2.equiv(e),
            _ => false,
        }
    }

    fn configure(config: &mut Config) {
        config.capture_stdout = true;
        config.relay_stdout = false;
    }

    fn from_run_result(config: &Config, result: &Result<RunResult, Error>) -> (r: Result<
        Self,
        Error,
    >) {
        match result {
            Ok(rr) => match bytes_to_string(&rr.stdout) {
                Some(s) => Ok(StdoutUntrimmed(s)),
                None => Err(Error::InvalidUtf8ToStdout { full_command: config.full_command() }),
            },
            Err(e) => Err(e.dup()),
        }
    }
}

/// Captures what the child writes to stderr, decoded as UTF-8. Capturing
/// suppresses the relay of stderr.
#[derive(Debug)]
pub struct Stderr(pub String);

impl Output for Stderr {
    open spec fn configure_spec(pre: Config) -> Config {
        Config { capture_stderr: true, relay_stderr: false, ..pre }
    }

    open spec fn assembled(config: Config, result: Result<RunResult, Error>, r: Result<
        Self,
        Error,
    >) -> bool {
        match (result, r) {
            (Ok(rr), Ok(Stderr(s))) => valid_utf8(rr.stderr@) && s@ == decode_utf8(rr.stderr@),
            (Ok(rr), Err(e)) => !valid_utf8(rr.stderr@) && (e matches Error::InvalidUtf8ToStderr {
                full_command,
            } && full_command@ == full_command_spec(config.arguments.deep_view())),
            (Err(e), Err(e2)) => e2.equiv(e),
            _ => false,
        }
    }

    fn configure(config: &mut Config) {
        config.capture_stderr = true;
        config.relay_stderr = false;
    }

    fn from_run_result(config: &Config, result: &Result<RunResult, Error>) -> (r: Result<
        Self,
        Error,
    >) {
        match result {
            Ok(rr) => match bytes_to_string(&rr.stderr) {
                Some(s) => Ok(Stderr(s)),
                None => Err(Error::InvalidUtf8ToStderr { full_command: config.full_command() }),
            },
            Err(e) => Err(e.dup()),
        }
    }
}

/// Captures the child's exit status as data. Using it switches the
/// exit-status policy off, so a non-zero code is returned, not reported as
/// an error.
#[derive(Debug)]
pub struct Status(pub ExitStatus);

impl Output for Status {
    open spec fn configure_spec(pre: Config) -> Config {
        Config { error_on_non_zero_exit_code: false, ..pre }
    }

    open spec fn assembled(config: Config, result: Result<RunResult, Error>, r: Result<
        Self,
        Error,
    >) -> bool {
        match (result, r) {
            (Ok(rr), Ok(Status(st))) => st == rr.exit_status,
            (Err(e), Err(e2)) => e2.equiv(e),
            _ => false,
        }
    }

    fn configure(config: &mut Config) {
        config.error_on_non_zero_exit_code = false;
    }

    fn from_run_result(config: &Config, result: &Result<RunResult, Error>) -> (r: Result<
        Self,
        Error,
    >) {
        match result {
            Ok(rr) => Ok(Status(rr.exit_status)),
            Err(e) => Err(e.dup()),
        }
    }
}

impl<A: Output, B: Output> Output for (A, B) {
    open spec fn configure_spec(pre: Config) -> Config {
        B::configure_spec(A::configure_spec(pre))
    }

    open spec fn assembled(config: Config, result: Result<RunResult, Error>, r: Result<
        Self,
        Error,
    >) -> bool {
        match r {
            Ok((a, b)) => A::assembled(config, result, Ok(a)) && B::assembled(config, result, Ok(b)),
            Err(e) => A::assembled(config, result, Err(e)) || ((exists|a: A|
                A::assembled(config, result, Ok(a))) && B::assembled(config, result, Err(e))),
        }
    }

    fn configure(config: &mut Config) {
        A::configure(config);
        B::configure(config);
    }

    fn from_run_result(config: &Config, result: &Result<RunResult, Error>) -> (r: Result<
        Self,
        Error,
    >) {
        let a = match A::from_run_result(config, result) {
            Ok(a) => a,
            Err(e) => {
                return Err(e);
            },
        };
        let b = match B::from_run_result(config, result) {
            Ok(b) => b,
            Err(e) => {
                return Err(e);
            },
        };
        Ok((a, b))
    }
}

impl<A: Output, B: Output, C: Output> Output for (A, B, C) {
    open spec fn configure_spec(pre: Config) -> Config {
        C::configure_spec(B::configure_spec(A::configure_spec(pre)))
    }

    open spec fn assembled(config: Config, result: Result<RunResult, Error>, r: Result<
        Self,
        Error,
    >) -> bool {
        match r {
            Ok((a, b, c)) => A::assembled(config, result, Ok(a)) && B::assembled(
                config,
                result,
                Ok(b),
            ) && C::assembled(config, result, Ok(c)),
            Err(e) => A::assembled(config, result, Err(e)) || ((exists|a: A|
                A::assembled(config, result, Ok(a))) && (B::assembled(config, result, Err(e)) || (
            (exists|b: B| B::assembled(config, result, Ok(b))) && C::assembled(
                config,
                result,
                Err(e),
            )))),
        }
    }

    fn configure(config: &mut Config) {
        A::configure(config);
        B::configure(config);
        C::configure(config);
    }

    fn from_run_result(config: &Config, result: &Result<RunResult, Error>) -> (r: Result<
        Self,
        Error,
    >) {
        let a = match A::from_run_result(config, result) {
            Ok(a) => a,
            Err(e) => {
                return Err(e);
            },
        };
        let b = match B::from_run_result(config, result) {
            Ok(b) => b,
            Err(e) => {
                return Err(e);
            },
        };
        let c = match C::from_run_result(config, result) {
            Ok(c) => c,
            Err(e) => {
                return Err(e);
            },
        };
        Ok((a, b, c))
    }
}

impl<A: Output> Output for (A,) {
    open spec fn configure_spec(pre: Config) -> Config {
        A::configure_spec(pre)
    }

    open spec fn assembled(config: Config, result: Result<RunResult, Error>, r: Result<
        Self,
        Error,
    >) -> bool {
        match r {
            Ok((a,)) => A::assembled(config, result, Ok(a)),
            Err(e) => A::assembled(config, result, Err(e)),
        }
    }

    fn configure(config: &mut Config) {
        A::configure(config);
    }

    fn from_run_result(config: &Config, result: &Result<RunResult, Error>) -> (r: Result<
        Self,
        Error,
    >) {
        let a = match A::from_run_result(config, result) {
            Ok(a) => a,
            Err(e) => {
                return Err(e);
            },
        };
        Ok((a,))
    }
}

impl<A: Output, B: Output, C: Output, D: Output> Output for (A, B, C, D) {
    open spec fn configure_spec(pre: Config) -> Config {
        D::configure_spec(C::configure_spec(B::configure_spec(A::configure_spec(pre))))
    }

    open spec fn assembled(config: Config, result: Result<RunResult, Error>, r: Result<
        Self,
        Error,
    >) -> bool {
        match r {
            Ok((a, b, c, d)) => A::assembled(config, result, Ok(a)) && B::assembled(
                config,
                result,
                Ok(b),
            ) && C::assembled(config, result, Ok(c)) && D::assembled(config, result, Ok(d)),
            Err(e) => A::assembled(config, result, Err(e)) || ((exists|a: A|
                A::assembled(config, result, Ok(a))) && (B::assembled(config, result, Err(e)) || (
            (exists|b: B| B::assembled(config, result, Ok(b))) && (C::assembled(
                config,
                result,
                Err(e),
            ) || ((exists|c: C| C::assembled(config, result, Ok(c))) && D::assembled(
                config,
                result,
                Err(e),
            )))))),
        }
    }

    fn configure(config: &mut Config) {
        A::configure(config);
        B::configure(config);
        C::configure(config);
        D::configure(config);
    }

    fn from_run_result(config: &Config, result: &Result<RunResult, Error>) -> (r: Result<
        Self,
        Error,
    >) {
        let a = match A::from_run_result(config, result) {
            Ok(a) => a,
            Err(e) => {
                return Err(e);
            },
        };
        let b = match B::from_run_result(config, result) {
            Ok(b) => b,
            Err(e) => {
                return Err(e);
            },
        };
        let c = match C::from_run_result(config, result) {
            Ok(c) => c,
            Err(e) => {
                return Err(e);
            },
        };
        let d = match D::from_run_result(config, result) {
            Ok(d) => d,
            Err(e) => {
                return Err(e);
            },
        };
        Ok((a, b, c, d))
    }
}

impl<A: Output, B: Output, C: Output, D: Output, E: Output> Output for (A, B, C, D, E) {
    open spec fn configure_spec(pre: Config) -> Config {
        E::configure_spec(
            D::configure_spec(C::configure_spec(B::configure_spec(A::configure_spec(pre)))),
        )
    }

    open spec fn assembled(config: Config, result: Result<RunResult, Error>, r: Result<
        Self,
        Error,
    >) -> bool {
        match r {
            Ok((a, b, c, d, e)) => A::assembled(config, result, Ok(a)) && B::assembled(
                config,
                result,
                Ok(b),
            ) && C::assembled(config, result, Ok(c)) && D::assembled(config, result, Ok(d))
                && E::assembled(config, result, Ok(e)),
            Err(err) => A::assembled(config, result, Err(err)) || ((exists|a: A|
                A::assembled(config, result, Ok(a))) && (B::assembled(config, result, Err(err))
                || ((exists|b: B| B::assembled(config, result, Ok(b))) && (C::assembled(
                config,
                result,
                Err(err),
            ) || ((exists|c: C| C::assembled(config, result, Ok(c))) && (D::assembled(
                config,
                result,
                Err(err),
            ) || ((exists|d: D| D::assembled(config, result, Ok(d))) && E::assembled(
                config,
                result,
                Err(err),
            )))))))),
        }
    }

    fn configure(config: &mut Config) {
        A::configure(config);
        B::configure(config);
        C::configure(config);
        D::configure(config);
        E::configure(config);
    }

    fn from_run_result(config: &Config, result: &Result<RunResult, Error>) -> (r: Result<
        Self,
        Error,
    >) {
        let a = match A::from_run_result(config, result) {
            Ok(a) => a,
            Err(e) => {
                return Err(e);
            },
        };
        let b = match B::from_run_result(config, result) {
            Ok(b) => b,
            Err(e) => {
                return Err(e);
            },
        };
        let c = match C::from_run_result(config, result) {
            Ok(c) => c,
            Err(e) => {
                return Err(e);
            },
        };
        let d = match D::from_run_result(config, result) {
            Ok(d) => d,
            Err(e) => {
                return Err(e);
            },
        };
        let e = match E::from_run_result(config, result) {
            Ok(e) => e,
            Err(err) => {
                return Err(err);
            },
        };
        Ok((a, b, c, d, e))
    }
}

impl<A: Output, B: Output, C: Output, D: Output, E: Output, F: Output> Output for (
    A,
    B,
    C,
    D,
    E,
    F,
) {
    open spec fn configure_spec(pre: Config) -> Config {
        F::configure_spec(
            E::configure_spec(
                D::configure_spec(C::configure_spec(B::configure_spec(A::configure_spec(pre)))),
            ),
        )
    }

    open spec fn assembled(config: Config, result: Result<RunResult, Error>, r: Result<
        Self,
        Error,
    >) -> bool {
        match r {
            Ok((a, b, c, d, e, f)) => A::assembled(config, result, Ok(a)) && B::assembled(
                config,
                result,
                Ok(b),
            ) && C::assembled(config, result, Ok(c)) && D::assembled(config, result, Ok(d))
                && E::assembled(config, result, Ok(e)) && F::assembled(config, result, Ok(f)),
            Err(err) => A::assembled(config, result, Err(err)) || ((exists|a: A|
                A::assembled(config, result, Ok(a))) && (B::assembled(config, result, Err(err))
                || ((exists|b: B| B::assembled(config, result, Ok(b))) && (C::assembled(
                config,
                result,
                Err(err),
            ) || ((exists|c: C| C::assembled(config, result, Ok(c))) && (D::assembled(
                config,
                result,
                Err(err),
            ) || ((exists|d: D| D::assembled(config, result, Ok(d))) && (E::assembled(
                config,
                result,
                Err(err),
            ) || ((exists|e: E| E::assembled(config, result, Ok(e))) && F::assembled(
                config,
                result,
                Err(err),
            )))))))))),
        }
    }

    fn configure(config: &mut Config) {
        A::configure(config);
        B::configure(config);
        C::configure(config);
        D::configure(config);
        E::configure(config);
        F::configure(config);
    }

    fn from_run_result(config: &Config, result: &Result<RunResult, Error>) -> (r: Result<
        Self,
        Error,
    >) {
        let a = match A::from_run_result(config, result) {
            Ok(a) => a,
            Err(e) => {
                return Err(e);
            },
        };
        let b = match B::from_run_result(config, result) {
            Ok(b) => b,
            Err(e) => {
                return Err(e);
            },
        };
        let c = match C::from_run_result(config, result) {
            Ok(c) => c,
            Err(e) => {
                return Err(e);
            },
        };
        let d = match D::from_run_result(config, result) {
            Ok(d) => d,
            Err(e) => {
                return Err(e);
            },
        };
        let e = match E::from_run_result(config, result) {
            Ok(e) => e,
            Err(err) => {
                return Err(err);
            },
        };
        let f = match F::from_run_result(config, result) {
            Ok(f) => f,
            Err(err) => {
                return Err(err);
            },
        };
        Ok((a, b, c, d, e, f))
    }
}

/// Capturing the exit status suppresses the exit-status policy: the status
/// shape switches the policy off, and a raw result assembled into it
/// carries the child's status verbatim, also when that status is a
/// failure.
pub proof fn lemma_status_shape_suppresses_exit_policy(
    config: Config,
    result: Result<RunResult, Error>,
    r: Result<Status, Error>,
)
    requires
        <Status as Output>::assembled(config, result, r),
        result is Ok,
    ensures
        !<Status as Output>::configure_spec(config).error_on_non_zero_exit_code,
        r matches Ok(st) && st.0 == result->Ok_0.exit_status,
{
}

/// When several components of a tuple shape could fail, the first one in
/// declaration order decides the reported error: a pair that asks for
/// stdout text and stderr text of a raw result whose two streams are both
/// invalid UTF-8 reports the stdout error.
pub proof fn lemma_first_component_error_wins(
    config: Config,
    result: Result<RunResult, Error>,
    r: Result<(StdoutTrimmed, Stderr), Error>,
)
    requires
        result matches Ok(rr) && !valid_utf8(rr.stdout@) && !valid_utf8(rr.stderr@),
        <(StdoutTrimmed, Stderr) as Output>::assembled(config, result, r),
    ensures
        r matches Err(e) && e is InvalidUtf8ToStdout,
{
}

/// A shape that captures a stream also switches that stream's relay off,
/// whatever configuration it starts from: capture and relay of one stream
/// are mutually exclusive by construction of the capturing shapes.
pub proof fn lemma_capturing_shapes_clear_relay(c: Config)
    ensures
        <StdoutTrimmed as Output>::configure_spec(c).capture_stdout,
        !<StdoutTrimmed as Output>::configure_spec(c).relay_stdout,
        <StdoutUntrimmed as Output>::configure_spec(c).capture_stdout,
        !<StdoutUntrimmed as Output>::configure_spec(c).relay_stdout,
        <Stderr as Output>::configure_spec(c).capture_stderr,
        !<Stderr as Output>::configure_spec(c).relay_stderr,
{
}

} // verus!
