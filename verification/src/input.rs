//! Configurators: the values a caller hands to an invocation, each applying
//! one change to the configuration, in the order given.
use vstd::prelude::*;

verus! {

use crate::config::Config;
use crate::config::wf_flags;
use crate::text::split_whitespace_spec;
use crate::text::split_whitespace;

/// One caller-supplied piece of an invocation.
pub enum Input {
    /// One argument token, taken as it is.
    Arg(String),
    /// Several argument tokens, taken as they are, in order.
    Args(Vec<String>),
    /// A string first split on whitespace, each word then one argument.
    Split(String),
    /// Write the quoted command line to the sink's stderr channel before
    /// the process starts.
    LogCommand,
    /// Run the child in this directory instead of the inherited one.
    CurrentDir(String),
    /// Bytes appended to what is written to the child's stdin.
    Stdin(Vec<u8>),
    /// Set an environment variable for the child, on top of the inherited
    /// environment.
    SetVar(String, String),
}

impl Input {
    /// The argument list after this input is applied to `args`.
    pub open spec fn applied_arguments(self, args: Seq<Seq<char>>) -> Seq<Seq<char>> {
        match self {
            Input::Arg(a) => args.push(a@),
            Input::Args(v) => args + v.deep_view(),
            Input::Split(s) => args + split_whitespace_spec(s@),
            _ => args,
        }
    }

    /// The environment additions after this input is applied to `env`.
    pub open spec fn applied_environment(self, env: Seq<(Seq<char>, Seq<char>)>) -> Seq<
        (Seq<char>, Seq<char>),
    > {
        match self {
            Input::SetVar(k, v) => env.push((k@, v@)),
            _ => env,
        }
    }

    /// The working directory after this input is applied to `cwd`.
    pub open spec fn applied_working_directory(self, cwd: Option<Seq<char>>) -> Option<Seq<char>> {
        match self {
            Input::CurrentDir(d) => Some(d@),
            _ => cwd,
        }
    }

    /// The stdin payload list after this input is applied to `stdin`.
    pub open spec fn applied_stdin(self, stdin: Seq<Seq<u8>>) -> Seq<Seq<u8>> {
        match self {
            Input::Stdin(b) => stdin.push(b@),
            _ => stdin,
        }
    }

    /// The logging flag after this input is applied to `log`.
    pub open spec fn applied_log_command(self, log: bool) -> bool {
        match self {
            Input::LogCommand => true,
            _ => log,
        }
    }

    /// Applies this input to `config`: arguments, environment additions and
    /// stdin buffers are appended, the working directory and the logging
    /// flag are overwritten, and the stream and exit-status flags stay as
    /// they are.
    pub fn configure(self, config: &mut Config)
        ensures
            final(config).arguments.deep_view() == self.applied_arguments(
                old(config).arguments.deep_view(),
            ),
            final(config).environment_additions.deep_view() == self.applied_environment(
                old(config).environment_additions.deep_view(),
            ),
            final(config).working_directory.deep_view() == self.applied_working_directory(
                old(config).working_directory.deep_view(),
            ),
            final(config).stdin.deep_view() == self.applied_stdin(old(config).stdin.deep_view()),
            final(config).log_command == self.applied_log_command(old(config).log_command),
            final(config).capture_stdout == old(config).capture_stdout,
            final(config).capture_stderr == old(config).capture_stderr,
            final(config).relay_stdout == old(config).relay_stdout,
            final(config).relay_stderr == old(config).relay_stderr,
            final(config).error_on_non_zero_exit_code == old(config).error_on_non_zero_exit_code,
    {
        match self {
            Input::Arg(a) => {
                let ghost pre = config.arguments.deep_view();
                let ghost av = a@;
                config.arguments.push(a);
                proof {
                    assert(config.arguments.deep_view() =~= pre.push(av));
                }
            },
            Input::Args(mut v) => {
                let ghost pre = config.arguments.deep_view();
                let ghost vv = v.deep_view();
                config.arguments.append(&mut v);
                proof {
                    assert(config.arguments.deep_view() =~= pre + vv);
                }
            },
            Input::Split(s) => {
                let ghost pre = config.arguments.deep_view();
                let ghost sv = s@;
                let mut words = split_whitespace(s.as_str());
                config.arguments.append(&mut words);
                proof {
                    assert(config.arguments.deep_view() =~= pre + split_whitespace_spec(sv));
                }
            },
            Input::LogCommand => {
                config.log_command = true;
            },
            Input::CurrentDir(d) => {
                config.working_directory = Some(d);
            },
            Input::Stdin(b) => {
                let ghost pre = config.stdin.deep_view();
                let ghost bv = b@;
                config.stdin.push(b);
                proof {
                    assert(config.stdin.deep_view() =~~= pre.push(bv));
                }
            },
            Input::SetVar(k, v) => {
                let ghost pre = config.environment_additions.deep_view();
                let ghost kv = (k@, v@);
                config.environment_additions.push((k, v));
                proof {
                    assert(config.environment_additions.deep_view() =~= pre.push(kv));
                }
            },
        }
    }
}

/// The configuration that a sequence of inputs builds, starting from the
/// default one and applying each input in order.
pub fn build_config(inputs: Vec<Input>) -> (r: Config)
    ensures
        r.arguments.deep_view() == applied_all_arguments(inputs@),
        r.environment_additions.deep_view() == applied_all_environment(inputs@),
        r.working_directory.deep_view() == applied_all_working_directory(inputs@),
        r.stdin.deep_view() == applied_all_stdin(inputs@),
        r.log_command == applied_all_log_command(inputs@),
        !r.capture_stdout,
        !r.capture_stderr,
        r.relay_stdout,
        r.relay_stderr,
        r.error_on_non_zero_exit_code,
        wf_flags(r),
{
    let mut config = Config::new();
    let ghost iv = inputs@;
    proof {
        assert(iv.subrange(0, 0) =~= Seq::<Input>::empty());
        assert(config.arguments.deep_view() =~= applied_all_arguments(iv.subrange(0, 0)));
        assert(config.environment_additions.deep_view() =~= applied_all_environment(
            iv.subrange(0, 0),
        ));
        assert(config.stdin.deep_view() =~= applied_all_stdin(iv.subrange(0, 0)));
    }
    let mut rest = inputs;
    while rest.len() > 0
        invariant
            rest@.len() <= iv.len(),
            rest@ =~= iv.subrange(iv.len() - rest@.len(), iv.len() as int),
            config.arguments.deep_view() == applied_all_arguments(
                iv.subrange(0, iv.len() - rest@.len()),
            ),
            config.environment_additions.deep_view() == applied_all_environment(
                iv.subrange(0, iv.len() - rest@.len()),
            ),
            config.working_directory.deep_view() == applied_all_working_directory(
                iv.subrange(0, iv.len() - rest@.len()),
            ),
            config.stdin.deep_view() == applied_all_stdin(iv.subrange(0, iv.len() - rest@.len())),
            config.log_command == applied_all_log_command(
                iv.subrange(0, iv.len() - rest@.len()),
            ),
            !config.capture_stdout,
            !config.capture_stderr,
            config.relay_stdout,
            config.relay_stderr,
            config.error_on_non_zero_exit_code,
        decreases rest@.len(),
    {
        let ghost i = iv.len() - rest@.len();
        let input = rest.remove(0);
        proof {
            assert(input == iv[i]);
            assert(rest@ =~= iv.subrange(i + 1, iv.len() as int));
            lemma_applied_all_snoc(iv, i);
        }
        input.configure(&mut config);
    }
    proof {
        assert(iv.subrange(0, iv.len() as int) =~= iv);
    }
    config
}

/// The argument list that `inputs` build, in order, from nothing.
pub open spec fn applied_all_arguments(inputs: Seq<Input>) -> Seq<Seq<char>>
    decreases inputs.len(),
{
    if inputs.len() == 0 {
        Seq::empty()
    } else {
        inputs.last().applied_arguments(applied_all_arguments(inputs.drop_last()))
    }
}

/// The environment additions that `inputs` build, in order, from nothing.
pub open spec fn applied_all_environment(inputs: Seq<Input>) -> Seq<(Seq<char>, Seq<char>)>
    decreases inputs.len(),
{
    if inputs.len() == 0 {
        Seq::empty()
    } else {
        inputs.last().applied_environment(applied_all_environment(inputs.drop_last()))
    }
}

/// The working directory that `inputs` leave, from none.
pub open spec fn applied_all_working_directory(inputs: Seq<Input>) -> Option<Seq<char>>
    decreases inputs.len(),
{
    if inputs.len() == 0 {
        None
    } else {
        inputs.last().applied_working_directory(
            applied_all_working_directory(inputs.drop_last()),
        )
    }
}

/// The stdin payload list that `inputs` build, in order, from nothing.
pub open spec fn applied_all_stdin(inputs: Seq<Input>) -> Seq<Seq<u8>>
    decreases inputs.len(),
{
    if inputs.len() == 0 {
        Seq::empty()
    } else {
        inputs.last().applied_stdin(applied_all_stdin(inputs.drop_last()))
    }
}

/// The logging flag that `inputs` leave, from off.
pub open spec fn applied_all_log_command(inputs: Seq<Input>) -> bool
    decreases inputs.len(),
{
    if inputs.len() == 0 {
        false
    } else {
        inputs.last().applied_log_command(applied_all_log_command(inputs.drop_last()))
    }
}

proof fn lemma_applied_all_snoc(inputs: Seq<Input>, i: int)
    requires
        0 <= i < inputs.len(),
    ensures
        applied_all_arguments(inputs.subrange(0, i + 1)) == inputs[i].applied_arguments(
            applied_all_arguments(inputs.subrange(0, i)),
        ),
        applied_all_environment(inputs.subrange(0, i + 1)) == inputs[i].applied_environment(
            applied_all_environment(inputs.subrange(0, i)),
        ),
        applied_all_working_directory(inputs.subrange(0, i + 1))
            == inputs[i].applied_working_directory(
            applied_all_working_directory(inputs.subrange(0, i)),
        ),
        applied_all_stdin(inputs.subrange(0, i + 1)) == inputs[i].applied_stdin(
            applied_all_stdin(inputs.subrange(0, i)),
        ),
        applied_all_log_command(inputs.subrange(0, i + 1)) == inputs[i].applied_log_command(
            applied_all_log_command(inputs.subrange(0, i)),
        ),
{
    let pre = inputs.subrange(0, i + 1);
    assert(pre.drop_last() =~= inputs.subrange(0, i));
    assert(pre.last() == inputs[i]);
}

} // verus!
