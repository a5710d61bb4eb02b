//! The immutable description of one invocation: what to run, what to feed
//! it, and what to do with its streams and exit status.
use vstd::prelude::*;

verus! {

use vstd::string::StrSliceExecFns;
use vstd::string::StringExecFns;
use crate::text::is_unicode_whitespace;
use crate::text::char_is_whitespace;

/// Everything one invocation needs to know before the process starts.
pub struct Config {
    /// The program followed by its arguments, in order.
    pub arguments: Vec<String>,
    /// Environment variables set on top of the inherited environment;
    /// a later entry for the same name overwrites an earlier one.
    pub environment_additions: Vec<(String, String)>,
    /// Where the child runs; inherited from the parent when absent.
    pub working_directory: Option<String>,
    /// Byte buffers written to the child's stdin in order; stdin is closed
    /// as soon as they are exhausted.
    pub stdin: Vec<Vec<u8>>,
    /// Keep what the child writes to stdout in memory.
    pub capture_stdout: bool,
    /// Keep what the child writes to stderr in memory.
    pub capture_stderr: bool,
    /// Forward the child's stdout to the sink's stdout channel.
    pub relay_stdout: bool,
    /// Forward the child's stderr to the sink's stderr channel.
    pub relay_stderr: bool,
    /// Treat a non-success exit status as an error.
    pub error_on_non_zero_exit_code: bool,
    /// Write the quoted command line to the sink's stderr channel before
    /// spawning.
    pub log_command: bool,
}

/// A stream that is captured is never relayed as well: capturing switches
/// the relay off, and only an explicit opt-out drops a stream entirely.
pub open spec fn wf_flags(c: Config) -> bool {
    &&& (c.capture_stdout ==> !c.relay_stdout)
    &&& (c.capture_stderr ==> !c.relay_stderr)
}

/// Whether an argument must be wrapped in quotes when the command line is
/// printed: it is empty or holds whitespace.
pub open spec fn needs_quoting(a: Seq<char>) -> bool {
    a.len() == 0 || exists|i: int| 0 <= i < a.len() && is_unicode_whitespace(a[i])
}

/// An argument as it appears in the printed command line.
pub open spec fn quote_spec(a: Seq<char>) -> Seq<char> {
    if needs_quoting(a) {
        seq!['\''] + a + seq!['\'']
    } else {
        a
    }
}

/// The quoted command line: the quoted arguments joined by single spaces.
pub open spec fn full_command_spec(args: Seq<Seq<char>>) -> Seq<char>
    decreases args.len(),
{
    if args.len() == 0 {
        Seq::empty()
    } else if args.len() == 1 {
        quote_spec(args[0])
    } else {
        quote_spec(args[0]) + seq![' '] + full_command_spec(args.drop_first())
    }
}

proof fn lemma_full_command_snoc(args: Seq<Seq<char>>, x: Seq<char>)
    ensures
        args.len() == 0 ==> full_command_spec(args.push(x)) =~= quote_spec(x),
        args.len() > 0 ==> full_command_spec(args.push(x)) =~= full_command_spec(args) + seq![' ']
            + quote_spec(x),
    decreases args.len(),
{
    if args.len() == 0 {
        assert(args.push(x)[0] == x);
    } else {
        lemma_full_command_snoc(args.drop_first(), x);
        assert(args.push(x).drop_first() =~= args.drop_first().push(x));
        if args.len() == 1 {
            assert(full_command_spec(args.drop_first().push(x)) =~= quote_spec(x));
        }
    }
}

/// `a` wrapped in single quotes when it is empty or holds whitespace,
/// unchanged otherwise.
fn quote_arg(a: &String) -> (r: String)
    ensures
        r@ == quote_spec(a@),
{
    let s = a.as_str();
    let n = s.unicode_len();
    let mut found: bool = false;
    let mut i: usize = 0;
    while i < n
        invariant
            0 <= i <= n,
            n == a@.len(),
            s@ == a@,
            found ==> needs_quoting(a@),
            !found ==> forall|k: int| 0 <= k < i ==> !is_unicode_whitespace(a@[k]),
        decreases n - i,
    {
        if char_is_whitespace(s.get_char(i)) {
            found = true;
        }
        i = i + 1;
    }
    if n == 0 || found {
        let mut q = "'".to_owned();
        q.append(s);
        q.append("'");
        proof {
            reveal_strlit("'");
            assert("'"@ =~= seq!['\'']);
            assert(q@ =~= seq!['\''] + a@ + seq!['\'']);
        }
        q
    } else {
        proof {
            assert(!needs_quoting(a@));
        }
        a.clone()
    }
}

impl Config {
    /// A configuration that runs nothing yet: no arguments, no environment
    /// additions, no working-directory override, no stdin payload, both
    /// streams relayed, non-zero exit statuses treated as errors, and no
    /// command logging.
    pub fn new() -> (r: Config)
        ensures
            r.arguments@.len() == 0,
            r.environment_additions@.len() == 0,
            r.working_directory is None,
            r.stdin@.len() == 0,
            !r.capture_stdout,
            !r.capture_stderr,
            r.relay_stdout,
            r.relay_stderr,
            r.error_on_non_zero_exit_code,
            !r.log_command,
    {
        Config {
            arguments: Vec::new(),
            environment_additions: Vec::new(),
            working_directory: None,
            stdin: Vec::new(),
            capture_stdout: false,
            capture_stderr: false,
            relay_stdout: true,
            relay_stderr: true,
            error_on_non_zero_exit_code: true,
            log_command: false,
        }
    }

    /// The quoted command line of this configuration.
    pub fn full_command(&self) -> (r: String)
        ensures
            r@ == full_command_spec(self.arguments.deep_view()),
    {
        let ghost argsv = self.arguments.deep_view();
        let mut out = String::new();
        let mut i: usize = 0;
        proof {
            assert(argsv.subrange(0, 0) =~= Seq::<Seq<char>>::empty());
            assert(out@ =~= full_command_spec(argsv.subrange(0, 0)));
        }
        while i < self.arguments.len()
            invariant
                0 <= i <= self.arguments.len(),
                argsv == self.arguments.deep_view(),
                argsv.len() == self.arguments@.len(),
                out@ == full_command_spec(argsv.subrange(0, i as int)),
            decreases self.arguments.len() - i,
        {
            let q = quote_arg(&self.arguments[i]);
            proof {
                assert(argsv[i as int] == self.arguments@[i as int]@);
            }
            if i > 0 {
                out.append(" ");
                proof {
                    reveal_strlit(" ");
                    assert(" "@ =~= seq![' ']);
                }
            }
            out.append(q.as_str());
            proof {
                let pre = argsv.subrange(0, i as int);
                lemma_full_command_snoc(pre, argsv[i as int]);
                assert(pre.push(argsv[i as int]) =~= argsv.subrange(0, i + 1));
                if i == 0 {
                    assert(out@ =~= full_command_spec(argsv.subrange(0, i + 1)));
                } else {
                    assert(out@ =~= full_command_spec(pre) + seq![' '] + quote_spec(
                        argsv[i as int],
                    ));
                }
            }
            i = i + 1;
        }
        proof {
            assert(argsv.subrange(0, argsv.len() as int) =~= argsv);
        }
        out
    }
}

impl Default for Config {
    /// The same configuration as `Config::new`.
    fn default() -> (r: Config)
        ensures
            r.arguments@.len() == 0,
            r.environment_additions@.len() == 0,
            r.working_directory is None,
            r.stdin@.len() == 0,
            !r.capture_stdout,
            !r.capture_stderr,
            r.relay_stdout,
            r.relay_stderr,
            r.error_on_non_zero_exit_code,
            !r.log_command,
    {
        Config::new()
    }
}

} // verus!
