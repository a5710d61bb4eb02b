//! Output sinks: where relayed bytes go. An invocation writes either to the
//! parent process's own standard streams or, in tests, to shared in-memory
//! buffers that can be inspected afterwards.
use vstd::prelude::*;

verus! {

use crate::text::bytes_to_string_lossy;

#[verifier::external_type_specification]
#[verifier::external_body]
#[verifier::reject_recursive_types(T)]
pub struct ExMutex<T: ?Sized>(std::sync::Mutex<T>);

/// A byte buffer shared by all clones of itself, with internally
/// synchronized writes. Because other clones may write to it at any time,
/// nothing is claimed about its contents.
#[derive(Clone)]
pub struct MemBuf {
    buf: std::sync::Arc<std::sync::Mutex<Vec<u8>>>,
}

impl MemBuf {
    /// A new, empty shared buffer.
    #[verifier::external_body]
    pub(crate) fn new() -> MemBuf {
        MemBuf { buf: std::sync::Arc::new(std::sync::Mutex::new(Vec::new())) }
    }

    /// Relies on `std::sync::Mutex::lock`: the chunk is appended under the
    /// lock, so a chunk is never interleaved with another writer's chunk.
    /// A poisoned lock is taken over rather than propagated, since the
    /// buffer holds only bytes.
    #[verifier::external_body]
    fn write_chunk(&self, chunk: &[u8]) {
        let mut guard = match self.buf.lock() {
            Ok(guard) => guard,
            Err(poisoned) => poisoned.into_inner(),
        };
        guard.extend_from_slice(chunk);
    }

    /// Relies on `std::sync::Mutex::lock`: a snapshot of all bytes written
    /// so far, taken under the lock.
    #[verifier::external_body]
    fn snapshot(&self) -> Vec<u8> {
        let guard = match self.buf.lock() {
            Ok(guard) => guard,
            Err(poisoned) => poisoned.into_inner(),
        };
        guard.clone()
    }
}

/// One writable destination for relayed bytes.
#[derive(Clone)]
pub enum Sink {
    /// The parent process's own stdout.
    ParentStdout,
    /// The parent process's own stderr.
    ParentStderr,
    /// A shared in-memory buffer, for tests.
    Memory(MemBuf),
}

/// Relies on `std::io::Write::write_all` and `flush` on `std::io::stdout`:
/// either the whole chunk is written, or the operating system's message is
/// returned; the stream is then flushed, and a failure of the flush alone
/// is disregarded.
#[verifier::external_body]
fn write_parent_stdout(chunk: &[u8]) -> (r: Result<(), String>) {
    let mut handle = std::io::stdout();
    match std::io::Write::write_all(&mut handle, chunk) {
        Ok(()) => {
            let _ = std::io::Write::flush(&mut handle);
            Ok(())
        },
        Err(e) => Err(format!("{}", e)),
    }
}

/// Relies on `std::io::Write::write_all` on `std::io::stderr`: either the
/// whole chunk is written, or the operating system's message is returned.
#[verifier::external_body]
fn write_parent_stderr(chunk: &[u8]) -> (r: Result<(), String>) {
    let mut handle = std::io::stderr();
    match std::io::Write::write_all(&mut handle, chunk) {
        Ok(()) => Ok(()),
        Err(e) => Err(format!("{}", e)),
    }
}

impl Sink {
    /// Whether this sink is an in-memory buffer rather than one of the
    /// parent's own streams.
    pub open spec fn spec_is_memory(self) -> bool {
        self is Memory
    }

    /// Whether this sink is an in-memory buffer.
    pub(crate) fn is_memory(&self) -> (r: bool)
        ensures
            r == self.spec_is_memory(),
    {
        match self {
            Sink::Memory(_) => true,
            _ => false,
        }
    }

    /// Writes one chunk to this sink, atomically with respect to other
    /// writers of the same sink. An in-memory sink cannot fail; a parent
    /// stream reports the operating system's message when it does.
    pub(crate) fn write_chunk(&self, chunk: &[u8]) -> (r: Result<(), String>)
        ensures
            self.spec_is_memory() ==> r is Ok,
    {
        match self {
            Sink::ParentStdout => write_parent_stdout(chunk),
            Sink::ParentStderr => write_parent_stderr(chunk),
            Sink::Memory(m) => {
                m.write_chunk(chunk);
                Ok(())
            },
        }
    }
}

/// The pair of sinks one invocation relays to: a stdout-like channel and a
/// stderr-like channel.
#[derive(Clone)]
pub struct Context {
    /// Where the child's stdout is relayed.
    pub stdout: Sink,
    /// Where the child's stderr, and the logged command line, go.
    pub stderr: Sink,
}

impl Context {
    /// The production context: relayed bytes go to the parent process's
    /// own standard streams.
    pub fn production() -> (r: Context)
        ensures
            !r.stdout.spec_is_memory(),
            !r.stderr.spec_is_memory(),
    {
        Context { stdout: Sink::ParentStdout, stderr: Sink::ParentStderr }
    }

    /// A test context: relayed bytes go to two fresh in-memory buffers
    /// that this context's accessors read back.
    pub fn test() -> (r: Context)
        ensures
            r.stdout.spec_is_memory(),
            r.stderr.spec_is_memory(),
    {
        Context { stdout: Sink::Memory(MemBuf::new()), stderr: Sink::Memory(MemBuf::new()) }
    }

    /// What has been relayed to the stdout channel so far, decoded
    /// leniently; empty for a production context, whose bytes go to the
    /// parent's own stream and cannot be read back.
    pub fn stdout(&self) -> (r: String)
        ensures
            !self.stdout.spec_is_memory() ==> r@.len() == 0,
    {
        match &self.stdout {
            Sink::Memory(m) => {
                let bytes = m.snapshot();
                bytes_to_string_lossy(&bytes)
            },
            _ => String::new(),
        }
    }

    /// What has been relayed to the stderr channel so far, decoded
    /// leniently; empty for a production context, whose bytes go to the
    /// parent's own stream and cannot be read back.
    pub fn stderr(&self) -> (r: String)
        ensures
            !self.stderr.spec_is_memory() ==> r@.len() == 0,
    {
        match &self.stderr {
            Sink::Memory(m) => {
                let bytes = m.snapshot();
                bytes_to_string_lossy(&bytes)
            },
            _ => String::new(),
        }
    }
}

} // verus!
