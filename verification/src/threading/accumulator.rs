//! The two bounded output streams of a job.

use vstd::prelude::*;
use super::OUT_LIMIT;

verus! {

/// How many more bytes a stream that holds `buf` can take.
pub open spec fn room(buf: Seq<u8>) -> nat {
    if buf.len() <= OUT_LIMIT {
        (OUT_LIMIT - buf.len()) as nat
    } else {
        0
    }
}

/// Whether `chunk` is more than a stream that holds `buf` can take.
pub open spec fn overflows(buf: Seq<u8>, chunk: Seq<u8>) -> bool {
    chunk.len() > room(buf)
}

/// What a stream that holds `buf` holds after `chunk` arrives: all of the
/// chunk if it fits, else as much of its start as fills the stream exactly.
pub open spec fn appended(buf: Seq<u8>, chunk: Seq<u8>) -> Seq<u8> {
    if overflows(buf, chunk) {
        buf + chunk.take(room(buf) as int)
    } else {
        buf + chunk
    }
}

/// Both streams as byte sequences.
pub struct Streams {
    pub stdout: Seq<u8>,
    pub stderr: Seq<u8>,
}

impl Streams {
    /// Two empty streams.
    pub open spec fn empty() -> Streams {
        Streams { stdout: Seq::empty(), stderr: Seq::empty() }
    }

    /// Neither stream is over the limit.
    pub open spec fn within_limit(self) -> bool {
        self.stdout.len() <= OUT_LIMIT && self.stderr.len() <= OUT_LIMIT
    }

    /// The streams after `out` arrives on standard output and `err` on
    /// standard error.
    pub open spec fn received(self, out: Seq<u8>, err: Seq<u8>) -> Streams {
        Streams { stdout: appended(self.stdout, out), stderr: appended(self.stderr, err) }
    }
}

/// Which of the two streams a chunk did not fit into.
#[derive(Clone, Copy, Debug, PartialEq, Eq, Structural)]
pub struct Overflow {
    pub stdout: bool,
    pub stderr: bool,
}

impl Overflow {
    /// Whether either stream overflowed.
    pub fn any(&self) -> (yes: bool)
        ensures
            yes == (self.stdout || self.stderr),
    {
        self.stdout || self.stderr
    }
}

/// Appends to `buf` the first `n` bytes of `chunk`.
fn push_prefix(buf: &mut Vec<u8>, chunk: &[u8], n: usize)
    requires
        n <= chunk@.len(),
    ensures
        final(buf)@ == old(buf)@ + chunk@.take(n as int),
{
    let mut i: usize = 0;
    while i < n
        invariant
            i <= n <= chunk@.len(),
            buf@ == old(buf)@ + chunk@.take(i as int),
        decreases n - i,
    {
        buf.push(chunk[i]);
        i += 1;
        assert(buf@ =~= old(buf)@ + chunk@.take(i as int));
    }
}

/// Appends `chunk` to `buf` as far as the limit allows, and says whether it
/// had to be cut.
fn push_limited(buf: &mut Vec<u8>, chunk: &[u8]) -> (overflown: bool)
    ensures
        final(buf)@ == appended(old(buf)@, chunk@),
        overflown == overflows(old(buf)@, chunk@),
{
    let room: usize = if buf.len() <= OUT_LIMIT {
        OUT_LIMIT - buf.len()
    } else {
        0
    };
    if chunk.len() > room {
        push_prefix(buf, chunk, room);
        true
    } else {
        push_prefix(buf, chunk, chunk.len());
        assert(chunk@.take(chunk@.len() as int) =~= chunk@);
        false
    }
}

/// The output a job has produced and nobody has collected yet, on each of
/// its two streams. An accumulator starts within the limit and no operation
/// takes it over: neither stream ever holds more than `OUT_LIMIT` bytes.
pub struct StreamAccumulator {
    stdout: Vec<u8>,
    stderr: Vec<u8>,
}

impl View for StreamAccumulator {
    type V = Streams;

    closed spec fn view(&self) -> Streams {
        Streams { stdout: self.stdout@, stderr: self.stderr@ }
    }
}

impl StreamAccumulator {
    /// Two empty streams.
    pub fn new() -> (acc: StreamAccumulator)
        ensures
            acc@ == Streams::empty(),
    {
        StreamAccumulator { stdout: Vec::new(), stderr: Vec::new() }
    }

    /// Empties both streams.
    pub fn clear(&mut self)
        ensures
            final(self)@ == Streams::empty(),
    {
        self.stdout.clear();
        self.stderr.clear();
    }

    /// Takes in one chunk for each stream. A chunk that does not fit is cut so
    /// that its stream is filled exactly; the result says which were cut.
    pub fn append(&mut self, out: &[u8], err: &[u8]) -> (overflow: Overflow)
        ensures
            final(self)@ == old(self)@.received(out@, err@),
            old(self)@.within_limit() ==> final(self)@.within_limit(),
            overflow.stdout == overflows(old(self)@.stdout, out@),
            overflow.stderr == overflows(old(self)@.stderr, err@),
    {
        let stdout = push_limited(&mut self.stdout, out);
        let stderr = push_limited(&mut self.stderr, err);
        Overflow { stdout, stderr }
    }

    /// Hands over what standard output holds and leaves it empty.
    pub fn take_stdout(&mut self) -> (bytes: Vec<u8>)
        ensures
            bytes@ == old(self)@.stdout,
            final(self)@ == (Streams { stdout: Seq::empty(), stderr: old(self)@.stderr }),
    {
        let mut bytes: Vec<u8> = Vec::new();
        bytes.append(&mut self.stdout);
        assert(bytes@ =~= old(self)@.stdout);
        bytes
    }

    /// Hands over what standard error holds and leaves it empty.
    pub fn take_stderr(&mut self) -> (bytes: Vec<u8>)
        ensures
            bytes@ == old(self)@.stderr,
            final(self)@ == (Streams { stdout: old(self)@.stdout, stderr: Seq::empty() }),
    {
        let mut bytes: Vec<u8> = Vec::new();
        bytes.append(&mut self.stderr);
        assert(bytes@ =~= old(self)@.stderr);
        bytes
    }

    /// What standard output holds, left in place.
    pub fn stdout(&self) -> (bytes: &[u8])
        ensures
            bytes@ == self@.stdout,
    {
        self.stdout.as_slice()
    }

    /// What standard error holds, left in place.
    pub fn stderr(&self) -> (bytes: &[u8])
        ensures
            bytes@ == self@.stderr,
    {
        self.stderr.as_slice()
    }
}

} // verus!
