//! Reading one file forward: splitting the bytes that were read into complete
//! lines, keeping a trailing partial line for the next read, and advancing the
//! file's offset by exactly the bytes that left as lines.

use crate::text::{first_match, lemma_first_match, lemma_first_match_at};
use vstd::prelude::*;

verus! {

/// The byte that ends a line.
pub const NEWLINE: u8 = 10;

/// Size of the buffer that one read fills.
pub const READ_BUFFER_SIZE: usize = 16384;

/// How long a tailer sleeps after a read that brought no bytes.
pub const IDLE_SLEEP_MS: u64 = 100;

/// Picks the byte that ends a line.
pub open spec fn is_newline() -> spec_fn(u8) -> bool {
    |b: u8| b == NEWLINE
}

/// Position of the first newline in `s`, or the length of `s` if it has none.
pub open spec fn first_newline(s: Seq<u8>) -> int {
    first_match(s, is_newline())
}

/// Whether `s` holds no newline.
pub open spec fn no_newline(s: Seq<u8>) -> bool {
    forall|i: int| 0 <= i < s.len() ==> s[i] != NEWLINE
}

/// The complete lines of `s` in order, each without its newline.
pub open spec fn complete_lines(s: Seq<u8>) -> Seq<Seq<u8>>
    decreases s.len(),
{
    let k = first_newline(s);
    if 0 <= k < s.len() {
        seq![s.subrange(0, k)] + complete_lines(s.subrange(k + 1, s.len() as int))
    } else {
        Seq::empty()
    }
}

/// What follows the last newline of `s`: the partial line that is kept.
pub open spec fn remainder(s: Seq<u8>) -> Seq<u8>
    decreases s.len(),
{
    let k = first_newline(s);
    if 0 <= k < s.len() {
        remainder(s.subrange(k + 1, s.len() as int))
    } else {
        s
    }
}

/// The lines joined again, each followed by a newline.
pub open spec fn joined(lines: Seq<Seq<u8>>) -> Seq<u8>
    decreases lines.len(),
{
    if lines.len() == 0 {
        Seq::empty()
    } else {
        lines[0].push(NEWLINE) + joined(lines.drop_first())
    }
}

/// The byte sequences that a vector of lines holds.
pub open spec fn lines_view(lines: Seq<Vec<u8>>) -> Seq<Seq<u8>> {
    lines.map_values(|l: Vec<u8>| l@)
}

/// Bytes hold no newline exactly if their first newline lies at their end.
pub proof fn lemma_no_newline(s: Seq<u8>)
    ensures
        0 <= first_newline(s) <= s.len(),
        no_newline(s) <==> first_newline(s) == s.len(),
        first_newline(s) < s.len() ==> s[first_newline(s)] == NEWLINE,
        no_newline(s.subrange(0, first_newline(s))),
{
    lemma_first_match(s, is_newline());
    let k = first_newline(s);
    if no_newline(s) && k < s.len() {
        assert((is_newline())(s[k]));
    }
    if k == s.len() {
        assert forall|i: int| 0 <= i < s.len() implies s[i] != NEWLINE by {
            assert(!(is_newline())(s[i]));
        }
    }
    let head = s.subrange(0, k);
    assert forall|i: int| 0 <= i < head.len() implies head[i] != NEWLINE by {
        assert(!(is_newline())(s[i]));
    }
}

/// Nothing is lost or invented by splitting: the complete lines, each with
/// its newline, followed by the partial line, are the bytes that came in. No
/// line and no partial line holds a newline.
pub proof fn lemma_split_reassembles(s: Seq<u8>)
    ensures
        joined(complete_lines(s)) + remainder(s) == s,
        no_newline(remainder(s)),
        forall|i: int| 0 <= i < complete_lines(s).len() ==> no_newline(#[trigger] complete_lines(s)[i]),
        remainder(s).len() <= s.len(),
    decreases s.len(),
{
    lemma_no_newline(s);
    let k = first_newline(s);
    if 0 <= k < s.len() {
        let rest = s.subrange(k + 1, s.len() as int);
        lemma_split_reassembles(rest);
        let lines = complete_lines(s);
        assert(lines[0] == s.subrange(0, k));
        assert(lines.drop_first() =~= complete_lines(rest));
        assert(joined(lines) == s.subrange(0, k).push(NEWLINE) + joined(complete_lines(rest)));
        assert(s.subrange(0, k).push(NEWLINE) + (joined(complete_lines(rest)) + remainder(rest))
            =~= s);
        assert(joined(lines) + remainder(s) =~= s.subrange(0, k).push(NEWLINE) + (joined(
            complete_lines(rest),
        ) + remainder(rest)));
        assert forall|i: int| 0 <= i < lines.len() implies no_newline(#[trigger] lines[i]) by {
            if i > 0 {
                assert(lines[i] == complete_lines(rest)[i - 1]);
            }
        }
    } else {
        assert(joined(complete_lines(s)) + remainder(s) =~= s);
    }
}

/// A partial line is kept across reads: splitting two chunks one after the
/// other, with the partial line of the first carried into the second, gives
/// the same lines and the same partial line as splitting both at once.
pub proof fn lemma_split_across_reads(a: Seq<u8>, b: Seq<u8>)
    ensures
        complete_lines(a + b) == complete_lines(a) + complete_lines(remainder(a) + b),
        remainder(a + b) == remainder(remainder(a) + b),
    decreases a.len(),
{
    lemma_first_match(a, is_newline());
    let k = first_newline(a);
    if 0 <= k < a.len() {
        let rest = a.subrange(k + 1, a.len() as int);
        lemma_split_across_reads(rest, b);
        let ab = a + b;
        assert forall|i: int| 0 <= i < k implies !(is_newline())(ab[i]) by {
            assert(ab[i] == a[i]);
        }
        assert(ab[k] == a[k]);
        lemma_first_match_at(ab, is_newline(), k);
        assert(ab.subrange(0, k) =~= a.subrange(0, k));
        assert(ab.subrange(k + 1, ab.len() as int) =~= rest + b);
        assert(complete_lines(ab) =~= seq![a.subrange(0, k)] + (complete_lines(rest)
            + complete_lines(remainder(rest) + b)));
        assert(complete_lines(a) + complete_lines(remainder(a) + b) =~= seq![a.subrange(0, k)] + (
        complete_lines(rest) + complete_lines(remainder(rest) + b)));
    } else {
        assert(complete_lines(a) + complete_lines(a + b) =~= complete_lines(a + b));
    }
}

/// Bytes without a newline hold no complete line and are all partial line.
pub proof fn lemma_no_newline_no_line(s: Seq<u8>)
    requires
        no_newline(s),
    ensures
        complete_lines(s) == Seq::<Seq<u8>>::empty(),
        remainder(s) == s,
{
    lemma_no_newline(s);
}

/// Collects bytes and hands out complete lines.
#[derive(Debug)]
pub struct LineAccumulator {
    partial: Vec<u8>,
}

impl View for LineAccumulator {
    type V = Seq<u8>;

    /// The partial line held back so far.
    closed spec fn view(&self) -> Seq<u8> {
        self.partial@
    }
}

impl LineAccumulator {
    /// The held partial line never holds a newline.
    #[verifier::type_invariant]
    closed spec fn inv(&self) -> bool {
        no_newline(self.partial@)
    }

    /// An accumulator that holds nothing.
    pub fn new() -> (r: LineAccumulator)
        ensures
            r@ == Seq::<u8>::empty(),
    {
        LineAccumulator { partial: Vec::new() }
    }

    /// Number of bytes held back.
    pub fn pending(&self) -> (n: usize)
        ensures
            n == self@.len(),
    {
        self.partial.len()
    }

    /// Takes the next chunk of bytes. Every line that the held bytes and the
    /// chunk complete comes out, in order and without its newline; what
    /// follows the last newline is held back for the next chunk.
    pub fn feed(&mut self, chunk: &[u8]) -> (lines: Vec<Vec<u8>>)
        ensures
            lines_view(lines@) == complete_lines(old(self)@ + chunk@),
            final(self)@ == remainder(old(self)@ + chunk@),
    {
        proof {
            use_type_invariant(&*self);
        }
        let ghost all = self.partial@ + chunk@;
        let mut lines: Vec<Vec<u8>> = Vec::new();
        let mut partial: Vec<u8> = Vec::new();
        core::mem::swap(&mut partial, &mut self.partial);
        let n = chunk.len();
        let mut i: usize = 0;
        assert(chunk@.subrange(0, n as int) =~= chunk@);
        assert(lines_view(lines@) + complete_lines(all) =~= complete_lines(all));
        while i < n
            invariant
                i <= n == chunk@.len(),
                self.partial@.len() == 0,
                no_newline(partial@),
                complete_lines(all) == lines_view(lines@) + complete_lines(
                    partial@ + chunk@.subrange(i as int, n as int),
                ),
                remainder(all) == remainder(partial@ + chunk@.subrange(i as int, n as int)),
            decreases n - i,
        {
            let byte = chunk[i];
            let ghost cur = partial@ + chunk@.subrange(i as int, n as int);
            let ghost tail = chunk@.subrange(i as int + 1, n as int);
            let ghost held = partial@;
            if byte == NEWLINE {
                let mut line: Vec<u8> = Vec::new();
                core::mem::swap(&mut line, &mut partial);
                proof {
                    assert(cur[held.len() as int] == chunk@[i as int]);
                    assert forall|j: int| 0 <= j < held.len() implies !(is_newline())(
                        cur[j],
                    ) by {
                        assert(cur[j] == held[j]);
                    }
                    lemma_first_match_at(cur, is_newline(), held.len() as int);
                    assert(cur.subrange(0, held.len() as int) =~= held);
                    assert(cur.subrange(held.len() as int + 1, cur.len() as int) =~= tail);
                    assert(partial@ + tail =~= tail);
                    assert(lines_view(lines@.push(line)) =~= lines_view(lines@) + seq![held]);
                    assert(lines_view(lines@) + (seq![held] + complete_lines(tail)) =~= (
                    lines_view(lines@) + seq![held]) + complete_lines(tail));
                }
                lines.push(line);
            } else {
                partial.push(byte);
                proof {
                    assert(partial@ + tail =~= cur);
                }
            }
            i = i + 1;
        }
        proof {
            assert(partial@ + chunk@.subrange(n as int, n as int) =~= partial@);
            lemma_no_newline_no_line(partial@);
            assert(lines_view(lines@) + Seq::<Seq<u8>>::empty() =~= lines_view(lines@));
        }
        self.partial = partial;
        lines
    }

    /// Hands out the held partial line, as a graceful stop does, and holds
    /// nothing afterwards. `None` where nothing was held.
    pub fn finish(&mut self) -> (last: Option<Vec<u8>>)
        ensures
            final(self)@ == Seq::<u8>::empty(),
            last.is_some() <==> old(self)@.len() > 0,
            last.is_some() ==> last.unwrap()@ == old(self)@,
    {
        let mut partial: Vec<u8> = Vec::new();
        core::mem::swap(&mut partial, &mut self.partial);
        if partial.len() == 0 {
            None
        } else {
            Some(partial)
        }
    }

    /// Forgets the held partial line.
    pub fn reset(&mut self)
        ensures
            final(self)@ == Seq::<u8>::empty(),
    {
        self.partial = Vec::new();
    }
}

/// What a tailer does after a read that brought `n` bytes.
#[derive(Clone, Copy, Debug, PartialEq, Eq, Structural)]
pub enum ReadStep {
    /// Nothing came: sleep this many milliseconds and read again.
    Idle(u64),
    /// Bytes came: split them into lines.
    Process,
}

/// What follows a read of `n` bytes: a read of zero bytes makes the tailer
/// idle for a short while, since the file may still grow.
pub fn after_read(n: usize) -> (step: ReadStep)
    ensures
        step == if n == 0 {
            ReadStep::Idle(IDLE_SLEEP_MS)
        } else {
            ReadStep::Process
        },
{
    if n == 0 {
        ReadStep::Idle(IDLE_SLEEP_MS)
    } else {
        ReadStep::Process
    }
}

/// The reading state of one file: which file, and how far it has been
/// consumed. `offset` counts the bytes that left as complete lines, newlines
/// included; the bytes of a held partial line lie beyond it.
#[derive(Debug)]
pub struct Tailer {
    pub inode: u64,
    pub path: String,
    pub offset: u64,
    pub lines: LineAccumulator,
}

impl Tailer {
    /// The position in the file up to which bytes have been read: the
    /// offset plus the held partial line.
    pub open spec fn read_position(&self) -> int {
        self.offset + self.lines@.len()
    }

    /// A tailer for a file, starting at `offset` with nothing held.
    pub fn new(inode: u64, path: String, offset: u64) -> (t: Tailer)
        ensures
            t.inode == inode,
            t.path == path,
            t.offset == offset,
            t.lines@ == Seq::<u8>::empty(),
    {
        Tailer { inode, path, offset, lines: LineAccumulator::new() }
    }

    /// Takes a chunk that was read at the read position. The complete lines
    /// come out in file order, and the offset advances by exactly the bytes
    /// they took, newlines included. A chunk of no bytes changes nothing.
    pub fn on_chunk(&mut self, chunk: &[u8]) -> (lines: Vec<Vec<u8>>)
        requires
            old(self).read_position() + chunk@.len() <= u64::MAX,
        ensures
            final(self).inode == old(self).inode,
            final(self).path == old(self).path,
            lines_view(lines@) == complete_lines(old(self).lines@ + chunk@),
            final(self).lines@ == remainder(old(self).lines@ + chunk@),
            final(self).read_position() == old(self).read_position() + chunk@.len(),
            final(self).offset >= old(self).offset,
            final(self).offset - old(self).offset == joined(lines_view(lines@)).len(),
    {
        let before: usize = self.lines.pending();
        let lines = self.lines.feed(chunk);
        let after: usize = self.lines.pending();
        proof {
            lemma_split_reassembles(old(self).lines@ + chunk@);
            assert((joined(lines_view(lines@)) + self.lines@).len() == before + chunk@.len());
        }
        let consumed: u64 = (before as u64) + (chunk.len() as u64) - (after as u64);
        self.offset = self.offset + consumed;
        lines
    }

    /// Compares the file's size with the offset. A file that is shorter than
    /// the offset was truncated: reading starts over at offset zero with
    /// nothing held. Returns whether that happened.
    pub fn check_truncation(&mut self, size: u64) -> (truncated: bool)
        ensures
            final(self).inode == old(self).inode,
            final(self).path == old(self).path,
            truncated == (size < old(self).offset),
            truncated ==> final(self).offset == 0 && final(self).lines@ == Seq::<u8>::empty(),
            !truncated ==> final(self).offset == old(self).offset && final(self).lines@ == old(
                self,
            ).lines@,
    {
        if size < self.offset {
            self.offset = 0;
            self.lines.reset();
            true
        } else {
            false
        }
    }

    /// Stops gracefully: a held partial line comes out as the last line, and
    /// the offset advances over it.
    pub fn drain(&mut self) -> (last: Option<Vec<u8>>)
        requires
            old(self).read_position() <= u64::MAX,
        ensures
            final(self).inode == old(self).inode,
            final(self).path == old(self).path,
            final(self).lines@ == Seq::<u8>::empty(),
            final(self).offset == old(self).read_position(),
            final(self).offset >= old(self).offset,
            last.is_some() <==> old(self).lines@.len() > 0,
            last.is_some() ==> last.unwrap()@ == old(self).lines@,
    {
        let held: usize = self.lines.pending();
        let last = self.lines.finish();
        self.offset = self.offset + (held as u64);
        last
    }
}

} // verus!
