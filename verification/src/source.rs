//! A buffered byte source over bytes held in memory.
//!
//! All the bytes that have not been consumed yet count as buffered: a peek
//! shows them all, and a read up to a delimiter never has to refill.

use vstd::prelude::*;

verus! {

/// The length of the front of `bytes` that a read up to `delim` takes: up to
/// and including the first `delim`, or all of `bytes` where there is none.
pub open spec fn line_len(bytes: Seq<u8>, delim: u8) -> nat {
    match bytes.index_of_first(delim) {
        Some(i) => (i + 1) as nat,
        None => bytes.len(),
    }
}

/// The front of `bytes` that a read up to `delim` takes.
pub open spec fn first_line(bytes: Seq<u8>, delim: u8) -> Seq<u8> {
    bytes.take(line_len(bytes, delim) as int)
}

/// What a read up to `delim` leaves of `bytes`.
pub open spec fn after_first_line(bytes: Seq<u8>, delim: u8) -> Seq<u8> {
    bytes.skip(line_len(bytes, delim) as int)
}

/// `line_len` by what it means: it is within `bytes`, it is zero only for no
/// bytes, no `delim` stands before its last place, and it stops short of the
/// end only behind a `delim`.
pub proof fn lemma_line_len(bytes: Seq<u8>, delim: u8)
    ensures
        line_len(bytes, delim) <= bytes.len(),
        line_len(bytes, delim) == 0 <==> bytes.len() == 0,
        forall|j: int| 0 <= j < line_len(bytes, delim) - 1 ==> bytes[j] != delim,
        line_len(bytes, delim) < bytes.len() ==> bytes[line_len(bytes, delim) - 1] == delim,
{
    bytes.index_of_first_ensures(delim);
}

/// `line_len` is the only length of which all that holds.
pub proof fn lemma_line_len_unique(bytes: Seq<u8>, delim: u8, n: int)
    requires
        0 <= n <= bytes.len(),
        n == 0 ==> bytes.len() == 0,
        forall|j: int| 0 <= j < n - 1 ==> bytes[j] != delim,
        n < bytes.len() ==> bytes[n - 1] == delim,
    ensures
        n == line_len(bytes, delim),
{
    bytes.index_of_first_ensures(delim);
}

/// The raw lines of `bytes`: what reads up to `delim` take, one after
/// another, until nothing is left.
pub open spec fn split_lines(bytes: Seq<u8>, delim: u8) -> Seq<Seq<u8>>
    decreases bytes.len(),
    via split_lines_decreases
{
    if bytes.len() == 0 {
        Seq::empty()
    } else {
        seq![first_line(bytes, delim)] + split_lines(after_first_line(bytes, delim), delim)
    }
}

#[via_fn]
proof fn split_lines_decreases(bytes: Seq<u8>, delim: u8) {
    lemma_line_len(bytes, delim);
}

/// Splitting loses nothing and invents nothing: the raw lines, put end to
/// end, are the bytes they were split from. No raw line is empty, `delim`
/// stands nowhere in a line but at its end, and it does stand at the end of
/// every line but, perhaps, the last.
pub proof fn lemma_split_lines(bytes: Seq<u8>, delim: u8)
    ensures
        split_lines(bytes, delim).flatten() == bytes,
        split_lines(bytes, delim).len() == 0 <==> bytes.len() == 0,
        forall|i: int|
            0 <= i < split_lines(bytes, delim).len() ==> (#[trigger] split_lines(
                bytes,
                delim,
            )[i]).len() > 0,
        forall|i: int, j: int|
            0 <= i < split_lines(bytes, delim).len() && 0 <= j < split_lines(bytes, delim)[i].len()
                - 1 ==> #[trigger] split_lines(bytes, delim)[i][j] != delim,
        forall|i: int|
            0 <= i < split_lines(bytes, delim).len() - 1 ==> (#[trigger] split_lines(
                bytes,
                delim,
            )[i]).last() == delim,
    decreases bytes.len(),
{
    lemma_line_len(bytes, delim);
    if bytes.len() > 0 {
        let rest = after_first_line(bytes, delim);
        lemma_split_lines(rest, delim);
        assert(split_lines(bytes, delim).drop_first() == split_lines(rest, delim));
    }
}

/// Bytes in memory, with a mark behind those already consumed.
#[derive(Debug)]
pub struct ByteSource<'a> {
    data: &'a [u8],
    pos: usize,
}

impl<'a> View for ByteSource<'a> {
    type V = Seq<u8>;

    /// The bytes not consumed yet.
    closed spec fn view(&self) -> Seq<u8> {
        self.data@.skip(self.pos as int)
    }
}

impl<'a> ByteSource<'a> {
    #[verifier::type_invariant]
    spec fn well_formed(self) -> bool {
        self.pos <= self.data@.len()
    }

    /// A source that will hand out `data` from its start.
    pub fn new(data: &'a [u8]) -> (source: Self)
        ensures
            source@ == data@,
    {
        ByteSource { data, pos: 0 }
    }

    /// The buffered bytes, none of them consumed by the peek. They are empty
    /// only at the end of the stream.
    pub fn fill_buf(&self) -> (buffered: &[u8])
        ensures
            buffered@ == self@,
    {
        proof {
            use_type_invariant(self);
        }
        vstd::slice::slice_subrange(self.data, self.pos, self.data.len())
    }

    /// Marks `amt` of the buffered bytes as consumed, or all of them where
    /// there are fewer.
    pub fn consume(&mut self, amt: usize)
        ensures
            amt <= old(self)@.len() ==> final(self)@ == old(self)@.skip(amt as int),
            amt > old(self)@.len() ==> final(self)@ == Seq::<u8>::empty(),
    {
        proof {
            use_type_invariant(&*self);
        }
        let left = self.data.len() - self.pos;
        if amt < left {
            self.pos = self.pos + amt;
        } else {
            self.pos = self.data.len();
        }
    }

    /// Moves bytes from the front of the stream into the front of `buf`: as
    /// many as `buf` holds, or all that are left where those are fewer. The
    /// rest of `buf` is untouched. Returns how many bytes were moved.
    pub fn read(&mut self, buf: &mut [u8]) -> (n: usize)
        ensures
            n == if old(buf)@.len() <= old(self)@.len() {
                old(buf)@.len()
            } else {
                old(self)@.len()
            },
            final(buf)@ == old(self)@.take(n as int) + old(buf)@.skip(n as int),
            final(self)@ == old(self)@.skip(n as int),
    {
        proof {
            use_type_invariant(&*self);
        }
        let base = self.pos;
        let end = self.data.len();
        let left = end - base;
        let n = if buf.len() <= left { buf.len() } else { left };
        let mut i: usize = 0;
        while i < n
            invariant
                i <= n,
                n <= buf@.len(),
                base + n <= end,
                end == self.data@.len(),
                self.pos == base,
                self.data == old(self).data,
                buf@.len() == old(buf)@.len(),
                forall|j: int| 0 <= j < i ==> buf@[j] == self.data@[base + j],
                forall|j: int| i <= j < buf@.len() ==> buf@[j] == old(buf)@[j],
            decreases n - i,
        {
            buf[i] = self.data[base + i];
            i = i + 1;
        }
        self.pos = base + n;
        n
    }

    /// Moves bytes from the front of the stream to the end of `buf`, up to
    /// and including the first `delim`, or all that are left where there is
    /// none. Returns how many bytes were moved: zero only at the end of the
    /// stream.
    pub fn read_until(&mut self, delim: u8, buf: &mut Vec<u8>) -> (n: usize)
        ensures
            n == line_len(old(self)@, delim),
            final(buf)@ == old(buf)@ + first_line(old(self)@, delim),
            final(self)@ == after_first_line(old(self)@, delim),
    {
        proof {
            use_type_invariant(&*self);
        }
        let start = self.pos;
        let end = self.data.len();
        let mut i: usize = start;
        let mut found = false;
        while i < end && !found
            invariant
                start <= i <= end,
                end == self.data@.len(),
                self.pos == start,
                self.data == old(self).data,
                buf@ == old(buf)@ + self.data@.subrange(start as int, i as int),
                forall|j: int| start <= j < i - 1 ==> self.data@[j] != delim,
                found ==> i > start && self.data@[i - 1] == delim,
                !found && i > start ==> self.data@[i - 1] != delim,
            decreases end - i,
        {
            let b = self.data[i];
            buf.push(b);
            found = b == delim;
            i = i + 1;
        }
        self.pos = i;
        proof {
            lemma_line_len_unique(old(self)@, delim, i - start);
        }
        i - start
    }
}

} // verus!
