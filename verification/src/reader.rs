//! The buffered reader: a byte source and a line decoder, joined.

use vstd::prelude::*;
use crate::codec::Codec;
use crate::decoder::{line_accepted, line_text, LineDecoder};
use crate::error::ReadError;
use crate::lines::Lines;
use crate::source::{after_first_line, first_line, lemma_line_len, ByteSource};

verus! {

/// The byte at which raw lines end.
pub const NEWLINE: u8 = 0x0A;

/// A reader as its callers see it.
pub struct ReaderState {
    /// The label of the active codec.
    pub codec: Seq<char>,
    /// The bytes of the stream that have not been consumed yet.
    pub pending: Seq<u8>,
    /// The staged bytes: those of the lines that the codec gave up on since
    /// the last line that it got through.
    pub staged: Seq<u8>,
}

impl ReaderState {
    /// Whether the stream is at its end.
    pub open spec fn at_end(self) -> bool {
        self.pending.len() == 0
    }

    /// The next raw line: the pending bytes up to and including the first
    /// newline byte, or all of them where there is none.
    pub open spec fn next_line(self) -> Seq<u8> {
        first_line(self.pending, NEWLINE)
    }

    /// The text that reading a line appends.
    pub open spec fn read_line_text(self) -> Seq<char> {
        line_text(self.codec, self.next_line())
    }

    /// What reading a line returns: the length of the raw line in bytes, or
    /// the failure of the codec.
    pub open spec fn read_line_result(self) -> Result<usize, ReadError> {
        if line_accepted(self.codec, self.next_line()) {
            Ok(self.next_line().len() as usize)
        } else {
            Err(ReadError::InvalidData)
        }
    }

    /// The reader after a line was read: the raw line is consumed, and it is
    /// staged if the codec gave up on it.
    pub open spec fn after_read_line(self) -> ReaderState {
        ReaderState {
            codec: self.codec,
            pending: after_first_line(self.pending, NEWLINE),
            staged: if line_accepted(self.codec, self.next_line()) {
                Seq::empty()
            } else {
                self.staged + self.next_line()
            },
        }
    }

    /// The reader after `n` lines were read.
    pub open spec fn after_read_lines(self, n: nat) -> ReaderState
        decreases n,
    {
        if n == 0 {
            self
        } else {
            self.after_read_line().after_read_lines((n - 1) as nat)
        }
    }

    /// The reader under another codec.
    pub open spec fn with_codec(self, label: Seq<char>) -> ReaderState {
        ReaderState { codec: label, pending: self.pending, staged: self.staged }
    }

    /// The reader with other bytes pending.
    pub open spec fn with_pending(self, pending: Seq<u8>) -> ReaderState {
        ReaderState { codec: self.codec, pending, staged: self.staged }
    }
}

/// A buffered reader of encoded text, over bytes in memory.
///
/// It is a buffered byte source itself, through `fill_buf`, `consume` and
/// `read`, and on top of that reads one decoded line at a time.
#[derive(Debug)]
pub struct BufReaderEncoding<'a> {
    decoder: LineDecoder,
    inner: ByteSource<'a>,
}

impl<'a> View for BufReaderEncoding<'a> {
    type V = ReaderState;

    closed spec fn view(&self) -> ReaderState {
        ReaderState {
            codec: self.decoder.codec(),
            pending: self.inner@,
            staged: self.decoder.staged(),
        }
    }
}

impl<'a> BufReaderEncoding<'a> {
    /// A reader of `inner` under `encoder`.
    pub fn new(inner: &'a [u8], encoder: Codec) -> (reader: Self)
        ensures
            reader@ == (ReaderState { codec: encoder@, pending: inner@, staged: Seq::empty() }),
    {
        BufReaderEncoding { decoder: LineDecoder::new(encoder), inner: ByteSource::new(inner) }
    }

    /// Like [`BufReaderEncoding::new`], with room asked for `cap` bytes in
    /// the internal buffer. The size changes how the reader uses memory, not
    /// what it reads.
    pub fn with_capacity(cap: usize, inner: &'a [u8], encoder: Codec) -> (reader: Self)
        ensures
            reader@ == (ReaderState { codec: encoder@, pending: inner@, staged: Seq::empty() }),
    {
        BufReaderEncoding {
            decoder: LineDecoder::with_capacity(cap, encoder),
            inner: ByteSource::new(inner),
        }
    }

    fn append_to_string(&mut self, buf: &mut String) -> (res: Result<usize, ReadError>)
        ensures
            res == old(self)@.read_line_result(),
            res matches Ok(n) ==> n == old(self)@.next_line().len(),
            final(buf)@ == old(buf)@ + old(self)@.read_line_text(),
            final(self)@ == old(self)@.after_read_line(),
    {
        let mut raw: Vec<u8> = Vec::new();
        let _ = self.inner.read_until(NEWLINE, &mut raw);
        proof {
            lemma_line_len(old(self)@.pending, NEWLINE);
        }
        self.decoder.accept(raw.as_slice(), None, buf)
    }

    /// Returns the lines of this reader, one for each call of
    /// [`Lines::next`], each without the newline, or the carriage return and
    /// newline, at its end.
    pub fn lines(self) -> (lines: Lines<'a>)
        ensures
            lines@ == self@,
    {
        Lines::new(self)
    }

    /// Reads the next raw line, up to and including the newline byte or up
    /// to the end of the stream, and appends its text to `buf`.
    ///
    /// The result is the number of raw bytes read, not that of the
    /// characters appended. It is zero exactly at the end of the stream, and
    /// nothing is appended then. Invalid sequences come out as U+FFFD; if
    /// the codec gives up on the line the result is
    /// [`ReadError::InvalidData`], the bytes of the line are consumed all
    /// the same, and they are kept staged.
    pub fn read_line(&mut self, buf: &mut String) -> (res: Result<usize, ReadError>)
        ensures
            res == old(self)@.read_line_result(),
            res == Ok::<usize, ReadError>(0) <==> old(self)@.at_end(),
            res matches Ok(n) ==> n == old(self)@.pending.len() - final(self)@.pending.len(),
            old(self)@.at_end() ==> final(self)@.at_end(),
            final(buf)@ == old(buf)@ + old(self)@.read_line_text(),
            final(self)@ == old(self)@.after_read_line(),
    {
        proof {
            lemma_line_len(self@.pending, NEWLINE);
        }
        self.append_to_string(buf)
    }

    /// Makes `encoder` the codec of the lines read from now on. Text
    /// already decoded, and bytes already staged, are not touched.
    pub fn set_encoder(&mut self, encoder: Codec)
        ensures
            final(self)@ == old(self)@.with_codec(encoder@),
    {
        self.decoder.set_encoder(encoder);
    }

    /// The buffered bytes, none of them consumed by the peek. They are empty
    /// only at the end of the stream.
    pub fn fill_buf(&self) -> (buffered: &[u8])
        ensures
            buffered@ == self@.pending,
    {
        self.inner.fill_buf()
    }

    /// Marks `amt` of the buffered bytes as consumed, or all of them where
    /// there are fewer.
    pub fn consume(&mut self, amt: usize)
        ensures
            final(self)@ == old(self)@.with_pending(
                if amt <= old(self)@.pending.len() {
                    old(self)@.pending.skip(amt as int)
                } else {
                    Seq::empty()
                },
            ),
    {
        self.inner.consume(amt);
    }

    /// Moves bytes from the front of the stream into the front of `buf`,
    /// undecoded: as many as `buf` holds, or all that are left where those
    /// are fewer. The rest of `buf` is untouched. Returns how many bytes
    /// were moved.
    pub fn read(&mut self, buf: &mut [u8]) -> (n: usize)
        ensures
            n == if old(buf)@.len() <= old(self)@.pending.len() {
                old(buf)@.len()
            } else {
                old(self)@.pending.len()
            },
            final(buf)@ == old(self)@.pending.take(n as int) + old(buf)@.skip(n as int),
            final(self)@ == old(self)@.with_pending(old(self)@.pending.skip(n as int)),
    {
        self.inner.read(buf)
    }

    /// The active codec.
    pub fn encoder(&self) -> (encoder: &Codec)
        ensures
            encoder@ == self@.codec,
    {
        self.decoder.encoder()
    }

    /// The staged bytes.
    pub fn staged_bytes(&self) -> (bytes: &[u8])
        ensures
            bytes@ == self@.staged,
    {
        self.decoder.staged_bytes()
    }
}

/// At the end of the stream a read returns zero and appends nothing, and
/// the stream stays at its end: so it goes for every read that follows,
/// however many there are.
pub proof fn lemma_end_of_stream_is_final(s: ReaderState, n: nat)
    requires
        s.at_end(),
    ensures
        s.after_read_lines(n).at_end(),
        s.after_read_lines(n).read_line_result() == Ok::<usize, ReadError>(0),
        s.after_read_lines(n).read_line_text() == Seq::<char>::empty(),
    decreases n,
{
    lemma_line_len(s.pending, NEWLINE);
    if n > 0 {
        lemma_end_of_stream_is_final(s.after_read_line(), (n - 1) as nat);
    }
}

/// A read returns zero only at the end of the stream.
pub proof fn lemma_zero_only_at_end(s: ReaderState)
    requires
        s.pending.len() <= usize::MAX,
    ensures
        s.read_line_result() == Ok::<usize, ReadError>(0) <==> s.at_end(),
{
    lemma_line_len(s.pending, NEWLINE);
}

/// A change of codec between two reads bears on the second read alone.
///
/// The first line is read under the first codec, whatever the second is,
/// and its text stands as it was appended. The change moves nothing in the
/// stream and touches nothing that is staged. The second read takes the raw
/// line that it would have taken without the change, and reads it under
/// the second codec.
pub proof fn lemma_codec_change_is_not_retroactive(
    s: ReaderState,
    label: Seq<char>,
    text: Seq<char>,
)
    ensures
        ({
            let first = s.after_read_line();
            let changed = first.with_codec(label);
            let text_first = text + s.read_line_text();
            let text_second = text_first + changed.read_line_text();
            &&& text_first == text + line_text(s.codec, s.next_line())
            &&& text_second.take(text_first.len() as int) == text_first
            &&& text_second == text_first + line_text(label, first.next_line())
            &&& changed.pending == first.pending
            &&& changed.staged == first.staged
        }),
{
}

} // verus!
