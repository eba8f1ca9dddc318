//! The lines of a reader, one at a time, without their line ends.

use vstd::prelude::*;
use vstd::string::{StrSliceExecFns, StringExecFns};
use crate::codec::decoded;
use crate::decoder::{line_accepted, line_text};
use crate::error::ReadError;
use crate::reader::{BufReaderEncoding, ReaderState, NEWLINE};
use crate::source::{
    after_first_line, first_line, lemma_line_len, lemma_split_lines, split_lines,
};

verus! {

/// A line without its end: without the line feed that it ends with, if it
/// ends with one, and then without the carriage return before that, if
/// there is one.
pub open spec fn stripped(text: Seq<char>) -> Seq<char> {
    if text.len() > 0 && text.last() == '\n' {
        let body = text.drop_last();
        if body.len() > 0 && body.last() == '\r' {
            body.drop_last()
        } else {
            body
        }
    } else {
        text
    }
}

/// The end of a line: what [`stripped`] takes off.
pub open spec fn line_end(text: Seq<char>) -> Seq<char> {
    text.skip(stripped(text).len() as int)
}

/// The lines, with `newline` between each two of them.
pub open spec fn joined(lines: Seq<Seq<char>>, newline: Seq<char>) -> Seq<char>
    decreases lines.len(),
{
    if lines.len() == 0 {
        Seq::empty()
    } else if lines.len() == 1 {
        lines[0]
    } else {
        lines[0] + newline + joined(lines.drop_first(), newline)
    }
}

/// What a raw line comes out as: its text without the line end, or the
/// failure of the codec.
pub open spec fn line_item(label: Seq<char>, raw: Seq<u8>) -> Result<Seq<char>, ReadError> {
    if line_accepted(label, raw) {
        Ok(stripped(line_text(label, raw)))
    } else {
        Err(ReadError::InvalidData)
    }
}

/// The next item of the lines of a reader.
pub open spec fn next_item(s: ReaderState) -> Option<Result<Seq<char>, ReadError>> {
    if s.at_end() {
        None
    } else {
        Some(line_item(s.codec, s.next_line()))
    }
}

/// All the items of the lines of a stream, read under one codec: one for
/// each raw line.
pub open spec fn all_items(label: Seq<char>, bytes: Seq<u8>) -> Seq<
    Result<Seq<char>, ReadError>,
> {
    split_lines(bytes, NEWLINE).map_values(|raw: Seq<u8>| line_item(label, raw))
}

/// The texts of the raw lines of a stream, line ends included.
pub open spec fn all_texts(label: Seq<char>, bytes: Seq<u8>) -> Seq<Seq<char>> {
    split_lines(bytes, NEWLINE).map_values(|raw: Seq<u8>| line_text(label, raw))
}

/// The lines of a stream as they come out where the codec gives up on none:
/// the texts of the raw lines, each without its line end.
pub open spec fn all_lines(label: Seq<char>, bytes: Seq<u8>) -> Seq<Seq<char>> {
    split_lines(bytes, NEWLINE).map_values(|raw: Seq<u8>| stripped(line_text(label, raw)))
}

/// An item by its text.
pub open spec fn item_view(item: Result<String, ReadError>) -> Result<Seq<char>, ReadError> {
    match item {
        Ok(line) => Ok(line@),
        Err(e) => Err(e),
    }
}

/// An item that may be missing, by its text.
pub open spec fn next_view(item: Option<Result<String, ReadError>>) -> Option<
    Result<Seq<char>, ReadError>,
> {
    match item {
        Some(res) => Some(item_view(res)),
        None => None,
    }
}

/// Takes the line end off `text`: see [`stripped`].
pub fn strip_line_end(text: String) -> (line: String)
    ensures
        line@ == stripped(text@),
{
    let whole = text.as_str();
    let n = whole.unicode_len();
    if n > 0 && whole.get_char(n - 1) == '\n' {
        let m = if n > 1 && whole.get_char(n - 2) == '\r' {
            n - 2
        } else {
            n - 1
        };
        String::from_str(whole.substring_char(0, m))
    } else {
        text
    }
}

/// What reading a line comes out as: nothing if no byte was read, which is
/// the end of the stream; else the text without its line end, or the
/// failure of the read.
pub open spec fn line_outcome(read: Result<usize, ReadError>, text: Seq<char>) -> Option<
    Result<Seq<char>, ReadError>,
> {
    match read {
        Ok(n) => if n == 0 {
            None
        } else {
            Some(Ok(stripped(text)))
        },
        Err(e) => Some(Err(e)),
    }
}

/// Makes the item of a line from what reading the line returned and the
/// text that it gave: see [`line_outcome`].
pub fn line_from(read: Result<usize, ReadError>, text: String) -> (item: Option<
    Result<String, ReadError>,
>)
    ensures
        next_view(item) == line_outcome(read, text@),
{
    match read {
        Ok(n) => {
            if n == 0 {
                None
            } else {
                Some(Ok(strip_line_end(text)))
            }
        },
        Err(e) => Some(Err(e)),
    }
}

/// The lines of a reader. The reader is owned: lines come out in the order
/// of the stream, each once, and there is no way back.
#[derive(Debug)]
pub struct Lines<'a> {
    buf: BufReaderEncoding<'a>,
}

impl<'a> View for Lines<'a> {
    type V = ReaderState;

    /// The reader that the lines are read from.
    closed spec fn view(&self) -> ReaderState {
        self.buf@
    }
}

impl<'a> Lines<'a> {
    /// The lines of `reader`.
    pub fn new(reader: BufReaderEncoding<'a>) -> (lines: Self)
        ensures
            lines@ == reader@,
    {
        Lines { buf: reader }
    }

    /// The next line, or `None` at the end of the stream, and at every call
    /// after that.
    ///
    /// A line that the codec gives up on comes out as an error; the lines
    /// behind it can still be read.
    pub fn next(&mut self) -> (item: Option<Result<String, ReadError>>)
        ensures
            next_view(item) == next_item(old(self)@),
            final(self)@ == old(self)@.after_read_line(),
            old(self)@.at_end() ==> final(self)@.at_end(),
    {
        let mut buf = String::new();
        let read = self.buf.read_line(&mut buf);
        line_from(read, buf)
    }

    /// All the lines that are left, in the order of the stream.
    pub fn read_all(&mut self) -> (items: Vec<Result<String, ReadError>>)
        ensures
            items@.map_values(|item: Result<String, ReadError>| item_view(item)) == all_items(
                old(self)@.codec,
                old(self)@.pending,
            ),
            items@.len() == split_lines(old(self)@.pending, NEWLINE).len(),
            final(self)@.at_end(),
            final(self)@.codec == old(self)@.codec,
    {
        let mut items: Vec<Result<String, ReadError>> = Vec::new();
        let ghost label = self@.codec;
        let ghost by_text = |item: Result<String, ReadError>| item_view(item);
        loop
            invariant
                self@.codec == label,
                by_text == |item: Result<String, ReadError>| item_view(item),
                items@.map_values(by_text) + all_items(label, self@.pending) == all_items(
                    label,
                    old(self)@.pending,
                ),
            ensures
                self@.at_end(),
                self@.codec == label,
                items@.map_values(by_text) == all_items(label, old(self)@.pending),
                items@.len() == items@.map_values(by_text).len(),
            decreases self@.pending.len(),
        {
            let ghost done = items@.map_values(by_text);
            proof {
                lemma_all_items_unfold(label, self@.pending);
                lemma_line_len(self@.pending, NEWLINE);
            }
            match self.next() {
                Some(item) => {
                    items.push(item);
                    proof {
                        let rest = all_items(label, self@.pending);
                        assert(done.push(item_view(item)) + rest == done + (seq![item_view(item)]
                            + rest));
                    }
                },
                None => {
                    break ;
                },
            }
        }
        items
    }
}

/// The items of a stream are the item of its first raw line and then the
/// items of what is left behind that line: what [`Lines::next`] yields call
/// after call.
pub proof fn lemma_all_items_unfold(label: Seq<char>, bytes: Seq<u8>)
    ensures
        bytes.len() == 0 ==> all_items(label, bytes) == Seq::<
            Result<Seq<char>, ReadError>,
        >::empty(),
        bytes.len() > 0 ==> all_items(label, bytes) == seq![
            line_item(label, first_line(bytes, NEWLINE)),
        ] + all_items(label, after_first_line(bytes, NEWLINE)),
{
}

/// At the end of the stream there is no next item, and the stream stays at
/// its end: the lines yield nothing more, at this call and at every call
/// after it, and none of those calls fails.
pub proof fn lemma_no_items_after_end(s: ReaderState, n: nat)
    requires
        s.at_end(),
    ensures
        next_item(s.after_read_lines(n)) is None,
        all_items(s.codec, s.pending).len() == 0,
    decreases n,
{
    lemma_line_len(s.pending, NEWLINE);
    if n > 0 {
        lemma_no_items_after_end(s.after_read_line(), (n - 1) as nat);
    }
}

/// A text is its stripped line followed by its line end, and the line end
/// is nothing, a line feed, or a carriage return and a line feed.
pub proof fn lemma_stripped_and_line_end(text: Seq<char>)
    ensures
        stripped(text) + line_end(text) == text,
        line_end(text) == Seq::<char>::empty() || line_end(text) == seq!['\n'] || line_end(text)
            == seq!['\r', '\n'],
{
}

/// Texts that each end in `newline`, but for the last, which may end in any
/// way: stripped and joined with `newline`, they are the texts put end to
/// end, less the line end of the last.
pub proof fn lemma_rejoin(texts: Seq<Seq<char>>, newline: Seq<char>)
    requires
        texts.len() > 0,
        forall|i: int| 0 <= i < texts.len() - 1 ==> line_end(#[trigger] texts[i]) == newline,
    ensures
        joined(texts.map_values(|t: Seq<char>| stripped(t)), newline) + line_end(texts.last())
            == texts.flatten(),
    decreases texts.len(),
{
    let lines = texts.map_values(|t: Seq<char>| stripped(t));
    let rest = texts.drop_first();
    lemma_stripped_and_line_end(texts[0]);
    if texts.len() == 1 {
        assert(rest.flatten() == Seq::<char>::empty());
    } else {
        lemma_rejoin(rest, newline);
        assert(lines.drop_first() == rest.map_values(|t: Seq<char>| stripped(t)));
    }
}

/// Splitting a stream into lines and joining the lines again gives the text
/// of the stream back, less the end of its last line.
///
/// This holds of a stream that the codec reads as a whole just as it reads
/// its raw lines one by one, none of which it gives up on, and whose lines
/// all end in `newline`: a line feed, or a carriage return and a line feed.
/// Every item of such a stream is a line, and the lines are the texts of
/// the raw lines without their line ends.
pub proof fn lemma_lines_rejoin(label: Seq<char>, bytes: Seq<u8>, newline: Seq<char>)
    requires
        bytes.len() > 0,
        newline == seq!['\n'] || newline == seq!['\r', '\n'],
        forall|i: int|
            0 <= i < split_lines(bytes, NEWLINE).len() ==> line_accepted(
                label,
                #[trigger] split_lines(bytes, NEWLINE)[i],
            ),
        forall|i: int|
            0 <= i < split_lines(bytes, NEWLINE).len() - 1 ==> line_end(
                line_text(label, #[trigger] split_lines(bytes, NEWLINE)[i]),
            ) == newline,
        decoded(label, bytes).1 == all_texts(label, bytes).flatten(),
    ensures
        all_items(label, bytes) == all_lines(label, bytes).map_values(
            |line: Seq<char>| Ok::<Seq<char>, ReadError>(line),
        ),
        joined(all_lines(label, bytes), newline) + line_end(all_texts(label, bytes).last())
            == decoded(label, bytes).1,
{
    lemma_split_lines(bytes, NEWLINE);
    lemma_rejoin(all_texts(label, bytes), newline);
    assert(all_lines(label, bytes) == all_texts(label, bytes).map_values(
        |t: Seq<char>| stripped(t),
    ));
}

} // verus!
