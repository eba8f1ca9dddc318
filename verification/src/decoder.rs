//! From one raw line to text: the codec, the staging buffer, and the rule
//! that decides how a read ends.

use vstd::prelude::*;
use vstd::slice::slice_subrange;
use crate::codec::{decoded, Codec};
use crate::error::ReadError;

verus! {

/// The text that a raw line gives under the codec that `label` names. No
/// bytes give no text: the decoder is not run on an empty span.
pub open spec fn line_text(label: Seq<char>, raw: Seq<u8>) -> Seq<char> {
    if raw.len() == 0 {
        Seq::empty()
    } else {
        decoded(label, raw).1
    }
}

/// Whether the codec that `label` names gets through a raw line. A sequence
/// that is merely invalid is replaced in the text and stops nothing.
pub open spec fn line_accepted(label: Seq<char>, raw: Seq<u8>) -> bool {
    raw.len() == 0 || decoded(label, raw).0
}

/// How a read ends, given what the raw read reported and whether the codec
/// got through the bytes. A failure of the source comes first and is passed
/// on as it is; bytes that the codec gives up on make the read fail too.
pub open spec fn settled(read: Result<usize, std::io::Error>, accepted: bool) -> Result<
    usize,
    ReadError,
> {
    match read {
        Ok(n) => if accepted {
            Ok(n)
        } else {
            Err(ReadError::InvalidData)
        },
        Err(e) => Err(ReadError::Io(e)),
    }
}

/// What the raw read reported, from the bytes it brought and its failure.
pub open spec fn raw_read(raw: Seq<u8>, failure: Option<std::io::Error>) -> Result<
    usize,
    std::io::Error,
> {
    match failure {
        None => Ok(raw.len() as usize),
        Some(e) => Err(e),
    }
}

/// Decodes raw lines, one call for each, under a codec that can be changed
/// between calls.
///
/// The bytes of a line are staged before they are decoded. A read that ends
/// well clears the stage; one that fails leaves its bytes there, behind those
/// of the failures before it, so that none of what was read is lost. Staged
/// bytes are never decoded again: every call decodes the bytes that it is
/// given, and only those.
#[derive(Debug)]
pub struct LineDecoder {
    encoder: Codec,
    buf: Vec<u8>,
}

impl LineDecoder {
    /// The label of the active codec.
    pub closed spec fn codec(&self) -> Seq<char> {
        self.encoder@
    }

    /// The staged bytes.
    pub closed spec fn staged(&self) -> Seq<u8> {
        self.buf@
    }

    /// A decoder under `encoder`, with nothing staged.
    pub fn new(encoder: Codec) -> (decoder: Self)
        ensures
            decoder.codec() == encoder@,
            decoder.staged() == Seq::<u8>::empty(),
    {
        LineDecoder { encoder, buf: Vec::new() }
    }

    /// Like [`LineDecoder::new`], with room asked for `cap` staged bytes. The
    /// room changes how often the stage grows, and nothing else.
    pub fn with_capacity(cap: usize, encoder: Codec) -> (decoder: Self)
        ensures
            decoder.codec() == encoder@,
            decoder.staged() == Seq::<u8>::empty(),
    {
        let mut buf: Vec<u8> = Vec::new();
        let _ = buf.try_reserve(cap);
        LineDecoder { encoder, buf }
    }

    /// Makes `encoder` the codec of the calls that follow. What is staged
    /// stays as it is.
    pub fn set_encoder(&mut self, encoder: Codec)
        ensures
            final(self).codec() == encoder@,
            final(self).staged() == old(self).staged(),
    {
        self.encoder = encoder;
    }

    /// The active codec.
    pub fn encoder(&self) -> (encoder: &Codec)
        ensures
            encoder@ == self.codec(),
    {
        &self.encoder
    }

    /// The staged bytes: those of the reads that failed since the last one
    /// that ended well.
    pub fn staged_bytes(&self) -> (bytes: &[u8])
        ensures
            bytes@ == self.staged(),
    {
        self.buf.as_slice()
    }

    /// Ends a read, given what the raw read reported and whether the codec
    /// got through the bytes. The stage is cleared if the read ends well and
    /// left as it is otherwise.
    pub fn settle(&mut self, read: Result<usize, std::io::Error>, accepted: bool) -> (res: Result<
        usize,
        ReadError,
    >)
        ensures
            res == settled(read, accepted),
            final(self).codec() == old(self).codec(),
            final(self).staged() == if res is Ok {
                Seq::<u8>::empty()
            } else {
                old(self).staged()
            },
    {
        match read {
            Ok(n) => {
                if accepted {
                    self.buf.clear();
                    Ok(n)
                } else {
                    Err(ReadError::InvalidData)
                }
            },
            Err(e) => Err(ReadError::Io(e)),
        }
    }

    /// Takes the bytes that one raw read brought, with its failure if it
    /// failed, and appends their text to `out`.
    ///
    /// The bytes are staged and then decoded, with U+FFFD in place of each
    /// invalid sequence. If the read went well and the codec got through,
    /// the result is the number of raw bytes, which is zero only at the end
    /// of the stream, and the stage is cleared. Otherwise the result is the
    /// failure of the source, or else that of the codec, and the bytes stay
    /// staged. Whatever the codec wrote stays in `out`.
    pub fn accept(&mut self, raw: &[u8], failure: Option<std::io::Error>, out: &mut String) -> (res:
        Result<usize, ReadError>)
        ensures
            res == settled(raw_read(raw@, failure), line_accepted(old(self).codec(), raw@)),
            final(out)@ == old(out)@ + line_text(old(self).codec(), raw@),
            final(self).codec() == old(self).codec(),
            final(self).staged() == if res is Ok {
                Seq::<u8>::empty()
            } else {
                old(self).staged() + raw@
            },
    {
        let start = self.buf.len();
        self.buf.extend_from_slice(raw);
        let accepted = if raw.len() == 0 {
            true
        } else {
            let span = slice_subrange(self.buf.as_slice(), start, self.buf.len());
            assert(span@ == raw@);
            self.encoder.decode_to(span, out)
        };
        let read = match failure {
            None => Ok(raw.len()),
            Some(e) => Err(e),
        };
        self.settle(read, accepted)
    }
}

} // verus!
