//! The codec: the character encoding under which raw bytes are read as text.
//!
//! The encodings themselves belong to the `encoding` crate. A [`Codec`] names
//! one of them by a label of the WHATWG Encoding standard.

use vstd::prelude::*;
use vstd::pervasive::unreached;

verus! {

/// Whether `encoding::label::encoding_from_whatwg_label` finds an encoding
/// for `label`.
pub uninterp spec fn label_known(label: Seq<char>) -> bool;

/// What `encoding::Encoding::decode_to` does with `bytes` when it is called,
/// with `encoding::DecoderTrap::Replace`, on the encoding that `label` names:
/// whether it reports success, and the text that it writes.
pub uninterp spec fn decoded(label: Seq<char>, bytes: Seq<u8>) -> (bool, Seq<char>);

/// Calls `encoding::label::encoding_from_whatwg_label` and tells whether it
/// found an encoding. The lookup depends on the label alone.
#[verifier::external_body]
fn whatwg_label_known(label: &str) -> (known: bool)
    ensures
        known == label_known(label@),
{
    encoding::label::encoding_from_whatwg_label(label).is_some()
}

/// Looks `label` up with `encoding::label::encoding_from_whatwg_label` and,
/// where an encoding is found, calls its `encoding::Encoding::decode_to` on
/// `bytes` with `encoding::DecoderTrap::Replace`, writing into `out`.
///
/// Trusted: the call starts a fresh decoder, so what it reports and writes
/// depends on the label and the bytes alone; it only ever appends to `out`;
/// and for an unknown label nothing is called and `out` is left alone.
#[verifier::external_body]
fn decode_with_label(label: &str, bytes: &[u8], out: &mut String) -> (done: Option<bool>)
    ensures
        done is Some <==> label_known(label@),
        done matches Some(ok) ==> ok == decoded(label@, bytes@).0 && final(out)@ == old(out)@
            + decoded(label@, bytes@).1,
        done is None ==> final(out)@ == old(out)@,
{
    match encoding::label::encoding_from_whatwg_label(label) {
        Some(encoding) => Some(
            encoding.decode_to(bytes, encoding::DecoderTrap::Replace, out).is_ok(),
        ),
        None => None,
    }
}

/// A character encoding, named by a label that the `encoding` crate knows.
#[derive(Debug)]
pub struct Codec {
    label: String,
}

impl View for Codec {
    type V = Seq<char>;

    /// The label that names the encoding.
    closed spec fn view(&self) -> Seq<char> {
        self.label@
    }
}

impl Codec {
    #[verifier::type_invariant]
    spec fn well_formed(self) -> bool {
        label_known(self.label@)
    }

    /// The codec that `label` names, if it names one.
    pub fn from_label(label: &str) -> (codec: Option<Codec>)
        ensures
            codec is Some <==> label_known(label@),
            codec matches Some(c) ==> c@ == label@,
    {
        if whatwg_label_known(label) {
            Some(Codec { label: label.to_owned() })
        } else {
            None
        }
    }

    /// The label that this codec was made from.
    pub fn label(&self) -> (label: &str)
        ensures
            label@ == self@,
    {
        self.label.as_str()
    }

    /// Decodes `bytes` and appends the text to `out`, putting U+FFFD in
    /// place of each invalid sequence. Returns whether the codec got through;
    /// what it wrote before giving up stays in `out`.
    pub fn decode_to(&self, bytes: &[u8], out: &mut String) -> (ok: bool)
        ensures
            ok == decoded(self@, bytes@).0,
            final(out)@ == old(out)@ + decoded(self@, bytes@).1,
    {
        proof {
            use_type_invariant(self);
        }
        match decode_with_label(self.label.as_str(), bytes, out) {
            Some(ok) => ok,
            None => unreached(),
        }
    }
}

} // verus!
