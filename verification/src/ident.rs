//! Session and collector-instance identifiers.

use vstd::prelude::*;

use crate::text;

verus! {

/// A universally unique identifier, as its sixteen bytes.
#[derive(Debug, Clone, Copy, PartialEq, Eq)]
pub struct Uuid {
    pub bytes: [u8; 16],
}

impl View for Uuid {
    type V = Seq<u8>;

    open spec fn view(&self) -> Seq<u8> {
        self.bytes@
    }
}

/// Lower-case hexadecimal digits in groups of eight, four, four, four and twelve.
pub open spec fn hyphenated_text(bytes: Seq<u8>) -> Seq<char> {
    text::hex_of(bytes.subrange(0, 4)) + seq!['-'] + text::hex_of(bytes.subrange(4, 6)) + seq!['-'] + text::hex_of(
        bytes.subrange(6, 8),
    ) + seq!['-'] + text::hex_of(bytes.subrange(8, 10)) + seq!['-'] + text::hex_of(bytes.subrange(10, 16))
}

/// The text that `uuid::Uuid::hyphenated` displays for the given bytes: their lower-case
/// hexadecimal digits, hyphenated.
#[verifier::external_body]
fn hyphenated(bytes: &[u8; 16]) -> (r: String)
    ensures
        r@ == hyphenated_text(bytes@),
{
    uuid::Uuid::from_bytes(*bytes).hyphenated().to_string()
}

impl Uuid {
    /// The text on the wire.
    pub fn to_text(&self) -> (r: String)
        ensures
            r@ == hyphenated_text(self@),
    {
        hyphenated(&self.bytes)
    }
}

} // verus!
