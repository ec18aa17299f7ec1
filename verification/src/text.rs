//! Text decoding shared by the stream adapter and the input distributor,
//! and the character classes of the terminal escape convention.
use vstd::prelude::*;

verus! {

/// Relies on core::str::from_utf8: it succeeds exactly on well-formed UTF-8
/// and yields the characters those bytes encode.
#[verifier::external_body]
pub(crate) fn decode_text(bytes: &[u8]) -> (r: Option<String>)
    ensures
        r is Some <==> vstd::utf8::valid_utf8(bytes@),
        r matches Some(s) ==> s@ == vstd::utf8::decode_utf8(bytes@),
{
    match core::str::from_utf8(bytes) {
        Ok(s) => Some(s.to_owned()),
        Err(_) => None,
    }
}

/// The escape introducer.
pub open spec fn is_esc(c: char) -> bool {
    c as u32 == 27
}

/// A decimal digit of a size-report dimension.
pub open spec fn is_ascii_digit_char(c: char) -> bool {
    48 <= c as u32 <= 57
}

/// The value of a decimal digit.
pub open spec fn digit_val(c: char) -> u32 {
    (c as u32 - 48) as u32
}

/// A byte that terminates a control-sequence run (the final-byte range of
/// the escape convention; the size report's terminator lies in it).
pub open spec fn is_csi_final(c: char) -> bool {
    0x40 <= c as u32 <= 0x7E
}

} // verus!
