//! Lower-case hexadecimal text of a byte string.
use vstd::prelude::*;

verus! {

/// The sixteen digits, in order of their value.
pub open spec fn hex_digits() -> Seq<char> {
    seq!['0', '1', '2', '3', '4', '5', '6', '7', '8', '9', 'a', 'b', 'c', 'd', 'e', 'f']
}

/// The text of `bytes`: two digits for each byte, the high half first.
pub open spec fn hex_string(bytes: Seq<u8>) -> Seq<char> {
    Seq::new(
        2 * bytes.len(),
        |i: int|
            if i % 2 == 0 {
                hex_digits()[bytes[i / 2] as int / 16]
            } else {
                hex_digits()[bytes[i / 2] as int % 16]
            },
    )
}

/// Calls `hex::encode`. Trusted: the result is the lower-case text of
/// `bytes`, two digits for each byte and the high half first.
#[verifier::external_body]
pub(crate) fn encode_hex(bytes: &Vec<u8>) -> (text: String)
    ensures
        text@ == hex_string(bytes@),
{
    hex::encode(bytes)
}

} // verus!
