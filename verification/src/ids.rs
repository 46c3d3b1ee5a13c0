//! Fresh identifiers for users and calls.

use vstd::prelude::*;

verus! {

/// Number of characters of an identifier.
pub const ID_LENGTH: usize = 36;

/// Whether `c` is a digit of lower-case hexadecimal.
pub open spec fn is_hex_digit(c: char) -> bool {
    ('0' as u32 <= c as u32 <= '9' as u32) || ('a' as u32 <= c as u32 <= 'f' as u32)
}

/// Whether `text` has the form of an identifier: 32 digits of lower-case
/// hexadecimal in groups of 8, 4, 4, 4 and 12 with a hyphen between them.
pub open spec fn is_id_text(text: Seq<char>) -> bool {
    &&& text.len() == ID_LENGTH
    &&& forall|i: int|
        0 <= i < text.len() ==> if i == 8 || i == 13 || i == 18 || i == 23 {
            #[trigger] text[i] == '-'
        } else {
            is_hex_digit(text[i])
        }
}

/// A random identifier.
///
/// Calls `uuid::Uuid::new_v4` and writes the result with `to_string`. Not
/// proved, but taken from that crate: the text is the hyphenated lower-case
/// form, 36 characters with the hyphens after the groups of 8, 4, 4 and 4
/// digits. Nothing is claimed of which identifier comes out, nor that two
/// calls give different ones. The call does not return if the operating
/// system gives no random bytes.
#[verifier::external_body]
pub(crate) fn fresh_id() -> (id: String)
    ensures
        is_id_text(id@),
{
    uuid::Uuid::new_v4().to_string()
}

} // verus!
