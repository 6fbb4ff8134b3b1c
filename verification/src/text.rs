//! Text that the engine hands over.
use vstd::prelude::*;

verus! {

/// The character with the codepoint `value`, if there is one.
///
/// This is `char::from_u32`, which returns `None` if its argument is not a valid `char`, that is,
/// not a Unicode scalar value.
#[verifier::external_body]
pub(crate) fn char_from_u32(value: u32) -> (res: Option<char>)
    ensures
        match res {
            Some(c) => vstd::utf8::is_scalar(value) && c as u32 == value,
            None => !vstd::utf8::is_scalar(value),
        },
{
    char::from_u32(value)
}

/// The string with the UTF-8 bytes `bytes`, if they are valid.
///
/// This is `String::from_utf8`, which returns an error if the bytes are not UTF-8.
#[verifier::external_body]
pub(crate) fn string_from_utf8(bytes: Vec<u8>) -> (res: Option<String>)
    ensures
        match res {
            Some(text) => vstd::utf8::valid_utf8(bytes@) && text@ == vstd::utf8::decode_utf8(
                bytes@,
            ),
            None => !vstd::utf8::valid_utf8(bytes@),
        },
{
    String::from_utf8(bytes).ok()
}

} // verus!
