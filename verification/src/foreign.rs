//! Names that arrive from C: NUL-terminated byte strings.
//!
//! A foreign caller hands over a run of bytes that ends in a zero byte and
//! holds no other zero. The bytes before the terminator are meant to be UTF-8;
//! whether they are is decided here, and only text that decodes is greeted.

use vstd::prelude::*;
use vstd::slice::slice_subrange;
use vstd::utf8::{
    decode_utf8, decode_utf8_encode_utf8, encode_utf8, encode_utf8_decode_utf8,
    encode_utf8_valid_utf8, valid_utf8,
};
use crate::encoding::lemma_encoding_zero_iff_nul;
use crate::error::BoundaryError;
use crate::greeting::{greeting_output, hello};

verus! {

/// A well-formed foreign byte string: at least the terminator, a zero as its
/// last byte, and no zero before it.
pub open spec fn is_foreign_sequence(bytes: Seq<u8>) -> bool {
    &&& bytes.len() > 0
    &&& bytes.last() == 0
    &&& forall|i: int| 0 <= i < bytes.len() - 1 ==> bytes[i] != 0
}

/// The bytes that carry the name: all but the terminator.
pub open spec fn foreign_text_bytes(bytes: Seq<u8>) -> Seq<u8> {
    bytes.drop_last()
}

/// The name that a foreign byte string spells, where its bytes are UTF-8.
pub open spec fn foreign_text(bytes: Seq<u8>) -> Option<Seq<char>> {
    if valid_utf8(foreign_text_bytes(bytes)) {
        Some(decode_utf8(foreign_text_bytes(bytes)))
    } else {
        None
    }
}

/// What asking for a greeting with a foreign byte string comes to: the text
/// written for the name it spells, or the reason why there is none.
pub open spec fn foreign_greeting(bytes: Seq<u8>) -> Result<Seq<char>, BoundaryError> {
    match foreign_text(bytes) {
        Some(name) => Ok(greeting_output(name)),
        None => Err(BoundaryError::InvalidEncoding),
    }
}

/// The foreign byte string that spells `name`: its UTF-8 encoding, then the
/// terminator.
pub open spec fn foreign_spelling(name: Seq<char>) -> Seq<u8> {
    encode_utf8(name).push(0u8)
}

/// Tells whether `bytes` is a well-formed foreign byte string.
pub fn is_nul_terminated(bytes: &[u8]) -> (ok: bool)
    ensures
        ok == is_foreign_sequence(bytes@),
{
    let n = bytes.len();
    if n == 0 {
        return false;
    }
    if bytes[n - 1] != 0 {
        return false;
    }
    let mut i: usize = 0;
    while i < n - 1
        invariant
            n == bytes@.len(),
            n > 0,
            i <= n - 1,
            forall|j: int| 0 <= j < i ==> bytes@[j] != 0,
        decreases n - i,
    {
        if bytes[i] == 0 {
            return false;
        }
        i += 1;
    }
    true
}

/// `std::str::from_utf8`, with its error dropped. Nothing here is proved: the
/// contract is what the standard library documents. It accepts a slice exactly
/// when the slice is well-formed UTF-8, and the string slice it then returns
/// is made of the very bytes it was given.
#[verifier::external_body]
fn text_of_utf8(bytes: &[u8]) -> (text: Option<&str>)
    ensures
        text is Some <==> valid_utf8(bytes@),
        text matches Some(s) ==> encode_utf8(s@) == bytes@,
{
    match std::str::from_utf8(bytes) {
        Ok(s) => Some(s),
        Err(_) => None,
    }
}

/// Decodes the name that a foreign byte string carries.
///
/// The terminator is left out and the bytes before it are read as UTF-8. Bytes
/// that are not UTF-8 are refused; none of them is replaced or skipped.
pub fn decode_foreign(input: &[u8]) -> (res: Result<&str, BoundaryError>)
    requires
        is_foreign_sequence(input@),
    ensures
        match foreign_text(input@) {
            Some(name) => res matches Ok(text) && text@ == name,
            None => res matches Err(err) && err == BoundaryError::InvalidEncoding,
        },
{
    let text_bytes = slice_subrange(input, 0, input.len() - 1);
    match text_of_utf8(text_bytes) {
        Some(text) => {
            proof {
                encode_utf8_decode_utf8(text@);
            }
            Ok(text)
        },
        None => Err(BoundaryError::InvalidEncoding),
    }
}

/// Greets the name that a foreign byte string carries.
///
/// Where the bytes decode, the result is what [`hello`] builds for the decoded
/// name. Where they do not, there is no greeting at all, only the error.
pub fn c_hello(input: &[u8]) -> (res: Result<String, BoundaryError>)
    requires
        is_foreign_sequence(input@),
    ensures
        match foreign_greeting(input@) {
            Ok(text) => res matches Ok(out) && out@ == text,
            Err(why) => res matches Err(err) && err == why,
        },
{
    match decode_foreign(input) {
        Ok(text) => Ok(hello(text)),
        Err(e) => Err(e),
    }
}

/// A foreign byte string that spells a name is greeted as the name itself is:
/// whatever [`c_hello`] returns for the bytes is the text that [`hello`]
/// returns for the name.
pub proof fn lemma_foreign_greeting_is_safe_greeting(
    input: &[u8],
    name: &str,
    foreign: Result<String, BoundaryError>,
    safe: String,
)
    requires
        is_foreign_sequence(input@),
        foreign_text(input@) == Some(name@),
        call_ensures(c_hello, (input,), foreign),
        call_ensures(hello, (name,), safe),
    ensures
        foreign_greeting(input@) == Ok::<Seq<char>, BoundaryError>(greeting_output(name@)),
        foreign matches Ok(out) && out@ == safe@,
{
}

/// Bytes that are not UTF-8 are never greeted: whatever [`c_hello`] returns for
/// them is the error, and no text comes with it.
pub proof fn lemma_invalid_bytes_are_refused(input: &[u8], res: Result<String, BoundaryError>)
    requires
        is_foreign_sequence(input@),
        !valid_utf8(foreign_text_bytes(input@)),
        call_ensures(c_hello, (input,), res),
    ensures
        res matches Err(err) && err == BoundaryError::InvalidEncoding,
{
}

/// Asking again changes nothing: two calls of [`c_hello`] on the same bytes
/// end the same way, with the same text or with the same error.
pub proof fn lemma_c_hello_repeats(
    input: &[u8],
    first: Result<String, BoundaryError>,
    second: Result<String, BoundaryError>,
)
    requires
        is_foreign_sequence(input@),
        call_ensures(c_hello, (input,), first),
        call_ensures(c_hello, (input,), second),
    ensures
        match first {
            Ok(out) => second matches Ok(again) && again@ == out@,
            Err(why) => second matches Err(again) && again == why,
        },
{
}

/// Every name without the character U+0000 can be handed over: its spelling
/// is a well-formed foreign byte string, which decodes to that name and is
/// greeted as that name.
pub proof fn lemma_spelling_is_greeted(name: Seq<char>)
    requires
        !name.contains('\0'),
    ensures
        is_foreign_sequence(foreign_spelling(name)),
        foreign_text(foreign_spelling(name)) == Some(name),
        foreign_greeting(foreign_spelling(name)) == Ok::<Seq<char>, BoundaryError>(
            greeting_output(name),
        ),
{
    let encoded = encode_utf8(name);
    lemma_encoding_zero_iff_nul(name);
    encode_utf8_valid_utf8(name);
    encode_utf8_decode_utf8(name);
    assert(foreign_text_bytes(foreign_spelling(name)) =~= encoded);
    assert forall|i: int| 0 <= i < foreign_spelling(name).len() - 1 implies foreign_spelling(
        name,
    )[i] != 0 by {
        assert(encoded[i] == foreign_spelling(name)[i]);
    }
}

/// A name that came over the boundary holds no U+0000, and the bytes that
/// carried it are its spelling: no two foreign byte strings give one name.
pub proof fn lemma_foreign_text_is_spelled(bytes: Seq<u8>, name: Seq<char>)
    requires
        is_foreign_sequence(bytes),
        foreign_text(bytes) == Some(name),
    ensures
        !name.contains('\0'),
        foreign_spelling(name) == bytes,
{
    let carried = foreign_text_bytes(bytes);
    decode_utf8_encode_utf8(carried);
    lemma_encoding_zero_iff_nul(name);
    if carried.contains(0u8) {
        let i = choose|i: int| 0 <= i < carried.len() && carried[i] == 0u8;
        assert(bytes[i] == 0u8);
    }
    assert(foreign_spelling(name) =~= bytes);
}

} // verus!
