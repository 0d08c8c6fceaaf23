//! Captured output as text.

use vstd::prelude::*;
use vstd::utf8::{decode_utf8, valid_utf8};

verus! {

/// The text that lossy decoding makes of a byte string: the bytes read as
/// UTF-8, with U+FFFD in place of each sequence that is not valid.
pub uninterp spec fn lossy_text(bytes: Seq<u8>) -> Seq<char>;

/// `String::from_utf8_lossy` never fails, and what it returns depends on the
/// bytes alone. Bytes that are valid UTF-8 come back as the text they encode.
#[verifier::external_body]
pub(crate) fn decode_lossy(bytes: &[u8]) -> (text: String)
    ensures
        text@ == lossy_text(bytes@),
        valid_utf8(bytes@) ==> text@ == decode_utf8(bytes@),
{
    String::from_utf8_lossy(bytes).into_owned()
}

/// The exit code that is reported: the child's own, or -1 where the system
/// gave none, as after a kill by a signal.
pub open spec fn reported_code(code: Option<i32>) -> i32 {
    match code {
        Some(c) => c,
        None => -1i32,
    }
}

/// Computes [`reported_code`].
pub fn exit_code(code: Option<i32>) -> (c: i32)
    ensures
        c == reported_code(code),
{
    match code {
        Some(c) => c,
        None => -1,
    }
}

} // verus!
