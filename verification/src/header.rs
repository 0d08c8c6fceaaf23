//! Headers: which texts an HTTP header may carry, and the map that holds
//! the headers of a request.

use reqwest::header::{HeaderMap, HeaderValue, InvalidHeaderValue};
use vstd::prelude::*;
use vstd::utf8::encode_utf8;

verus! {

/// A validated header value of the `http` crate, carried through opaquely.
#[verifier::external_type_specification]
#[verifier::external_body]
pub struct ExHeaderValue(HeaderValue);

/// The error with which the `http` crate refuses a header value.
#[verifier::external_type_specification]
#[verifier::external_body]
pub struct ExInvalidHeaderValue(InvalidHeaderValue);

/// The header map of the `http` crate: for each name the values set for it.
#[verifier::external_type_specification]
#[verifier::external_body]
#[verifier::reject_recursive_types(T)]
pub struct ExHeaderMap<T>(HeaderMap<T>);

/// The bytes that a header value holds.
pub uninterp spec fn value_bytes(value: HeaderValue) -> Seq<u8>;

/// What a header map holds: under each name, as the map keeps it, in lower
/// case, the values set for it, first to last.
pub uninterp spec fn entries_of(headers: HeaderMap) -> Map<Seq<char>, Seq<Seq<u8>>>;

/// What an empty header map holds.
pub open spec fn no_entries() -> Map<Seq<char>, Seq<Seq<u8>>> {
    Map::empty()
}

/// How many names a map may hold before another is set. The `http` crate
/// gives up far above this.
pub const MAX_NAMES: usize = 1024;

/// Whether a character may stand in a header value: anything but the ASCII
/// control characters, of which only the horizontal tab is let through.
pub open spec fn accepted_char(c: char) -> bool {
    (c >= ' ' && c != '\u{7f}') || c == '\t'
}

/// Whether a text is a header value: each of its characters is accepted.
pub open spec fn accepted_value(s: Seq<char>) -> bool {
    forall|i: int| 0 <= i < s.len() ==> accepted_char(#[trigger] s[i])
}

/// Whether a text can be a header value that is fixed in the program: it is
/// made of visible ASCII, blanks and tabs.
pub open spec fn fixed_value(s: Seq<char>) -> bool {
    forall|i: int| 0 <= i < s.len() ==> (' ' <= #[trigger] s[i] < '\u{7f}' || s[i] == '\t')
}

/// Whether a text is taken here as a header's name: up to 64 lower-case
/// letters, digits and hyphens, and at least one. The map keeps such a name
/// as it is written.
pub open spec fn plain_name(s: Seq<char>) -> bool {
    &&& 1 <= s.len() <= 64
    &&& forall|i: int|
        0 <= i < s.len() ==> ('a' <= #[trigger] s[i] <= 'z' || '0' <= s[i] <= '9' || s[i] == '-')
}

/// `HeaderValue::from_str` scans the bytes of `src` and succeeds exactly when
/// every byte is at least 32 and not 127, or is a tab. A character outside
/// ASCII is encoded in bytes of 128 and above, which all pass, so the test on
/// bytes is the test on characters that `accepted_value` states. The value
/// holds a copy of the bytes of `src`.
pub assume_specification[ HeaderValue::from_str ](src: &str) -> (res: Result<
    HeaderValue,
    InvalidHeaderValue,
>)
    ensures
        res is Ok <==> accepted_value(src@),
        res is Ok ==> value_bytes(res->Ok_0) == encode_utf8(src@),
;

/// `HeaderValue::from_static` panics on a byte that is neither visible ASCII,
/// a blank nor a tab, which `requires` leaves out; the value holds the bytes
/// of `src`.
pub assume_specification[ HeaderValue::from_static ](src: &'static str) -> (value: HeaderValue)
    requires
        fixed_value(src@),
    ensures
        value_bytes(value) == encode_utf8(src@),
;

/// `HeaderMap::new` makes a map that holds nothing.
#[verifier::external_body]
pub(crate) fn new_headers() -> (headers: HeaderMap)
    ensures
        entries_of(headers) == no_entries(),
{
    HeaderMap::new()
}

/// `HeaderMap::insert` sets a header: whatever the name held before, it then
/// holds the one value. It panics on a text that is no header name and on a
/// map that is full; a plain name always is a header name and is kept as it
/// is written, and a map of fewer than `MAX_NAMES` names has room.
#[verifier::external_body]
pub(crate) fn set_header(headers: &mut HeaderMap, name: &'static str, value: HeaderValue)
    requires
        plain_name(name@),
        entries_of(*old(headers)).dom().finite(),
        entries_of(*old(headers)).dom().len() < MAX_NAMES,
    ensures
        entries_of(*final(headers)) == entries_of(*old(headers)).insert(
            name@,
            seq![value_bytes(value)],
        ),
{
    headers.insert(name, value);
}

/// A text made of two parts is a header value exactly when both parts are.
pub proof fn lemma_accepted_concat(a: Seq<char>, b: Seq<char>)
    ensures
        accepted_value(a + b) <==> accepted_value(a) && accepted_value(b),
{
    let ab = a + b;
    if accepted_value(ab) {
        assert forall|i: int| 0 <= i < a.len() implies accepted_char(#[trigger] a[i]) by {
            assert(ab[i] == a[i]);
        }
        assert forall|i: int| 0 <= i < b.len() implies accepted_char(#[trigger] b[i]) by {
            assert(ab[i + a.len()] == b[i]);
        }
    }
    if accepted_value(a) && accepted_value(b) {
        assert forall|i: int| 0 <= i < ab.len() implies accepted_char(#[trigger] ab[i]) by {
            if i < a.len() {
                assert(ab[i] == a[i]);
            } else {
                assert(ab[i] == b[i - a.len()]);
            }
        }
    }
}

} // verus!
