//! The header collection of a response, as this library sees it.
//!
//! A `HeaderMap` is viewed as a map from a lower-case header name to the
//! ordered, non-empty sequence of byte values held under that name.

use hyper::header::{HeaderMap, HeaderName, HeaderValue, MaxSizeReached};
use vstd::prelude::*;

verus! {

#[verifier::external_type_specification]
#[verifier::external_body]
#[verifier::reject_recursive_types(T)]
pub struct ExHeaderMap<T>(HeaderMap<T>);

#[verifier::external_type_specification]
#[verifier::external_body]
pub struct ExHeaderValue(HeaderValue);

#[verifier::external_type_specification]
#[verifier::external_body]
pub struct ExMaxSizeReached(MaxSizeReached);

/// The entries of a header map: each name present maps to its values, in order.
pub uninterp spec fn header_entries(h: HeaderMap) -> Map<Seq<char>, Seq<Seq<u8>>>;

/// The bytes of a string made of ASCII characters.
pub open spec fn ascii_bytes(s: Seq<char>) -> Seq<u8> {
    s.map_values(|c: char| c as u8)
}

/// A name that `HeaderName::from_static` accepts without panicking: non-empty,
/// short, and made of lower-case letters, digits and dashes only (a subset of
/// the lower-case token characters that it admits).
pub open spec fn is_static_name(s: Seq<char>) -> bool {
    &&& 0 < s.len() <= 64
    &&& forall|i: int|
        0 <= i < s.len() ==> {
            let c = #[trigger] s[i];
            ('a' <= c && c <= 'z') || ('0' <= c && c <= '9') || c == '-'
        }
}

/// A value that `HeaderValue::from_static` accepts without panicking: visible
/// ASCII characters and spaces only.
pub open spec fn is_static_value(s: Seq<char>) -> bool {
    forall|i: int| 0 <= i < s.len() ==> ' ' <= #[trigger] s[i] && s[i] <= '~'
}

/// How many names a header map may hold with every insertion still certain to
/// succeed. The map gives up only when growing would take its table past
/// 32768 slots: a full table needs 24576 names, and the rehash path needs a
/// load of one fifth of 32768 slots, so below 6554 names neither can happen.
pub open spec fn names_with_room() -> nat {
    6554
}

/// Relies on `HeaderMap::try_insert` (with `HeaderName::from_static` and
/// `HeaderValue::from_static` building its arguments): on success the name
/// holds exactly the one new value and no other entry changes; the only
/// failure is `MaxSizeReached`, which is returned before the map is touched and
/// only once the map has grown to `names_with_room()` names.
#[verifier::external_body]
pub(crate) fn try_insert_static(h: &mut HeaderMap, name: &'static str, value: &'static str) -> (r:
    Result<Option<HeaderValue>, MaxSizeReached>)
    requires
        is_static_name(name@),
        is_static_value(value@),
    ensures
        header_entries(*old(h)).dom().finite(),
        header_entries(*old(h)).dom().len() < names_with_room() ==> r is Ok,
        r is Ok ==> header_entries(*final(h)) == header_entries(*old(h)).insert(
            name@,
            seq![ascii_bytes(value@)],
        ),
        r is Err ==> header_entries(*final(h)) == header_entries(*old(h)),
{
    h.try_insert(HeaderName::from_static(name), HeaderValue::from_static(value))
}

} // verus!
