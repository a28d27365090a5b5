//! What this crate takes on trust from the code that it calls: the header
//! types of `http`, the block compression of `snap`, and string equality.
//! Nothing in this file is proved; each contract says what the called code
//! does, and the rest of the crate is proved from these contracts.

use crate::header::{canonical_name, is_header_name, is_header_value};
use http::header::{HeaderMap, HeaderName, HeaderValue};
use vstd::prelude::*;
use vstd::utf8::encode_utf8;

verus! {

#[verifier::external_type_specification]
#[verifier::external_body]
pub struct ExHeaderName(HeaderName);

#[verifier::external_type_specification]
#[verifier::external_body]
pub struct ExHeaderValue(HeaderValue);

#[verifier::external_type_specification]
#[verifier::external_body]
#[verifier::reject_recursive_types(T)]
pub struct ExHeaderMap<T>(HeaderMap<T>);

/// A header map that holds fewer names than this never refuses another.
pub const SURE_HEADER_ROOM: usize = 6554;

/// The text of a header name, as `HeaderName::as_str` gives it.
pub uninterp spec fn header_name_text(name: HeaderName) -> Seq<char>;

/// The bytes of a header value, as `HeaderValue::as_bytes` gives them.
pub uninterp spec fn header_value_bytes(value: HeaderValue) -> Seq<u8>;

/// What a header map holds: for each name in it, the values filed under that
/// name, in the order in which `HeaderMap::get_all` walks them.
pub uninterp spec fn header_map_entries(map: HeaderMap<HeaderValue>) -> Map<Seq<char>, Seq<Seq<u8>>>;

/// The entries of a map that holds nothing.
pub open spec fn no_headers() -> Map<Seq<char>, Seq<Seq<u8>>> {
    Map::empty()
}

/// The entries of a map after `value` has been filed under `name` in place of
/// whatever stood there.
pub open spec fn with_header(
    entries: Map<Seq<char>, Seq<Seq<u8>>>,
    name: HeaderName,
    value: HeaderValue,
) -> Map<Seq<char>, Seq<Seq<u8>>> {
    entries.insert(header_name_text(name), seq![header_value_bytes(value)])
}

/// Whether a map with these entries is sure to take `more` further names.
pub open spec fn has_sure_room(entries: Map<Seq<char>, Seq<Seq<u8>>>, more: nat) -> bool {
    entries.dom().finite() && entries.dom().len() + more <= SURE_HEADER_ROOM
}

/// `HeaderName::try_from(&str)`: accepts exactly the legal header names, and
/// the name that it returns holds the text in lower case.
#[verifier::external_body]
pub(crate) fn parse_header_name(text: &str) -> (name: Option<HeaderName>)
    ensures
        name is Some <==> is_header_name(text@),
        name matches Some(n) ==> header_name_text(n) == canonical_name(text@),
{
    HeaderName::try_from(text).ok()
}

/// `HeaderValue::try_from(&str)`: accepts exactly the legal header values, and
/// the value that it returns holds the UTF-8 bytes of the text.
#[verifier::external_body]
pub(crate) fn parse_header_value(text: &str) -> (value: Option<HeaderValue>)
    ensures
        value is Some <==> is_header_value(text@),
        value matches Some(v) ==> header_value_bytes(v) == encode_utf8(text@),
{
    HeaderValue::try_from(text).ok()
}

/// `HeaderMap::new`: a map that holds nothing.
#[verifier::external_body]
pub(crate) fn header_map_new() -> (map: HeaderMap<HeaderValue>)
    ensures
        header_map_entries(map) == no_headers(),
{
    HeaderMap::new()
}

/// `HeaderMap::try_insert`: files `value` under `name` in place of whatever
/// stood there, or refuses and leaves the map as it was. It refuses only when
/// its index table, which has at most 32768 slots, would have to double: with
/// 24576 names in the map, or, after many names have collided, with names for
/// a fifth of the slots. Neither is the case below 6554 names.
#[verifier::external_body]
pub(crate) fn header_map_try_insert(
    map: &mut HeaderMap<HeaderValue>,
    name: HeaderName,
    value: HeaderValue,
) -> (stored: bool)
    ensures
        stored ==> header_map_entries(*final(map)) == with_header(header_map_entries(*old(map)), name, value),
        !stored ==> header_map_entries(*final(map)) == header_map_entries(*old(map)),
        has_sure_room(header_map_entries(*old(map)), 1) ==> stored,
{
    map.try_insert(name, value).is_ok()
}

/// `HeaderMap::contains_key`: whether anything is filed under `name`.
#[verifier::external_body]
pub(crate) fn header_map_contains(map: &HeaderMap<HeaderValue>, name: &HeaderName) -> (found: bool)
    ensures
        found == header_map_entries(*map).dom().contains(header_name_text(*name)),
{
    map.contains_key(name)
}

/// `HeaderMap::clone`: a map with the same entries.
#[verifier::external_body]
pub(crate) fn header_map_clone(map: &HeaderMap<HeaderValue>) -> (copy: HeaderMap<HeaderValue>)
    ensures
        header_map_entries(copy) == header_map_entries(*map),
{
    map.clone()
}

/// The Snappy block that `snap` 1.1 makes of `input`.
pub uninterp spec fn snappy_block(input: Seq<u8>) -> Seq<u8>;

/// Whether an input of `len` bytes is small enough to be compressed: its
/// largest possible block must not exceed `u32::MAX` bytes.
pub open spec fn is_compressible(len: nat) -> bool {
    32 + len + len / 6 <= 0xffff_ffff
}

/// `snap::raw::Encoder::compress_vec` on a new encoder: the input as one
/// Snappy block, refused exactly when the input is too large.
#[verifier::external_body]
pub(crate) fn snappy_compress(input: &[u8]) -> (block: Option<Vec<u8>>)
    ensures
        block is Some <==> is_compressible(input@.len()),
        block matches Some(bytes) ==> bytes@ == snappy_block(input@),
{
    snap::raw::Encoder::new().compress_vec(input).ok()
}

/// `str::eq`: two strings are equal exactly when they hold the same
/// characters.
#[verifier::external_body]
pub(crate) fn same_text(a: &str, b: &str) -> (same: bool)
    ensures
        same == (a@ == b@),
{
    a == b
}

} // verus!
