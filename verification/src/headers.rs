//! The header fields of a request, held in an `http::HeaderMap`.

use vstd::prelude::*;

verus! {

#[verifier::external_type_specification]
#[verifier::external_body]
#[verifier::reject_recursive_types(T)]
pub struct ExHeaderMap<T>(http::header::HeaderMap<T>);

#[verifier::external_type_specification]
#[verifier::external_body]
pub struct ExHeaderValue(http::header::HeaderValue);

#[verifier::external_type_specification]
#[verifier::external_body]
pub struct ExInvalidHeaderValue(http::header::InvalidHeaderValue);

#[verifier::external_type_specification]
#[verifier::external_body]
pub struct ExMaxSizeReached(http::header::MaxSizeReached);

/// What a header map holds: for each field name, in small letters, its values in
/// the order in which they were added.
pub uninterp spec fn header_fields(map: http::header::HeaderMap<http::header::HeaderValue>) -> Map<
    Seq<char>,
    Seq<Seq<u8>>,
>;

/// The values of the field `name`; none where the field is absent.
pub open spec fn values_of(fields: Map<Seq<char>, Seq<Seq<u8>>>, name: Seq<char>) -> Seq<Seq<u8>> {
    if fields.contains_key(name) {
        fields[name]
    } else {
        Seq::empty()
    }
}

/// The text is a field name written in small letters, digits and hyphens, of at
/// most 64 characters.
pub open spec fn is_field_name(name: Seq<char>) -> bool {
    0 < name.len() <= 64 && forall|i: int| 0 <= i < name.len() ==> is_name_char(#[trigger] name[i])
}

/// A small letter, a digit or a hyphen.
pub open spec fn is_name_char(c: char) -> bool {
    'a' <= c <= 'z' || '0' <= c <= '9' || c == '-'
}

/// The bytes can be the value of a field: no control character but the tab.
pub open spec fn is_field_value(bytes: Seq<u8>) -> bool {
    forall|i: int| 0 <= i < bytes.len() ==> is_value_byte(#[trigger] bytes[i])
}

/// A byte that a field value may hold.
pub open spec fn is_value_byte(b: u8) -> bool {
    b >= 32 && b != 127 || b == 9
}

/// The number of distinct field names up to which a header map always takes one
/// more.
pub const ROOMY_NAMES: usize = 6553;

/// Calls `http::HeaderMap::contains_key`: whether the map holds a value for
/// `name`.
#[verifier::external_body]
pub(crate) fn contains_field(
    map: &http::header::HeaderMap<http::header::HeaderValue>,
    name: &str,
) -> (r: bool)
    requires
        is_field_name(name@),
    ensures
        r == header_fields(*map).contains_key(name@),
{
    map.contains_key(name)
}

/// Calls `http::HeaderMap::get_all`: all values of `name`, in the order in which
/// they were added.
#[verifier::external_body]
pub(crate) fn field_values(
    map: &http::header::HeaderMap<http::header::HeaderValue>,
    name: &str,
) -> (r: Vec<Vec<u8>>)
    requires
        is_field_name(name@),
    ensures
        r@.map_values(|v: Vec<u8>| v@) == values_of(header_fields(*map), name@),
{
    map.get_all(name).iter().map(|v| v.as_bytes().to_vec()).collect()
}

/// Calls `http::HeaderMap::try_insert`: `value` becomes the only value of `name`, in
/// a map that holds finitely many names. It can fail, with the map unchanged, only
/// where the map holds more than `ROOMY_NAMES` names. When it does fail there rests
/// on the capacity of the map and is not stated.
#[verifier::external_body]
pub(crate) fn insert_field(
    map: &mut http::header::HeaderMap<http::header::HeaderValue>,
    name: &'static str,
    value: &Vec<u8>,
) -> (r: Result<(), http::header::MaxSizeReached>)
    requires
        is_field_name(name@),
        is_field_value(value@),
    ensures
        r is Ok ==> header_fields(*final(map)) == header_fields(*old(map)).insert(
            name@,
            seq![value@],
        ) && header_fields(*final(map)).dom().finite(),
        r is Err ==> header_fields(*final(map)) == header_fields(*old(map)) && header_fields(
            *old(map),
        ).dom().len() > ROOMY_NAMES,
{
    map.try_insert(name, http::header::HeaderValue::from_bytes(value).unwrap()).map(|_old| ())
}

/// Calls `http::HeaderMap::try_append`: `value` is added behind the values that
/// `name` already has. It can fail, with the map unchanged, only where the map
/// holds more than `ROOMY_NAMES` names. When it does fail there rests on the
/// capacity of the map and is not stated.
#[verifier::external_body]
pub(crate) fn append_field(
    map: &mut http::header::HeaderMap<http::header::HeaderValue>,
    name: &'static str,
    value: &Vec<u8>,
) -> (r: Result<bool, http::header::MaxSizeReached>)
    requires
        is_field_name(name@),
        is_field_value(value@),
    ensures
        r matches Ok(present) ==> present == header_fields(*old(map)).contains_key(name@)
            && header_fields(*final(map)) == header_fields(*old(map)).insert(
            name@,
            values_of(header_fields(*old(map)), name@).push(value@),
        ),
        r is Err ==> header_fields(*final(map)) == header_fields(*old(map)) && header_fields(
            *old(map),
        ).dom().len() > ROOMY_NAMES,
{
    map.try_append(name, http::header::HeaderValue::from_bytes(value).unwrap())
}

/// Calls `<http::HeaderValue as FromStr>::from_str`: the bytes of `text` as a field
/// value, or an error where one of them cannot stand in a field value.
#[verifier::external_body]
pub(crate) fn parse_field_value(text: &str) -> (r: Result<
    Vec<u8>,
    http::header::InvalidHeaderValue,
>)
    ensures
        r is Ok <==> is_field_value(vstd::utf8::encode_utf8(text@)),
        r matches Ok(bytes) ==> bytes@ == vstd::utf8::encode_utf8(text@),
{
    text.parse::<http::header::HeaderValue>().map(|v| v.as_bytes().to_vec())
}

} // verus!
