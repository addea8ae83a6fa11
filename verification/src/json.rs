use vstd::prelude::*;

verus! {

/// Declares serde_json's Value so that parsed members can pass through
/// signatures; the engine never looks inside one except through the
/// accessors below.
#[verifier::external_type_specification]
#[verifier::external_body]
pub struct ExValue(serde_json::Value);

/// Declares serde_json's Map, the parsed form of a JSON object.
#[verifier::external_type_specification]
#[verifier::external_body]
#[verifier::reject_recursive_types(K)]
#[verifier::reject_recursive_types(V)]
pub struct ExMap<K, V>(serde_json::Map<K, V>);

/// The members of a parsed JSON object whose value is a JSON string, as a
/// map from member name to that string.
pub uninterp spec fn json_fields_str(m: serde_json::Map<String, serde_json::Value>) -> Map<
    Seq<char>,
    Seq<char>,
>;

/// The members of a parsed JSON object whose value is an unsigned 64-bit
/// integer.
pub uninterp spec fn json_fields_u64(m: serde_json::Map<String, serde_json::Value>) -> Map<
    Seq<char>,
    u64,
>;

/// Whether serde_json parses these bytes as a JSON object.
pub uninterp spec fn json_obj_ok(b: Seq<u8>) -> bool;

/// The string-valued members of the object serde_json parses from these
/// bytes.
pub uninterp spec fn json_obj_strs(b: Seq<u8>) -> Map<Seq<char>, Seq<char>>;

/// The u64-valued members of the object serde_json parses from these bytes.
pub uninterp spec fn json_obj_u64s(b: Seq<u8>) -> Map<Seq<char>, u64>;

/// Relies on serde_json::from_slice: whether bytes parse as a JSON object,
/// and to which members, depends on the bytes alone.
#[verifier::external_body]
pub(crate) fn parse_json_object(bytes: &[u8]) -> (r: Option<
    serde_json::Map<String, serde_json::Value>,
>)
    ensures
        r is Some <==> json_obj_ok(bytes@),
        r matches Some(m) ==> json_fields_str(m) == json_obj_strs(bytes@) && json_fields_u64(m)
            == json_obj_u64s(bytes@),
{
    serde_json::from_slice(bytes).ok()
}

/// Relies on serde_json's Map::get and Value::as_str: the string member
/// stored under `key`, where there is one.
#[verifier::external_body]
pub(crate) fn json_get_str(m: &serde_json::Map<String, serde_json::Value>, key: &str) -> (r:
    Option<String>)
    ensures
        r is Some <==> json_fields_str(*m).contains_key(key@),
        r matches Some(s) ==> s@ == json_fields_str(*m)[key@],
{
    match m.get(key) {
        Some(v) => match v.as_str() {
            Some(s) => Some(s.to_owned()),
            None => None,
        },
        None => None,
    }
}

/// Relies on serde_json's Map::get and Value::as_u64: the unsigned integer
/// member stored under `key`, where there is one.
#[verifier::external_body]
pub(crate) fn json_get_u64(m: &serde_json::Map<String, serde_json::Value>, key: &str) -> (r:
    Option<u64>)
    ensures
        r is Some <==> json_fields_u64(*m).contains_key(key@),
        r matches Some(x) ==> x == json_fields_u64(*m)[key@],
{
    match m.get(key) {
        Some(v) => v.as_u64(),
        None => None,
    }
}

} // verus!
