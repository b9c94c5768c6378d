use vstd::prelude::*;

verus! {

// The configuration file is parsed by serde_saphyr into a serde_json::Value
// tree.  The tree itself is opaque here; the functions below hand it through
// together with contracts over `value_rep`, the abstract shape of a node.

#[verifier::external_type_specification]
#[verifier::external_body]
pub struct ExValue(serde_json::Value);

/// Abstract shape of one node of a parsed document, as the configuration
/// logic reads it: scalars as plain values, mappings as maps from key to
/// node.  Numbers that are not integers are lumped together: the logic never
/// accepts one.
pub ghost enum ValueRep {
    Null,
    Bool(bool),
    Int(int),
    OtherNum,
    Str(Seq<char>),
    Arr(Seq<ValueRep>),
    Obj(Map<Seq<char>, ValueRep>),
}

/// The shape of the node a given parsed value denotes.
pub uninterp spec fn value_rep(v: serde_json::Value) -> ValueRep;

/// What a YAML document text denotes: `None` where the text is not a
/// well-formed single document, otherwise the shape of its tree.
pub uninterp spec fn yaml_value_of(s: Seq<char>) -> Option<ValueRep>;

/// Relies on serde_saphyr::from_str with serde_json::Value as the target
/// type: parsing is a deterministic function of the input text alone, and a
/// well-formed document yields the tree that the text denotes.
#[verifier::external_body]
pub(crate) fn parse_yaml(s: &str) -> (r: Result<serde_json::Value, String>)
    ensures
        r is Ok <==> yaml_value_of(s@) is Some,
        r matches Ok(v) ==> Some(value_rep(v)) == yaml_value_of(s@),
{
    match serde_saphyr::from_str::<serde_json::Value>(s) {
        Ok(v) => Ok(v),
        Err(e) => Err(e.to_string()),
    }
}

/// Relies on serde_json::Value::is_object: true exactly on object nodes.
#[verifier::external_body]
pub(crate) fn value_is_object(v: &serde_json::Value) -> (r: bool)
    ensures
        r == (value_rep(*v) is Obj),
{
    v.is_object()
}

/// Relies on serde_json::Value::get with a string index: on an object it is
/// lookup by key, on every other node it returns None.
#[verifier::external_body]
pub(crate) fn value_get<'a>(v: &'a serde_json::Value, key: &str) -> (r: Option<
    &'a serde_json::Value,
>)
    ensures
        value_rep(*v) is Obj ==> (r is Some <==> value_rep(*v)->Obj_0.contains_key(key@)),
        r matches Some(w) ==> value_rep(*v) is Obj && value_rep(*v)->Obj_0.contains_key(key@)
            && value_rep(*w) == value_rep(*v)->Obj_0[key@],
        !(value_rep(*v) is Obj) ==> r is None,
{
    v.get(key)
}

/// Relies on serde_json::Value::as_str: Some exactly on string nodes, with
/// the string's characters.
#[verifier::external_body]
pub(crate) fn value_as_str(v: &serde_json::Value) -> (r: Option<String>)
    ensures
        r is Some <==> value_rep(*v) is Str,
        r matches Some(s) ==> s@ == value_rep(*v)->Str_0,
{
    match v.as_str() {
        Some(s) => Some(s.to_owned()),
        None => None,
    }
}

/// Relies on serde_json::Value::as_u64: Some exactly for integer numbers
/// that fit in u64, with their value.
#[verifier::external_body]
pub(crate) fn value_as_u64(v: &serde_json::Value) -> (r: Option<u64>)
    ensures
        r is Some <==> (value_rep(*v) matches ValueRep::Int(n) && 0 <= n <= u64::MAX),
        r matches Some(u) ==> value_rep(*v) == ValueRep::Int(u as int),
{
    v.as_u64()
}

} // verus!
