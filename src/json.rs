use vstd::prelude::*;

verus! {

/// `serde_json::Error`, carried opaque: the reason a text is no JSON object of strings.
#[verifier::external_type_specification]
#[verifier::external_body]
pub struct ExJsonError(serde_json::Error);

/// The fields of a JSON object whose values are all strings, in key order;
/// none for any other text.
pub uninterp spec fn json_string_map(s: Seq<char>) -> Option<Seq<(Seq<char>, Seq<char>)>>;

/// The JSON text of an object with the given string fields.
pub uninterp spec fn json_object_text(fields: Seq<(Seq<char>, Seq<char>)>) -> Seq<char>;

/// Relies on `serde_json::from_str` into a `BTreeMap<String, String>`: a JSON
/// object of strings is read, in key order; any other text is an error.
#[verifier::external_body]
pub(crate) fn parse_string_object(s: &str) -> (r: Result<Vec<(String, String)>, serde_json::Error>)
    ensures
        match json_string_map(s@) {
            Some(m) => r is Ok && r->Ok_0.deep_view() == m,
            None => r is Err,
        },
{
    serde_json::from_str::<std::collections::BTreeMap<String, String>>(s).map(
        |m| m.into_iter().collect(),
    )
}

/// Relies on `serde_json::Value::to_string` of an object built from the fields.
#[verifier::external_body]
pub(crate) fn object_text(fields: &Vec<(String, String)>) -> (r: String)
    ensures
        r@ == json_object_text(fields.deep_view()),
{
    let mut m = serde_json::Map::new();
    for (k, v) in fields {
        m.insert(k.clone(), serde_json::Value::String(v.clone()));
    }
    serde_json::Value::Object(m).to_string()
}

} // verus!
