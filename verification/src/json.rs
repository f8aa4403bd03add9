//! The JSON texts that an operator answers with, written by serde_json.
use vstd::prelude::*;

verus! {

/// The views of the string fields of a JSON object.
pub open spec fn text_fields_view(fields: Seq<(String, String)>) -> Seq<(Seq<char>, Seq<char>)> {
    fields.map_values(|f: (String, String)| (f.0@, f.1@))
}

/// The views of the string-array fields of a JSON object.
pub open spec fn list_fields_view(fields: Seq<(String, Vec<String>)>) -> Seq<(Seq<char>, Seq<Seq<char>>)> {
    fields.map_values(|f: (String, Vec<String>)| (f.0@, f.1@.map_values(|s: String| s@)))
}

/// The compact text that serde_json writes for the JSON object with these
/// string fields and these string-array fields.
pub uninterp spec fn json_object_text(
    texts: Seq<(Seq<char>, Seq<char>)>,
    lists: Seq<(Seq<char>, Seq<Seq<char>>)>,
) -> Seq<char>;

/// Writes the JSON object with the given string fields and string-array
/// fields as compact text: the fields are inserted into a `serde_json::Map`,
/// which a `serde_json::Value` wraps and its `Display` impl (`to_string`)
/// writes. The text is a function of the fields alone, named
/// `json_object_text`; which text it is (serde_json orders the keys of a map
/// and escapes the strings) is not stated.
#[verifier::external_body]
pub(crate) fn write_json_object(texts: Vec<(String, String)>, lists: Vec<(String, Vec<String>)>) -> (text: String)
    ensures
        text@ == json_object_text(text_fields_view(texts@), list_fields_view(lists@)),
{
    let mut map = serde_json::Map::new();
    for (key, value) in texts {
        map.insert(key, serde_json::Value::String(value));
    }
    for (key, values) in lists {
        map.insert(key, serde_json::Value::Array(values.into_iter().map(serde_json::Value::String).collect()));
    }
    serde_json::Value::Object(map).to_string()
}

} // verus!
