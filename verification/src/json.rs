//! JSON values of `serde_json`, as the bridge reads them: a document is
//! parsed from text, looked up by field, copied, and shown as text. A value is
//! opaque to the verifier; what the contracts speak of is its content, a
//! [`JsonModel`].

use vstd::prelude::*;
use vstd::string::*;

verus! {

#[verifier::external_type_specification]
#[verifier::external_body]
pub struct ExJsonValue(serde_json::Value);

#[verifier::external_type_specification]
#[verifier::external_body]
#[verifier::reject_recursive_types(K)]
#[verifier::reject_recursive_types(V)]
pub struct ExJsonMap<K, V>(serde_json::Map<K, V>);

/// The fields of a JSON object.
pub type JsonObject = serde_json::Map<String, serde_json::Value>;

/// The content of a JSON value. A number is given by its decimal text; an
/// object is a map from field names to contents.
pub enum JsonModel {
    Null,
    Bool(bool),
    Number(Seq<char>),
    Text(Seq<char>),
    Array(Seq<JsonModel>),
    Object(Map<Seq<char>, JsonModel>),
}

/// The content of a `serde_json::Value`.
pub uninterp spec fn json_model(v: serde_json::Value) -> JsonModel;

/// The content of a `serde_json::Map` of fields: field names to contents.
pub uninterp spec fn json_object_model(m: JsonObject) -> Map<Seq<char>, JsonModel>;

/// What `serde_json::from_str::<Value>` makes of a text: the content of the
/// value it parses, or the message of the error it reports.
pub uninterp spec fn json_parse(text: Seq<char>) -> Result<JsonModel, Seq<char>>;

/// The compact JSON text that `Display` writes for a value.
pub uninterp spec fn json_compact_text(v: JsonModel) -> Seq<char>;

/// An object without fields.
pub open spec fn no_fields() -> Map<Seq<char>, JsonModel> {
    Map::empty()
}

/// A parse that succeeded with content `m`.
pub open spec fn parsed(m: JsonModel) -> Result<JsonModel, Seq<char>> {
    Ok(m)
}

/// A parse that failed with message `msg`.
pub open spec fn rejected(msg: Seq<char>) -> Result<JsonModel, Seq<char>> {
    Err(msg)
}

/// A parsed JSON document, told apart by whether it is an object.
pub enum JsonDocument {
    Object(JsonObject),
    Other(serde_json::Value),
}

impl JsonDocument {
    /// The content of the document.
    pub open spec fn model(self) -> JsonModel {
        match self {
            JsonDocument::Object(m) => JsonModel::Object(json_object_model(m)),
            JsonDocument::Other(v) => json_model(v),
        }
    }
}

/// How a value is shown when it stands for a document id.
pub enum JsonScalar {
    Text(String),
    Boolean(bool),
    Other,
}

/// `serde_json::from_str::<Value>`: parses `text` as one JSON value, and
/// tells objects from other values. The result is the name `json_parse` of
/// the text; a value that is not an object does not have an object's content.
#[verifier::external_body]
pub fn parse_json(text: &str) -> (r: Result<JsonDocument, String>)
    ensures
        match r {
            Ok(d) => json_parse(text@) == parsed(d.model()) && (d is Other ==> !(d.model() is Object)),
            Err(msg) => json_parse(text@) == rejected(msg@),
        },
{
    match serde_json::from_str::<serde_json::Value>(text) {
        Ok(serde_json::Value::Object(m)) => Ok(JsonDocument::Object(m)),
        Ok(v) => Ok(JsonDocument::Other(v)),
        Err(e) => Err(e.to_string()),
    }
}

/// `Value::Object`: the value that holds the fields of `m`.
#[verifier::external_body]
pub fn object_value(m: JsonObject) -> (v: serde_json::Value)
    ensures
        json_model(v) == JsonModel::Object(json_object_model(m)),
{
    serde_json::Value::Object(m)
}

/// `Map::new`: an object without fields.
#[verifier::external_body]
pub fn new_object() -> (m: JsonObject)
    ensures
        json_object_model(m) == no_fields(),
{
    serde_json::Map::new()
}

/// `Map::get`: the value of field `key`, if the object has that field.
#[verifier::external_body]
pub fn object_get<'a>(m: &'a JsonObject, key: &str) -> (r: Option<&'a serde_json::Value>)
    ensures
        r is Some <==> json_object_model(*m).contains_key(key@),
        r matches Some(v) ==> json_model(*v) == json_object_model(*m)[key@],
{
    m.get(key)
}

/// `Map::insert`: sets field `key` to `v`, replacing any earlier value.
#[verifier::external_body]
pub fn object_insert(m: &mut JsonObject, key: String, v: serde_json::Value)
    ensures
        json_object_model(*final(m)) == json_object_model(*old(m)).insert(key@, json_model(v)),
{
    m.insert(key, v);
}

/// `Value::clone`: a copy with the same content.
#[verifier::external_body]
pub fn clone_value(v: &serde_json::Value) -> (c: serde_json::Value)
    ensures
        json_model(c) == json_model(*v),
{
    v.clone()
}

/// Tells a string value and a boolean value from the rest, copying the
/// string or the boolean out.
#[verifier::external_body]
pub fn scalar_of(v: &serde_json::Value) -> (s: JsonScalar)
    ensures
        match s {
            JsonScalar::Text(t) => json_model(*v) == JsonModel::Text(t@),
            JsonScalar::Boolean(b) => json_model(*v) == JsonModel::Bool(b),
            JsonScalar::Other => !(json_model(*v) is Text) && !(json_model(*v) is Bool),
        },
{
    match v {
        serde_json::Value::String(t) => JsonScalar::Text(t.clone()),
        serde_json::Value::Bool(b) => JsonScalar::Boolean(*b),
        _ => JsonScalar::Other,
    }
}

/// `Value`'s `Display`: the compact JSON text of the value.
#[verifier::external_body]
pub fn compact_text(v: &serde_json::Value) -> (s: String)
    ensures
        s@ == json_compact_text(json_model(*v)),
{
    v.to_string()
}

/// The text `true` or `false`, as `bool`'s `Display` writes it.
pub open spec fn bool_text(b: bool) -> Seq<char> {
    if b {
        seq!['t', 'r', 'u', 'e']
    } else {
        seq!['f', 'a', 'l', 's', 'e']
    }
}

/// The text a value stands for as an identifier: a string as it is, a boolean
/// as `true` or `false`, anything else as its compact JSON text.
pub open spec fn value_text(m: JsonModel) -> Seq<char> {
    match m {
        JsonModel::Text(s) => s,
        JsonModel::Bool(b) => bool_text(b),
        _ => json_compact_text(m),
    }
}

/// The text a value stands for as an identifier.
pub fn value_to_string(value: &serde_json::Value) -> (s: String)
    ensures
        s@ == value_text(json_model(*value)),
{
    match scalar_of(value) {
        JsonScalar::Text(t) => t,
        JsonScalar::Boolean(b) => {
            if b {
                proof {
                    reveal_strlit("true");
                }
                let s = String::from_str("true");
                assert(s@ =~= bool_text(true));
                s
            } else {
                proof {
                    reveal_strlit("false");
                }
                let s = String::from_str("false");
                assert(s@ =~= bool_text(false));
                s
            }
        },
        JsonScalar::Other => compact_text(value),
    }
}

} // verus!
