use vstd::prelude::*;

verus! {

/// The shape of a parsed JSON document, as the pipeline reads it. Numbers
/// keep only their `u64` reading (`Num(None)` is a number that has none):
/// every numeric field the log protocol defines is an unsigned integer, and
/// nothing else of a number is ever read. Object fields keep the order the
/// parser yields them in; the parser never yields a duplicate key.
pub enum JsonValue {
    Null,
    Bool(bool),
    Num(Option<u64>),
    Str(String),
    Array(Vec<JsonValue>),
    Object(Vec<(String, JsonValue)>),
}

#[verifier::external_type_specification]
#[verifier::external_body]
pub struct ExValue(serde_json::Value);

/// The document an opaque `serde_json::Value` holds, in the library's shape.
pub uninterp spec fn value_model(v: serde_json::Value) -> JsonValue;

/// The document that a byte string parses to, or `None` where the bytes are
/// not one well-formed JSON document.
pub uninterp spec fn json_doc(bytes: Seq<u8>) -> Option<JsonValue>;

/// Relies on `serde_json::from_slice`: it returns `Ok` exactly when the bytes
/// are one well-formed JSON document, and then returns that document.
#[verifier::external_body]
fn json_from_slice(bytes: &[u8]) -> (r: Result<serde_json::Value, ()>)
    ensures
        r matches Ok(v) ==> json_doc(bytes@) == Some(value_model(v)),
        r is Err ==> json_doc(bytes@) is None,
{
    match serde_json::from_slice::<serde_json::Value>(bytes) {
        Ok(v) => Ok(v),
        Err(_) => Err(()),
    }
}

/// Relies on `serde_json::Value` being the public enum of the six JSON kinds,
/// and on `serde_json::Number::as_u64`: each variant is carried over to the
/// library's shape one for one, object fields in iteration order.
#[verifier::external_body]
fn value_to_json(v: &serde_json::Value) -> (r: JsonValue)
    ensures
        r == value_model(*v),
{
    match v {
        serde_json::Value::Null => JsonValue::Null,
        serde_json::Value::Bool(b) => JsonValue::Bool(*b),
        serde_json::Value::Number(n) => JsonValue::Num(n.as_u64()),
        serde_json::Value::String(s) => JsonValue::Str(s.clone()),
        serde_json::Value::Array(a) => JsonValue::Array(a.iter().map(value_to_json).collect()),
        serde_json::Value::Object(m) => JsonValue::Object(
            m.iter().map(|(k, w)| (k.clone(), value_to_json(w))).collect(),
        ),
    }
}

/// Parses one JSON document out of raw bytes, through the external parser.
pub fn parse_json(bytes: &[u8]) -> (r: Option<JsonValue>)
    ensures
        r == json_doc(bytes@),
{
    match json_from_slice(bytes) {
        Ok(v) => Some(value_to_json(&v)),
        Err(_) => None,
    }
}

/// The value under `key` in a field list: the first field of that name.
pub open spec fn spec_lookup(fields: Seq<(String, JsonValue)>, key: Seq<char>) -> Option<JsonValue>
    decreases fields.len(),
{
    if fields.len() == 0 {
        None
    } else if fields[0].0@ == key {
        Some(fields[0].1)
    } else {
        spec_lookup(fields.drop_first(), key)
    }
}

/// The value under `key` in a JSON object; `None` on any other JSON kind.
pub open spec fn spec_field(j: JsonValue, key: Seq<char>) -> Option<JsonValue> {
    match j {
        JsonValue::Object(fields) => spec_lookup(fields@, key),
        _ => None,
    }
}

/// The `u64` reading of a JSON number; `None` on any other kind.
pub open spec fn spec_as_u64(j: JsonValue) -> Option<u64> {
    match j {
        JsonValue::Num(n) => n,
        _ => None,
    }
}

/// The character content of a JSON string; `None` on any other kind.
pub open spec fn spec_as_text(j: JsonValue) -> Option<Seq<char>> {
    match j {
        JsonValue::Str(s) => Some(s@),
        _ => None,
    }
}

impl JsonValue {
    /// Looks `key` up in an object, as `spec_field` reads it.
    pub fn get<'a>(&'a self, key: &str) -> (r: Option<&'a JsonValue>)
        ensures
            match r {
                Some(v) => spec_field(*self, key@) == Some(*v),
                None => spec_field(*self, key@) is None,
            },
    {
        match self {
            JsonValue::Object(fields) => {
                let wanted: String = key.to_owned();
                let mut i: usize = 0;
                proof {
                    assert(fields@.skip(0) =~= fields@);
                }
                while i < fields.len()
                    invariant
                        0 <= i <= fields@.len(),
                        wanted@ == key@,
                        spec_field(*self, key@) == spec_lookup(fields@, key@),
                        spec_lookup(fields@, key@) == spec_lookup(fields@.skip(i as int), key@),
                        forall|k: int| 0 <= k < i ==> #[trigger] fields@[k].0@ != key@,
                    decreases fields@.len() - i,
                {
                    proof {
                        assert(fields@.skip(i as int)[0] == fields@[i as int]);
                        assert(fields@.skip(i as int).drop_first() =~= fields@.skip(i + 1));
                    }
                    if fields[i].0 == wanted {
                        proof {
                            assert(spec_lookup(fields@.skip(i as int), key@)
                                == Some(fields@[i as int].1));
                        }
                        return Some(&fields[i].1);
                    }
                    i = i + 1;
                }
                proof {
                    assert(fields@.skip(fields@.len() as int) =~= Seq::<(String,
                    JsonValue)>::empty());
                }
                None
            }
            _ => None,
        }
    }

    /// The `u64` reading of this value, as `spec_as_u64` reads it.
    pub fn as_u64(&self) -> (r: Option<u64>)
        ensures
            r == spec_as_u64(*self),
    {
        match self {
            JsonValue::Num(n) => *n,
            _ => None,
        }
    }

    /// The string content of this value, as `spec_as_text` reads it.
    pub fn as_text<'a>(&'a self) -> (r: Option<&'a String>)
        ensures
            match r {
                Some(s) => spec_as_text(*self) == Some(s@),
                None => spec_as_text(*self) is None,
            },
    {
        match self {
            JsonValue::Str(s) => Some(s),
            _ => None,
        }
    }
}

} // verus!
