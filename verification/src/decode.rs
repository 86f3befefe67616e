use vstd::prelude::*;
use vstd::string::StringExecFns;

use crate::codec::{b64_decode, b64_of};
use crate::errors::LogError;
use crate::json::{json_doc, parse_json, spec_as_text, spec_as_u64, spec_field, JsonValue};

verus! {

/// What the decoder hands the extraction step for one entry: the entry's log
/// index, its content hash in `<algorithm>:<value>` form, and the decoded
/// signing-certificate bytes (a PEM envelope).
pub struct ExtractionInput {
    pub log_index: u64,
    pub hash: String,
    pub cert_pem: Vec<u8>,
}

/// The mathematical content of an `ExtractionInput`.
pub struct ExtractionInputGhost {
    pub log_index: u64,
    pub hash: Seq<char>,
    pub cert_pem: Seq<u8>,
}

impl View for ExtractionInput {
    type V = ExtractionInputGhost;

    open spec fn view(&self) -> ExtractionInputGhost {
        ExtractionInputGhost {
            log_index: self.log_index,
            hash: self.hash@,
            cert_pem: self.cert_pem@,
        }
    }
}

/// The body of an envelope: an envelope is an object with exactly one
/// top-level key, whose value is the entry.
pub open spec fn spec_envelope_entry(envelope: JsonValue) -> Option<JsonValue> {
    match envelope {
        JsonValue::Object(fields) => if fields@.len() == 1 {
            Some(fields@[0].1)
        } else {
            None
        },
        _ => None,
    }
}

/// One step along a pointer path: a field of the value, if there is one.
pub open spec fn spec_step(j: Option<JsonValue>, key: Seq<char>) -> Option<JsonValue> {
    match j {
        Some(v) => spec_field(v, key),
        None => None,
    }
}

/// The string at the end of a pointer step, if the step lands on a string.
pub open spec fn spec_text_of(j: Option<JsonValue>) -> Option<Seq<char>> {
    match j {
        Some(v) => spec_as_text(v),
        None => None,
    }
}

/// The node at `/spec/data/hash` of a decoded body.
pub open spec fn spec_hash_node(body: JsonValue) -> Option<JsonValue> {
    spec_step(spec_step(spec_step(Some(body), "spec"@), "data"@), "hash"@)
}

/// The hash algorithm at `/spec/data/hash/algorithm`.
pub open spec fn spec_hash_algorithm(body: JsonValue) -> Option<Seq<char>> {
    spec_text_of(spec_step(spec_hash_node(body), "algorithm"@))
}

/// The hash value at `/spec/data/hash/value`.
pub open spec fn spec_hash_value(body: JsonValue) -> Option<Seq<char>> {
    spec_text_of(spec_step(spec_hash_node(body), "value"@))
}

/// The base64 certificate text at `/spec/signature/publicKey/content`.
pub open spec fn spec_key_content(body: JsonValue) -> Option<Seq<char>> {
    spec_text_of(
        spec_step(
            spec_step(spec_step(spec_step(Some(body), "spec"@), "signature"@), "publicKey"@),
            "content"@,
        ),
    )
}

/// What decoding an envelope yields: the extraction input, or
/// `MalformedEntry` as soon as one step fails — a non-single-key envelope, a
/// missing or non-integer log index, a body that is not base64 over JSON, a
/// missing hash or certificate field.
pub open spec fn spec_decode(envelope: JsonValue) -> Result<ExtractionInputGhost, LogError> {
    match spec_envelope_entry(envelope) {
        None => Err(LogError::MalformedEntry),
        Some(entry) => match spec_step(Some(entry), "logIndex"@) {
            None => Err(LogError::MalformedEntry),
            Some(idx_node) => match spec_as_u64(idx_node) {
                None => Err(LogError::MalformedEntry),
                Some(log_index) => match spec_text_of(spec_step(Some(entry), "body"@)) {
                    None => Err(LogError::MalformedEntry),
                    Some(body_text) => match b64_of(body_text) {
                        None => Err(LogError::MalformedEntry),
                        Some(body_bytes) => match json_doc(body_bytes) {
                            None => Err(LogError::MalformedEntry),
                            Some(body) => spec_decode_body(log_index, body),
                        },
                    },
                },
            },
        },
    }
}

/// The tail of `spec_decode`, once the body itself is decoded.
pub open spec fn spec_decode_body(log_index: u64, body: JsonValue) -> Result<
    ExtractionInputGhost,
    LogError,
> {
    match (spec_hash_algorithm(body), spec_hash_value(body), spec_key_content(body)) {
        (Some(algorithm), Some(value), Some(content)) => match b64_of(content) {
            Some(pem) => Ok(
                ExtractionInputGhost {
                    log_index,
                    hash: algorithm + seq![':'] + value,
                    cert_pem: pem,
                },
            ),
            None => Err(LogError::MalformedEntry),
        },
        _ => Err(LogError::MalformedEntry),
    }
}

/// An envelope whose `body` text is not valid base64 decodes to a
/// `MalformedEntry` failure and nothing else — and, by `process_batch`'s
/// contract, such a failure is this entry's alone: every other envelope of
/// the batch still gets its own outcome.
pub proof fn lemma_bad_base64_body_fails(envelope: JsonValue, entry: JsonValue, body: Seq<char>)
    requires
        spec_envelope_entry(envelope) == Some(entry),
        spec_text_of(spec_step(Some(entry), "body"@)) == Some(body),
        b64_of(body) is None,
    ensures
        spec_decode(envelope) == Err::<ExtractionInputGhost, LogError>(LogError::MalformedEntry),
{
}

/// The content hash in its output form: `<algorithm>:<value>`.
pub fn format_hash(algorithm: &str, value: &str) -> (r: String)
    ensures
        r@ == algorithm@ + seq![':'] + value@,
{
    let mut s: String = algorithm.to_owned();
    s.append(":");
    s.append(value);
    proof {
        reveal_strlit(":");
        assert(":"@ =~= seq![':']);
        assert(s@ =~= algorithm@ + seq![':'] + value@);
    }
    s
}

/// Decodes one entry envelope into the extraction input, exactly as
/// `spec_decode` reads it; every failure is `MalformedEntry`, to be reported
/// for this entry alone while the batch continues.
pub fn decode_entry(envelope: &JsonValue) -> (r: Result<ExtractionInput, LogError>)
    ensures
        r matches Ok(inp) ==> spec_decode(*envelope) == Ok::<ExtractionInputGhost, LogError>(
            inp@,
        ),
        r matches Err(e) ==> spec_decode(*envelope) == Err::<ExtractionInputGhost, LogError>(e),
{
    let entry: &JsonValue = match envelope {
        JsonValue::Object(fields) => {
            if fields.len() != 1 {
                return Err(LogError::MalformedEntry);
            }
            &fields[0].1
        }
        _ => {
            return Err(LogError::MalformedEntry);
        }
    };
    let log_index: u64 = match entry.get("logIndex") {
        Some(v) => match v.as_u64() {
            Some(n) => n,
            None => {
                return Err(LogError::MalformedEntry);
            }
        },
        None => {
            return Err(LogError::MalformedEntry);
        }
    };
    let body_text: &String = match entry.get("body") {
        Some(v) => match v.as_text() {
            Some(s) => s,
            None => {
                return Err(LogError::MalformedEntry);
            }
        },
        None => {
            return Err(LogError::MalformedEntry);
        }
    };
    let body_bytes: Vec<u8> = match b64_decode(body_text.as_str()) {
        Some(b) => b,
        None => {
            return Err(LogError::MalformedEntry);
        }
    };
    let body: JsonValue = match parse_json(body_bytes.as_slice()) {
        Some(j) => j,
        None => {
            return Err(LogError::MalformedEntry);
        }
    };
    let spec_node: &JsonValue = match body.get("spec") {
        Some(v) => v,
        None => {
            return Err(LogError::MalformedEntry);
        }
    };
    let hash_node: &JsonValue = match spec_node.get("data") {
        Some(v) => match v.get("hash") {
            Some(h) => h,
            None => {
                return Err(LogError::MalformedEntry);
            }
        },
        None => {
            return Err(LogError::MalformedEntry);
        }
    };
    let algorithm: &String = match hash_node.get("algorithm") {
        Some(v) => match v.as_text() {
            Some(s) => s,
            None => {
                return Err(LogError::MalformedEntry);
            }
        },
        None => {
            return Err(LogError::MalformedEntry);
        }
    };
    let value: &String = match hash_node.get("value") {
        Some(v) => match v.as_text() {
            Some(s) => s,
            None => {
                return Err(LogError::MalformedEntry);
            }
        },
        None => {
            return Err(LogError::MalformedEntry);
        }
    };
    let content: &String = match spec_node.get("signature") {
        Some(v) => match v.get("publicKey") {
            Some(k) => match k.get("content") {
                Some(c) => match c.as_text() {
                    Some(s) => s,
                    None => {
                        return Err(LogError::MalformedEntry);
                    }
                },
                None => {
                    return Err(LogError::MalformedEntry);
                }
            },
            None => {
                return Err(LogError::MalformedEntry);
            }
        },
        None => {
            return Err(LogError::MalformedEntry);
        }
    };
    let hash: String = format_hash(algorithm.as_str(), value.as_str());
    let cert_pem: Vec<u8> = match b64_decode(content.as_str()) {
        Some(b) => b,
        None => {
            return Err(LogError::MalformedEntry);
        }
    };
    Ok(ExtractionInput { log_index, hash, cert_pem })
}

} // verus!
