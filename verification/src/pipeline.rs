use vstd::prelude::*;

use crate::decode::{decode_entry, spec_decode};
use crate::errors::LogError;
use crate::extract::{extract, spec_extract, ExtractOutcome, OutcomeGhost};
use crate::json::JsonValue;

verus! {

/// What the whole pipeline yields for one envelope: the decoder's failure,
/// or whatever extraction makes of the decoded input.
pub open spec fn spec_entry_outcome(envelope: JsonValue) -> OutcomeGhost {
    match spec_decode(envelope) {
        Err(e) => OutcomeGhost::Failed(e),
        Ok(input) => spec_extract(input.log_index, input.hash, input.cert_pem),
    }
}

/// Runs one envelope through decoding and extraction, exactly as
/// `spec_entry_outcome` states it.
pub fn process_entry(envelope: &JsonValue) -> (r: ExtractOutcome)
    ensures
        r@ == spec_entry_outcome(*envelope),
{
    match decode_entry(envelope) {
        Err(e) => ExtractOutcome::Failed(e),
        Ok(input) => extract(input.log_index, input.hash, &input.cert_pem),
    }
}

/// The entry list of a batch response, which must be a JSON array; anything
/// else violates the log's contract.
pub fn entries_of_response<'a>(resp: &'a JsonValue) -> (r: Result<&'a Vec<JsonValue>, LogError>)
    ensures
        r matches Ok(v) ==> *resp == JsonValue::Array(*v),
        r matches Err(e) ==> e == LogError::Schema && !(*resp is Array),
{
    match resp {
        JsonValue::Array(a) => Ok(a),
        _ => Err(LogError::Schema),
    }
}

/// Processes every envelope of a batch, in order, each in isolation: one
/// entry's failure never touches the outcome of any other, and the batch
/// always yields exactly one outcome per envelope.
pub fn process_batch(entries: &Vec<JsonValue>) -> (r: Vec<ExtractOutcome>)
    ensures
        r@.len() == entries@.len(),
        forall|k: int|
            0 <= k < entries@.len() ==> (#[trigger] r@[k])@ == spec_entry_outcome(entries@[k]),
{
    let mut out: Vec<ExtractOutcome> = Vec::new();
    let mut i: usize = 0;
    while i < entries.len()
        invariant
            0 <= i <= entries@.len(),
            out@.len() == i,
            forall|k: int|
                0 <= k < i ==> (#[trigger] out@[k])@ == spec_entry_outcome(entries@[k]),
        decreases entries@.len() - i,
    {
        let outcome = process_entry(&entries[i]);
        out.push(outcome);
        i = i + 1;
    }
    out
}

} // verus!
