use vstd::prelude::*;

verus! {

/// The pipeline's error taxonomy. `Network`, `Schema` and `Emit` are fatal to
/// the run; `MalformedEntry` and `CertificateParse` are isolated per entry:
/// the offending entry is reported and skipped, and the batch continues.
#[derive(Clone, Copy, Debug, PartialEq, Eq, Structural)]
pub enum LogError {
    /// Transport or HTTP failure on the size query or the batch fetch.
    Network,
    /// A response whose shape violates the log's contract.
    Schema,
    /// A per-entry decode failure: bad base64, bad JSON, a missing field,
    /// or an envelope that is not a single-key object.
    MalformedEntry,
    /// A PEM or certificate-structure decode failure for one entry.
    CertificateParse,
    /// A failure writing a record to the output boundary.
    Emit,
}

/// What `describe` returns for each variant.
pub open spec fn spec_describe(e: LogError) -> Seq<char> {
    match e {
        LogError::Network => "network failure"@,
        LogError::Schema => "response shape violates the log contract"@,
        LogError::MalformedEntry => "malformed entry"@,
        LogError::CertificateParse => "certificate decode failure"@,
        LogError::Emit => "output failure"@,
    }
}

impl LogError {
    /// A short description of the error, for diagnostics.
    pub fn describe(&self) -> (r: &'static str)
        ensures
            r@ == spec_describe(*self),
    {
        match self {
            LogError::Network => "network failure",
            LogError::Schema => "response shape violates the log contract",
            LogError::MalformedEntry => "malformed entry",
            LogError::CertificateParse => "certificate decode failure",
            LogError::Emit => "output failure",
        }
    }
}

} // verus!
