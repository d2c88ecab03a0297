use vstd::prelude::*;

verus! {

/// The common outcome taxonomy that every prover's output is normalised into.
#[derive(Debug, Clone, Copy, PartialEq, Eq, Structural)]
pub enum ProofStatus {
    Proven,
    Disproven,
    Undecidable,
    /// Reserved for provers that answer asynchronously; no current prover produces it.
    InProgress,
    Error,
}

/// One verification outcome, tagged with the prover that produced it.
#[derive(Debug, Clone)]
pub struct ProofResult {
    pub status: ProofStatus,
    pub message: String,
    pub timestamp: String,
    pub prover: String,
}

/// Relies on chrono's `Utc::now` and `DateTime::to_rfc3339`: the current UTC time as RFC 3339
/// text. The value depends on the clock, so nothing is stated about it. (`Utc::now` panics
/// only when the system clock reads a time before the Unix epoch.)
#[verifier::external_body]
fn now_rfc3339() -> String {
    chrono::Utc::now().to_rfc3339()
}

impl ProofResult {
    /// Whether this result carries the given status, message and prover name (any timestamp).
    pub open spec fn describes(&self, status: ProofStatus, message: Seq<char>, prover: Seq<char>) -> bool {
        &&& self.status == status
        &&& self.message@ == message
        &&& self.prover@ == prover
    }

    /// A result stamped with the current time.
    pub fn new(status: ProofStatus, message: String, prover: String) -> (r: ProofResult)
        ensures
            r.describes(status, message@, prover@),
    {
        ProofResult { status, message, timestamp: now_rfc3339(), prover }
    }

    /// A field-by-field copy.
    pub fn duplicate(&self) -> (r: ProofResult)
        ensures
            r == *self,
    {
        ProofResult {
            status: self.status,
            message: self.message.clone(),
            timestamp: self.timestamp.clone(),
            prover: self.prover.clone(),
        }
    }
}

} // verus!
