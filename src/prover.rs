use vstd::prelude::*;

use crate::result::ProofResult;

verus! {

/// Declares std's `PathBuf` so that provers can hold their executable's location. The
/// library only carries such values to the host; it never looks inside them.
#[verifier::external_type_specification]
#[verifier::external_body]
pub struct ExPathBuf(std::path::PathBuf);

/// What the host observed when it ran a prover's executable on a query file.
pub struct RunOutput {
    /// Whether the process exited with a success status.
    pub success: bool,
    pub stdout: String,
    pub stderr: String,
}

/// How a run failed before the executable produced any output. Each variant holds the
/// operating system's reason.
pub enum RunFailure {
    /// The query file could not be written to the scratch location.
    TempFileWrite(String),
    /// The executable could not be started.
    Spawn(String),
}

/// A query file to be written to the scratch location and handed to the executable as its
/// sole argument.
pub struct Invocation {
    pub file_name: String,
    pub query: String,
}

/// What a prover decides for one statement before anything is run.
pub enum BackendStep {
    /// The verification is over; the executable is not run.
    Finished(Result<ProofResult, String>),
    /// The host runs the executable on this query and reports back through `conclude`.
    Run(Invocation),
}

/// The capability shared by every prover: a name, a decision on how to check a statement,
/// and the normalisation of what the executable reported.
pub trait TheoremProver {
    /// The prover's stable, non-empty identifier.
    spec fn prover_name(&self) -> Seq<char>;

    fn name(&self) -> (r: &str)
        ensures
            r@ == self.prover_name(),
    ;

    /// Decides how to check `statement`, given whether the executable is available. An
    /// unavailable prover fails at once and runs nothing; an available one never fails here.
    fn start(&self, statement: &str, available: bool) -> (r: BackendStep)
        ensures
            (r matches BackendStep::Finished(Err(_))) <==> !available,
            r matches BackendStep::Finished(Ok(res)) ==> res.prover@ == self.prover_name(),
    ;

    /// Turns the outcome of a run into a result; only a failure to run is an error.
    fn conclude(&self, outcome: Result<RunOutput, RunFailure>) -> (r: Result<ProofResult, String>)
        ensures
            r is Err <==> outcome is Err,
            r matches Ok(res) ==> res.prover@ == self.prover_name(),
    ;
}

/// Whether a Unix permission mode lets anyone (owner, group or others) execute the file.
pub fn permits_execution(mode: u32) -> (r: bool)
    ensures
        r == (mode & 0o111u32 != 0),
{
    mode & 0o111 != 0
}

/// Index of the first available entry at or after `from`, among the first `n`.
pub open spec fn first_available_from(available: Seq<bool>, n: int, from: int) -> Option<int>
    decreases n - from,
{
    if from < 0 || from >= n {
        None
    } else if from < available.len() && available[from] {
        Some(from)
    } else {
        first_available_from(available, n, from + 1)
    }
}

/// Finds the first available entry at or after `from`, among the first `n`.
pub(crate) fn find_available(available: &Vec<bool>, n: usize, from: usize) -> (r: Option<usize>)
    ensures
        r matches Some(i) ==> from <= i < n
            && first_available_from(available@, n as int, from as int) == Some(i as int),
        r is None ==> first_available_from(available@, n as int, from as int) is None,
{
    let mut i = from;
    while i < n
        invariant
            from <= i,
            first_available_from(available@, n as int, from as int)
                == first_available_from(available@, n as int, i as int),
        decreases n - i,
    {
        if i < available.len() && available[i] {
            return Some(i);
        }
        i = i + 1;
    }
    None
}

} // verus!
