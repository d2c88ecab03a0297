use vstd::prelude::*;

use std::path::PathBuf;

use crate::prover::{
    find_available, first_available_from, BackendStep, Invocation, RunFailure, RunOutput,
    TheoremProver,
};
use crate::result::{ProofResult, ProofStatus};
use crate::text::{contains, has_substring, str_equals};

verus! {

/// The proposition, in Lean's syntax, that a statement is translated into, if any.
pub open spec fn lean_proposition(statement: Seq<char>) -> Option<Seq<char>> {
    if statement == "forall x. x = x"@ {
        Some("∀ (x : Nat), x = x"@)
    } else if has_substring(statement, "greater than"@) {
        Some("∀ (x : Nat), x > 0 → x > 0"@)
    } else {
        None
    }
}

/// The Lean source file that asks Lean to prove `proposition`.
pub open spec fn lean_source(proposition: Seq<char>) -> Seq<char> {
    "import Lean.Elab.Tactic\n\ntheorem test_theorem : "@ + proposition + " := by\n  trivial\n"@
}

/// The normalised reading of a Lean run: exit success proves the theorem; otherwise an
/// `error` marker on stderr means the goal is not provable, and anything else is a failure.
pub open spec fn lean_verdict(output: RunOutput) -> (ProofStatus, Seq<char>) {
    if output.success {
        (ProofStatus::Proven, "Theorem proved by Lean"@)
    } else if has_substring(output.stderr@, "error"@) {
        (ProofStatus::Disproven, "Theorem not provable: "@ + output.stderr@)
    } else {
        (ProofStatus::Error, "Lean error: "@ + output.stderr@)
    }
}

/// Lean's first decision on `statement`: unavailable, it fails; with no translation, the
/// statement is undecidable and nothing is run; otherwise the translated source is run.
pub open spec fn lean_step(statement: Seq<char>, available: bool, r: BackendStep) -> bool {
    if !available {
        r matches BackendStep::Finished(Err(e)) && e@ == "Lean is not available on this system"@
    } else {
        match lean_proposition(statement) {
            None => r matches BackendStep::Finished(Ok(res)) && res.describes(
                ProofStatus::Undecidable,
                "Cannot translate statement to Lean: "@ + statement,
                "lean4"@,
            ),
            Some(p) => r matches BackendStep::Run(inv) && inv.file_name@ == "lean_theorem.lean"@
                && inv.query@ == lean_source(p),
        }
    }
}

/// What Lean makes of the outcome of a run.
pub open spec fn lean_conclusion(outcome: Result<RunOutput, RunFailure>, r: Result<ProofResult, String>) -> bool {
    match outcome {
        Ok(output) => r matches Ok(res) && res.describes(
            lean_verdict(output).0,
            lean_verdict(output).1,
            "lean4"@,
        ),
        Err(RunFailure::TempFileWrite(e)) => r matches Err(m) && m@ == "Failed to write Lean file: "@ + e@,
        Err(RunFailure::Spawn(e)) => r matches Err(m) && m@ == "Failed to execute Lean: "@ + e@,
    }
}

/// A prover backed by the Lean 4 theorem prover.
pub struct LeanProver {
    pub executable_path: PathBuf,
}

impl LeanProver {
    pub fn new(executable_path: PathBuf) -> (r: Self)
        ensures
            r.executable_path == executable_path,
    {
        LeanProver { executable_path }
    }

    /// The conventional installation locations, in the order they are probed.
    pub fn default_candidates() -> (r: Vec<String>)
        ensures
            r@.len() == 3,
            r@[0]@ == "/usr/bin/lean"@,
            r@[1]@ == "/usr/local/bin/lean"@,
            r@[2]@ == "C:\\Program Files\\Lean\\bin\\lean.exe"@,
    {
        let mut v: Vec<String> = Vec::new();
        v.push("/usr/bin/lean".to_owned());
        v.push("/usr/local/bin/lean".to_owned());
        v.push("C:\\Program Files\\Lean\\bin\\lean.exe".to_owned());
        v
    }

    /// A prover on the first candidate location found available (`available[i]` tells of
    /// `candidates[i]`), or `None` when there is none.
    pub fn auto_detect(candidates: Vec<PathBuf>, available: &Vec<bool>) -> (r: Option<Self>)
        ensures
            match first_available_from(available@, candidates@.len() as int, 0) {
                Some(i) => r == Some(LeanProver { executable_path: candidates@[i] }),
                None => r is None,
            },
    {
        let mut candidates = candidates;
        match find_available(available, candidates.len(), 0) {
            Some(i) => {
                let path = candidates.swap_remove(i);
                Some(LeanProver::new(path))
            },
            None => None,
        }
    }

    /// The Lean source for `statement`, or `None` when it cannot be translated.
    pub fn translate(statement: &str) -> (r: Option<String>)
        ensures
            match lean_proposition(statement@) {
                Some(p) => r matches Some(src) && src@ == lean_source(p),
                None => r is None,
            },
    {
        let proposition = if str_equals(statement, "forall x. x = x") {
            "∀ (x : Nat), x = x"
        } else if contains(statement, "greater than") {
            "∀ (x : Nat), x > 0 → x > 0"
        } else {
            return None;
        };
        let mut source = "import Lean.Elab.Tactic\n\ntheorem test_theorem : ".to_owned();
        source.append(proposition);
        source.append(" := by\n  trivial\n");
        Some(source)
    }

    /// Normalises the outcome of running Lean on a translated statement.
    pub fn interpret(&self, output: RunOutput) -> (r: ProofResult)
        ensures
            r.describes(lean_verdict(output).0, lean_verdict(output).1, "lean4"@),
    {
        let prover = "lean4".to_owned();
        if output.success {
            ProofResult::new(ProofStatus::Proven, "Theorem proved by Lean".to_owned(), prover)
        } else if contains(output.stderr.as_str(), "error") {
            let mut message = "Theorem not provable: ".to_owned();
            message.append(output.stderr.as_str());
            ProofResult::new(ProofStatus::Disproven, message, prover)
        } else {
            let mut message = "Lean error: ".to_owned();
            message.append(output.stderr.as_str());
            ProofResult::new(ProofStatus::Error, message, prover)
        }
    }
}

impl TheoremProver for LeanProver {
    open spec fn prover_name(&self) -> Seq<char> {
        "lean4"@
    }

    fn name(&self) -> (r: &str) {
        "lean4"
    }

    fn start(&self, statement: &str, available: bool) -> (r: BackendStep)
        ensures
            lean_step(statement@, available, r),
    {
        if !available {
            return BackendStep::Finished(Err("Lean is not available on this system".to_owned()));
        }
        match LeanProver::translate(statement) {
            Some(query) => BackendStep::Run(Invocation { file_name: "lean_theorem.lean".to_owned(), query }),
            None => {
                let mut message = "Cannot translate statement to Lean: ".to_owned();
                message.append(statement);
                BackendStep::Finished(Ok(ProofResult::new(ProofStatus::Undecidable, message, "lean4".to_owned())))
            },
        }
    }

    fn conclude(&self, outcome: Result<RunOutput, RunFailure>) -> (r: Result<ProofResult, String>)
        ensures
            lean_conclusion(outcome, r),
    {
        match outcome {
            Ok(output) => Ok(self.interpret(output)),
            Err(RunFailure::TempFileWrite(e)) => {
                let mut m = "Failed to write Lean file: ".to_owned();
                m.append(e.as_str());
                Err(m)
            },
            Err(RunFailure::Spawn(e)) => {
                let mut m = "Failed to execute Lean: ".to_owned();
                m.append(e.as_str());
                Err(m)
            },
        }
    }
}

} // verus!
