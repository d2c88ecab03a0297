use vstd::prelude::*;

use std::path::PathBuf;

use crate::prover::{
    find_available, first_available_from, BackendStep, Invocation, RunFailure, RunOutput,
    TheoremProver,
};
use crate::result::{ProofResult, ProofStatus};
use crate::text::{contains, has_substring, str_equals, trim, trimmed};

verus! {

/// The SMT-LIB2 assertion a statement is translated into. A statement with no known
/// translation becomes the vacuous `(assert true)`, so the solver is still run on it.
pub open spec fn smt_assertion(statement: Seq<char>) -> Seq<char> {
    if statement == "forall x. x = x"@ {
        "(assert (= x x))\n"@
    } else if has_substring(statement, "greater than"@) {
        "(assert (> x 0))\n"@
    } else {
        "(assert true)\n"@
    }
}

/// The SMT-LIB2 script sent to the solver for `statement`.
pub open spec fn smt_query(statement: Seq<char>) -> Seq<char> {
    "(set-logic QF_UF)\n(declare-const x Int)\n"@ + smt_assertion(statement) + "(check-sat)\n"@
}

/// The normalised reading of the solver's trimmed standard output.
pub open spec fn z3_verdict(answer: Seq<char>) -> (ProofStatus, Seq<char>) {
    if answer == "sat"@ {
        (ProofStatus::Proven, "Statement is satisfiable"@)
    } else if answer == "unsat"@ {
        (ProofStatus::Disproven, "Statement is unsatisfiable"@)
    } else if answer == "unknown"@ {
        (ProofStatus::Undecidable, "Z3 could not determine satisfiability"@)
    } else {
        (ProofStatus::Error, "Unexpected Z3 output: "@ + answer)
    }
}

/// Z3's first decision on `statement`: unavailable, it fails; otherwise the query is run.
pub open spec fn z3_step(statement: Seq<char>, available: bool, r: BackendStep) -> bool {
    if !available {
        r matches BackendStep::Finished(Err(e)) && e@ == "Z3 is not available on this system"@
    } else {
        r matches BackendStep::Run(inv) && inv.file_name@ == "z3_query.smt2"@ && inv.query@
            == smt_query(statement)
    }
}

/// What Z3 makes of the outcome of a run.
pub open spec fn z3_conclusion(outcome: Result<RunOutput, RunFailure>, r: Result<ProofResult, String>) -> bool {
    match outcome {
        Ok(output) => r matches Ok(res) && res.describes(
            z3_verdict(trimmed(output.stdout@)).0,
            z3_verdict(trimmed(output.stdout@)).1,
            "z3"@,
        ),
        Err(RunFailure::TempFileWrite(e)) => r matches Err(m) && m@ == "Failed to write Z3 query: "@ + e@,
        Err(RunFailure::Spawn(e)) => r matches Err(m) && m@ == "Failed to execute Z3: "@ + e@,
    }
}

/// A prover backed by the Z3 SMT solver.
pub struct Z3Prover {
    pub executable_path: PathBuf,
}

impl Z3Prover {
    pub fn new(executable_path: PathBuf) -> (r: Self)
        ensures
            r.executable_path == executable_path,
    {
        Z3Prover { executable_path }
    }

    /// The conventional installation locations, in the order they are probed.
    pub fn default_candidates() -> (r: Vec<String>)
        ensures
            r@.len() == 3,
            r@[0]@ == "/usr/bin/z3"@,
            r@[1]@ == "/usr/local/bin/z3"@,
            r@[2]@ == "C:\\Program Files\\Z3\\bin\\z3.exe"@,
    {
        let mut v: Vec<String> = Vec::new();
        v.push("/usr/bin/z3".to_owned());
        v.push("/usr/local/bin/z3".to_owned());
        v.push("C:\\Program Files\\Z3\\bin\\z3.exe".to_owned());
        v
    }

    /// A prover on the first candidate location found available (`available[i]` tells of
    /// `candidates[i]`), or `None` when there is none.
    pub fn auto_detect(candidates: Vec<PathBuf>, available: &Vec<bool>) -> (r: Option<Self>)
        ensures
            match first_available_from(available@, candidates@.len() as int, 0) {
                Some(i) => r == Some(Z3Prover { executable_path: candidates@[i] }),
                None => r is None,
            },
    {
        let mut candidates = candidates;
        match find_available(available, candidates.len(), 0) {
            Some(i) => {
                let path = candidates.swap_remove(i);
                Some(Z3Prover::new(path))
            },
            None => None,
        }
    }

    /// The SMT-LIB2 query for `statement`.
    pub fn translate(statement: &str) -> (r: String)
        ensures
            r@ == smt_query(statement@),
    {
        let assertion = if str_equals(statement, "forall x. x = x") {
            "(assert (= x x))\n"
        } else if contains(statement, "greater than") {
            "(assert (> x 0))\n"
        } else {
            "(assert true)\n"
        };
        let mut query = "(set-logic QF_UF)\n(declare-const x Int)\n".to_owned();
        query.append(assertion);
        query.append("(check-sat)\n");
        query
    }

    /// Classifies the solver's standard output once leading and trailing white space is gone.
    pub fn classify_answer(&self, answer: &str) -> (r: ProofResult)
        ensures
            r.describes(z3_verdict(answer@).0, z3_verdict(answer@).1, "z3"@),
    {
        let prover = "z3".to_owned();
        if str_equals(answer, "sat") {
            ProofResult::new(ProofStatus::Proven, "Statement is satisfiable".to_owned(), prover)
        } else if str_equals(answer, "unsat") {
            ProofResult::new(ProofStatus::Disproven, "Statement is unsatisfiable".to_owned(), prover)
        } else if str_equals(answer, "unknown") {
            ProofResult::new(
                ProofStatus::Undecidable,
                "Z3 could not determine satisfiability".to_owned(),
                prover,
            )
        } else {
            let mut message = "Unexpected Z3 output: ".to_owned();
            message.append(answer);
            ProofResult::new(ProofStatus::Error, message, prover)
        }
    }

    /// Normalises the outcome of running the solver; only its standard output is read.
    pub fn interpret(&self, output: RunOutput) -> (r: ProofResult)
        ensures
            r.describes(
                z3_verdict(trimmed(output.stdout@)).0,
                z3_verdict(trimmed(output.stdout@)).1,
                "z3"@,
            ),
    {
        self.classify_answer(trim(output.stdout.as_str()))
    }
}

impl TheoremProver for Z3Prover {
    open spec fn prover_name(&self) -> Seq<char> {
        "z3"@
    }

    fn name(&self) -> (r: &str) {
        "z3"
    }

    fn start(&self, statement: &str, available: bool) -> (r: BackendStep)
        ensures
            z3_step(statement@, available, r),
    {
        if !available {
            return BackendStep::Finished(Err("Z3 is not available on this system".to_owned()));
        }
        let query = Z3Prover::translate(statement);
        BackendStep::Run(Invocation { file_name: "z3_query.smt2".to_owned(), query })
    }

    fn conclude(&self, outcome: Result<RunOutput, RunFailure>) -> (r: Result<ProofResult, String>)
        ensures
            z3_conclusion(outcome, r),
    {
        match outcome {
            Ok(output) => Ok(self.interpret(output)),
            Err(RunFailure::TempFileWrite(e)) => {
                let mut m = "Failed to write Z3 query: ".to_owned();
                m.append(e.as_str());
                Err(m)
            },
            Err(RunFailure::Spawn(e)) => {
                let mut m = "Failed to execute Z3: ".to_owned();
                m.append(e.as_str());
                Err(m)
            },
        }
    }
}

} // verus!
