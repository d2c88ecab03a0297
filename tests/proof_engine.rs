use std::cell::Cell;
use std::path::{Path, PathBuf};

use fractal_amadeus::{
    BackendStep, EngineStep, LeanProver, ProofEngine, ProofResult, ProofStatus, Prover,
    RunOutput, TheoremProver, Z3Prover,
};

// A stand-in for the executables: it reports every prover as available and answers each run
// with the same output, counting the runs.
struct StubHost {
    available: bool,
    output: RunOutput,
    runs: Cell<usize>,
}

impl StubHost {
    fn printing(stdout: &str) -> Self {
        StubHost {
            available: true,
            output: RunOutput { success: true, stdout: stdout.to_string(), stderr: String::new() },
            runs: Cell::new(0),
        }
    }

    fn exiting(success: bool, stderr: &str) -> Self {
        StubHost {
            available: true,
            output: RunOutput { success, stdout: String::new(), stderr: stderr.to_string() },
            runs: Cell::new(0),
        }
    }

    fn output(&self) -> RunOutput {
        RunOutput {
            success: self.output.success,
            stdout: self.output.stdout.clone(),
            stderr: self.output.stderr.clone(),
        }
    }

    fn run<P: TheoremProver>(&self, prover: &P, statement: &str) -> Result<ProofResult, String> {
        match prover.start(statement, self.available) {
            BackendStep::Finished(outcome) => outcome,
            BackendStep::Run(_) => {
                self.runs.set(self.runs.get() + 1);
                prover.conclude(Ok(self.output()))
            }
        }
    }

    fn availability(&self, engine: &ProofEngine) -> Vec<bool> {
        engine.provers.iter().map(|_| self.available).collect()
    }

    fn verify_statement(
        &self,
        engine: &mut ProofEngine,
        statement: &str,
        prover_name: Option<&str>,
    ) -> Result<ProofResult, String> {
        let available = self.availability(engine);
        match engine.verify_statement(statement, prover_name, &available) {
            EngineStep::Done(outcome) => outcome,
            EngineStep::Invoke(i) => {
                let outcome = self.run(&engine.provers[i], statement);
                engine.record(statement, outcome)
            }
        }
    }

    fn verify_with_any_prover(
        &self,
        engine: &mut ProofEngine,
        statement: &str,
    ) -> Result<ProofResult, String> {
        let available = self.availability(engine);
        let mut step = engine.verify_with_any_prover(statement, &available);
        loop {
            match step {
                EngineStep::Done(outcome) => return outcome,
                EngineStep::Invoke(i) => {
                    let outcome = self.run(&engine.provers[i], statement);
                    step = engine.after_attempt(statement, &available, i, outcome);
                }
            }
        }
    }
}

fn probe(path: &PathBuf) -> bool {
    Path::new(path).exists()
}

fn lean(path: &str) -> LeanProver {
    LeanProver::new(PathBuf::from(path))
}

fn z3(path: &str) -> Z3Prover {
    Z3Prover::new(PathBuf::from(path))
}

fn mock_result() -> ProofResult {
    ProofResult {
        status: ProofStatus::Proven,
        message: "Mock proof".to_string(),
        timestamp: "2024-01-01T00:00:00+00:00".to_string(),
        prover: "mock".to_string(),
    }
}

#[test]
fn test_proof_engine_initialization() {
    let engine = ProofEngine::new();

    assert_eq!(engine.provers.len(), 0);
    assert_eq!(engine.proof_cache.len(), 0);
}

#[test]
fn test_add_prover() {
    let mut engine = ProofEngine::new();
    let prover = Prover::Lean(LeanProver::new(PathBuf::from("/usr/bin/lean")));

    engine.add_prover(prover);

    assert_eq!(engine.provers.len(), 1);
    assert_eq!(engine.provers[0].name(), "lean4");
}

#[test]
fn test_proof_caching() {
    let mut engine = ProofEngine::new();
    let host = StubHost::printing("sat");
    engine.add_prover(Prover::Z3(Z3Prover::new(PathBuf::from("/usr/bin/z3"))));

    let statement = "forall x. x = x";

    let first_result = host.verify_statement(&mut engine, statement, Some("z3"));
    assert!(first_result.is_ok());

    assert_eq!(engine.proof_cache.len(), 1);

    let second_result = host.verify_statement(&mut engine, statement, Some("z3"));
    assert!(second_result.is_ok());

    assert_eq!(first_result.unwrap().status, second_result.unwrap().status);
}

#[test]
fn test_z3_prover_construction() {
    let prover = Z3Prover::new(PathBuf::from("/usr/bin/z3"));

    assert_eq!(prover.executable_path, PathBuf::from("/usr/bin/z3"));
}

#[test]
fn test_auto_detection() {
    let candidates: Vec<PathBuf> =
        Z3Prover::default_candidates().iter().map(PathBuf::from).collect();
    let available: Vec<bool> = candidates.iter().map(probe).collect();
    if let Some(prover) = Z3Prover::auto_detect(candidates, &available) {
        assert!(probe(&prover.executable_path));
        assert_eq!(prover.name(), "z3");
    }
}

#[test]
fn test_z3_prover_different_statements() {
    let host = StubHost::printing("sat\n");
    let prover = z3("/stub/z3");

    let result1 = host.run(&prover, "forall x. x = x").unwrap();
    assert_eq!(result1.status, ProofStatus::Proven);

    let result2 = host.run(&prover, "x greater than 0").unwrap();
    assert_eq!(result2.status, ProofStatus::Proven);

    let result3 = host.run(&prover, "some random statement").unwrap();
    assert_eq!(result3.status, ProofStatus::Proven);
}

#[test]
fn test_proof_engine_error_handling() {
    let engine = ProofEngine::new();
    let none: Vec<bool> = Vec::new();

    let result1 = engine.verify_statement("forall x. x = x", None, &none);
    match result1 {
        EngineStep::Done(Err(e)) => assert_eq!(e, "No available provers found"),
        _ => panic!("expected an error"),
    }

    let result2 = engine.verify_statement("forall x. x = x", Some("nonexistent_prover"), &none);
    match result2 {
        EngineStep::Done(Err(e)) => assert!(e.contains("not found")),
        _ => panic!("expected an error"),
    }

    let result3 = engine.verify_with_any_prover("forall x. x = x", &none);
    match result3 {
        EngineStep::Done(Err(e)) => assert_eq!(e, "No available theorem provers found"),
        _ => panic!("expected an error"),
    }
}

#[test]
fn test_lean_prover_unavailable() {
    let prover = lean("/nonexistent/path/to/lean");
    assert!(!probe(&prover.executable_path));

    let result = prover.start("forall x. x = x", probe(&prover.executable_path));
    match result {
        BackendStep::Finished(Err(e)) => assert_eq!(e, "Lean is not available on this system"),
        _ => panic!("expected an error"),
    }
}

#[test]
fn test_z3_prover_error_handling() {
    let prover = z3("/nonexistent/path/to/z3");
    assert!(!probe(&prover.executable_path));

    let result = prover.start("forall x. x = x", probe(&prover.executable_path));
    match result {
        BackendStep::Finished(Err(e)) => assert_eq!(e, "Z3 is not available on this system"),
        _ => panic!("expected an error"),
    }
}

#[test]
fn test_proof_engine_extensive_caching() {
    let mut engine = ProofEngine::new();
    engine.add_prover(Prover::Z3(z3("/stub/z3")));
    let calls = Cell::new(0usize);
    let all = vec![true];

    // The host answers every invocation with the mock result and counts the invocations.
    let verify_named = |engine: &mut ProofEngine, statement: &str| {
        match engine.verify_statement(statement, Some("z3"), &all) {
            EngineStep::Done(outcome) => outcome,
            EngineStep::Invoke(_) => {
                calls.set(calls.get() + 1);
                engine.record(statement, Ok(mock_result()))
            }
        }
    };

    let result1 = verify_named(&mut engine, "test statement").unwrap();
    assert_eq!(result1.status, ProofStatus::Proven);
    assert_eq!(calls.get(), 1);

    let result2 = verify_named(&mut engine, "test statement").unwrap();
    assert_eq!(result2.status, ProofStatus::Proven);
    assert_eq!(calls.get(), 1);

    let verify_any = |engine: &mut ProofEngine, statement: &str| {
        let mut step = engine.verify_with_any_prover(statement, &all);
        loop {
            match step {
                EngineStep::Done(outcome) => return outcome,
                EngineStep::Invoke(i) => {
                    calls.set(calls.get() + 1);
                    step = engine.after_attempt(statement, &all, i, Ok(mock_result()));
                }
            }
        }
    };

    let result3 = verify_any(&mut engine, "test statement").unwrap();
    assert_eq!(result3.status, ProofStatus::Proven);
    assert_eq!(calls.get(), 1);

    let cached = engine.get_cached_proof("test statement");
    assert!(cached.is_some());
    assert_eq!(cached.unwrap().status, ProofStatus::Proven);

    let result4 = verify_any(&mut engine, "new statement").unwrap();
    assert_eq!(result4.status, ProofStatus::Proven);
    assert_eq!(calls.get(), 2);
}

#[test]
fn test_lean_prover_different_statements() {
    let host = StubHost::exiting(true, "");
    let prover = lean("/stub/lean");

    let result1 = host.run(&prover, "forall x. x = x").unwrap();
    assert_eq!(result1.status, ProofStatus::Proven);

    let result2 = host.run(&prover, "x greater than 0").unwrap();
    assert_eq!(result2.status, ProofStatus::Proven);

    let result3 = host.run(&prover, "some random statement").unwrap();
    assert_eq!(result3.status, ProofStatus::Undecidable);
}

#[test]
fn test_with_auto_detected_provers() {
    let z3_candidates: Vec<PathBuf> =
        Z3Prover::default_candidates().iter().map(PathBuf::from).collect();
    let z3_available: Vec<bool> = z3_candidates.iter().map(probe).collect();
    let lean_candidates: Vec<PathBuf> =
        LeanProver::default_candidates().iter().map(PathBuf::from).collect();
    let lean_available: Vec<bool> = lean_candidates.iter().map(probe).collect();

    let engine = ProofEngine::with_auto_detected_provers(
        Z3Prover::auto_detect(z3_candidates, &z3_available),
        LeanProver::auto_detect(lean_candidates, &lean_available),
    );

    if !engine.provers.is_empty() {
        println!("Detected {} provers", engine.provers.len());
        for prover in &engine.provers {
            println!("Found prover: {}", prover.name());
        }
    } else {
        println!("No provers detected in test environment");
    }
}

#[test]
fn stub_executable_runs_once_for_a_repeated_statement() {
    let mut engine = ProofEngine::new();
    let host = StubHost::printing("unsat");
    engine.add_prover(Prover::Z3(z3("/stub/z3")));

    let first = host.verify_with_any_prover(&mut engine, "x greater than 0").unwrap();
    assert_eq!(first.status, ProofStatus::Disproven);
    assert_eq!(host.runs.get(), 1);

    let second = host.verify_statement(&mut engine, "x greater than 0", Some("z3")).unwrap();
    let third = host.verify_with_any_prover(&mut engine, "x greater than 0").unwrap();
    assert_eq!(host.runs.get(), 1);
    assert_eq!(second.timestamp, first.timestamp);
    assert_eq!(third.message, first.message);
}

#[test]
fn lean_never_runs_on_an_untranslatable_statement() {
    let mut engine = ProofEngine::new();
    let host = StubHost::exiting(true, "");
    engine.add_prover(Prover::Lean(lean("/stub/lean")));

    let r = host.verify_statement(&mut engine, "some unrelated statement", None).unwrap();
    assert_eq!(r.status, ProofStatus::Undecidable);
    assert!(r.message.contains("some unrelated statement"));
    assert_eq!(host.runs.get(), 0);
}

#[test]
fn unavailable_prover_error_is_not_cached() {
    let mut engine = ProofEngine::new();
    let mut host = StubHost::printing("sat");
    host.available = false;
    engine.add_prover(Prover::Z3(z3("/missing/z3")));

    let e = host.verify_statement(&mut engine, "s", Some("z3")).unwrap_err();
    assert_eq!(e, "Z3 is not available on this system");
    assert_eq!(host.runs.get(), 0);
    assert!(engine.get_cached_proof("s").is_none());

    let e = host.verify_with_any_prover(&mut engine, "s").unwrap_err();
    assert_eq!(e, "No available theorem provers found");
}
