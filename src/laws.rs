use vstd::prelude::*;

use crate::engine::{first_named_from, Prover, ProofEngine, StepModel};
use crate::prover::TheoremProver;
use crate::result::ProofResult;

verus! {

/// Once the outcome of a verification of `statement` has been recorded, a second request for
/// the same statement decides without running any prover when the first succeeded: under any
/// prover name, or none, and under either policy, it answers with the recorded result. A
/// failure is not recorded, so the second request decides exactly as the first did.
pub proof fn lemma_repeated_request_is_answered_from_cache(
    before: ProofEngine,
    after: ProofEngine,
    statement: Seq<char>,
    name: Option<Seq<char>>,
    available: Seq<bool>,
    outcome: Result<ProofResult, Seq<char>>,
)
    requires
        after.records(before, statement, outcome),
    ensures
        outcome matches Ok(r) ==> after.statement_step(statement, name, available)
            == StepModel::Done(Ok(r)),
        outcome matches Ok(r) ==> after.any_step(statement, available) == StepModel::Done(Ok(r)),
        outcome is Err ==> after.statement_step(statement, name, available)
            == before.statement_step(statement, name, available),
        outcome is Err ==> after.any_step(statement, available) == before.any_step(
            statement,
            available,
        ),
{
    assert(after.cached(statement) == if outcome is Ok {
        Some(outcome->Ok_0)
    } else {
        before.cached(statement)
    });
}

/// The cache holds, for a statement, the result of the latest recorded success for it, and a
/// recorded outcome leaves every other statement's entry as it was. With `ProofEngine::new`
/// holding nothing, a statement never verified successfully has no cached result.
pub proof fn lemma_cache_holds_latest_success(
    before: ProofEngine,
    after: ProofEngine,
    statement: Seq<char>,
    outcome: Result<ProofResult, Seq<char>>,
    other: Seq<char>,
)
    requires
        after.records(before, statement, outcome),
    ensures
        outcome matches Ok(r) ==> after.cached(statement) == Some(r),
        outcome is Err ==> after.cached(statement) == before.cached(statement),
        other != statement ==> after.cached(other) == before.cached(other),
{
    assert(after.cached(statement) == if outcome is Ok {
        Some(outcome->Ok_0)
    } else {
        before.cached(statement)
    });
    assert(after.cached(other) == if outcome is Ok && other == statement {
        Some(outcome->Ok_0)
    } else {
        before.cached(other)
    });
}

/// No registered prover answers to a name other than "lean4" or "z3".
proof fn lemma_foreign_name_matches_nothing(provers: Seq<Prover>, name: Seq<char>, from: int)
    requires
        name != "lean4"@,
        name != "z3"@,
    ensures
        first_named_from(provers, name, from) is None,
    decreases provers.len() - from,
{
    if 0 <= from < provers.len() {
        lemma_foreign_name_matches_nothing(provers, name, from + 1);
    }
}

/// Asking for the prover named "nonexistent" fails as not found, whatever provers are
/// registered, for any statement without a cached result.
pub proof fn lemma_nonexistent_prover_is_not_found(
    engine: ProofEngine,
    statement: Seq<char>,
    available: Seq<bool>,
)
    requires
        engine.cached(statement) is None,
    ensures
        engine.statement_step(statement, Some("nonexistent"@), available) == StepModel::Done(
            Err("Prover '"@ + "nonexistent"@ + "' not found"@),
        ),
{
    reveal_strlit("nonexistent");
    reveal_strlit("lean4");
    reveal_strlit("z3");
    assert("nonexistent"@.len() != "lean4"@.len());
    assert("nonexistent"@.len() != "z3"@.len());
    lemma_foreign_name_matches_nothing(engine.provers@, "nonexistent"@, 0);
}

/// An engine with no registered provers fails every uncached request for want of an
/// available prover, under both policies.
pub proof fn lemma_no_provers_means_none_available(
    engine: ProofEngine,
    statement: Seq<char>,
    available: Seq<bool>,
)
    requires
        engine.provers@.len() == 0,
        engine.cached(statement) is None,
    ensures
        engine.statement_step(statement, None, available) == StepModel::Done(
            Err("No available provers found"@),
        ),
        engine.any_step(statement, available) == StepModel::Done(
            Err("No available theorem provers found"@),
        ),
{
}

/// With two available provers where the first fails and the second succeeds, the fallback
/// policy tries the first, then the second, and answers with the second's result; the first
/// failure is never cached, the success is, and a later request for the statement is answered
/// from the cache without trying either prover again.
pub proof fn lemma_fallback_reaches_second_prover(
    initial: ProofEngine,
    after_first: ProofEngine,
    after_second: ProofEngine,
    statement: Seq<char>,
    available: Seq<bool>,
    first_error: Seq<char>,
    second_result: ProofResult,
)
    requires
        initial.provers@.len() == 2,
        available.len() == 2,
        available[0],
        available[1],
        initial.cached(statement) is None,
        after_first.records(initial, statement, Err(first_error)),
        after_second.records(after_first, statement, Ok(second_result)),
    ensures
        initial.any_step(statement, available) == StepModel::Invoke(0),
        initial.fallback_step(available, 0, Err(first_error)) == StepModel::Invoke(1),
        after_first.cached(statement) is None,
        after_first.fallback_step(available, 1, Ok(second_result)) == StepModel::Done(
            Ok(second_result),
        ),
        after_second.cached(statement) == Some(second_result),
        after_second.any_step(statement, available) == StepModel::Done(Ok(second_result)),
{
    assert(after_first.cached(statement) == initial.cached(statement));
    assert(after_second.cached(statement) == Some(second_result));
}

} // verus!
