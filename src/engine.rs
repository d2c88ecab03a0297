use vstd::prelude::*;

use std::path::PathBuf;

use crate::lean::{lean_conclusion, lean_step, LeanProver};
use crate::prover::{
    find_available, first_available_from, BackendStep, RunFailure, RunOutput, TheoremProver,
};
use crate::result::ProofResult;
use crate::text::str_equals;
use crate::z3::{z3_conclusion, z3_step, Z3Prover};

verus! {

/// The closed set of provers an engine can hold.
pub enum Prover {
    Lean(LeanProver),
    Z3(Z3Prover),
}

impl Prover {
    /// Where the prover's executable is expected; the host probes and runs it.
    pub fn executable_path(&self) -> (r: &PathBuf)
        ensures
            r == match self {
                Prover::Lean(p) => &p.executable_path,
                Prover::Z3(p) => &p.executable_path,
            },
    {
        match self {
            Prover::Lean(p) => &p.executable_path,
            Prover::Z3(p) => &p.executable_path,
        }
    }
}

impl TheoremProver for Prover {
    open spec fn prover_name(&self) -> Seq<char> {
        match self {
            Prover::Lean(p) => p.prover_name(),
            Prover::Z3(p) => p.prover_name(),
        }
    }

    fn name(&self) -> (r: &str) {
        match self {
            Prover::Lean(p) => p.name(),
            Prover::Z3(p) => p.name(),
        }
    }

    fn start(&self, statement: &str, available: bool) -> (r: BackendStep)
        ensures
            match self {
                Prover::Lean(_) => lean_step(statement@, available, r),
                Prover::Z3(_) => z3_step(statement@, available, r),
            },
    {
        match self {
            Prover::Lean(p) => p.start(statement, available),
            Prover::Z3(p) => p.start(statement, available),
        }
    }

    fn conclude(&self, outcome: Result<RunOutput, RunFailure>) -> (r: Result<ProofResult, String>)
        ensures
            match self {
                Prover::Lean(_) => lean_conclusion(outcome, r),
                Prover::Z3(_) => z3_conclusion(outcome, r),
            },
    {
        match self {
            Prover::Lean(p) => p.conclude(outcome),
            Prover::Z3(p) => p.conclude(outcome),
        }
    }
}

/// What the engine asks of its host next.
pub enum EngineStep {
    /// The request is over, with this outcome.
    Done(Result<ProofResult, String>),
    /// The host has the registered prover at this index verify the statement and reports the
    /// outcome back.
    Invoke(usize),
}

/// The mathematical reading of an [`EngineStep`].
pub enum StepModel {
    Done(Result<ProofResult, Seq<char>>),
    Invoke(int),
}

impl View for EngineStep {
    type V = StepModel;

    open spec fn view(&self) -> StepModel {
        match self {
            EngineStep::Done(Ok(r)) => StepModel::Done(Ok(*r)),
            EngineStep::Done(Err(e)) => StepModel::Done(Err(e@)),
            EngineStep::Invoke(i) => StepModel::Invoke(*i as int),
        }
    }
}

/// The result cached for `statement`: the first entry whose key is exactly the statement.
pub open spec fn cache_lookup(entries: Seq<(String, ProofResult)>, statement: Seq<char>) -> Option<
    ProofResult,
>
    decreases entries.len(),
{
    if entries.len() == 0 {
        None
    } else if entries[0].0@ == statement {
        Some(entries[0].1)
    } else {
        cache_lookup(entries.drop_first(), statement)
    }
}

/// Index of the first prover at or after `from` whose name is `name`.
pub open spec fn first_named_from(provers: Seq<Prover>, name: Seq<char>, from: int) -> Option<int>
    decreases provers.len() - from,
{
    if from < 0 || from >= provers.len() {
        None
    } else if provers[from].prover_name() == name {
        Some(from)
    } else {
        first_named_from(provers, name, from + 1)
    }
}

/// The view of an optional prover name.
pub open spec fn name_view(name: Option<&str>) -> Option<Seq<char>> {
    match name {
        Some(n) => Some(n@),
        None => None,
    }
}

/// Orchestrates provers: a registry in registration order and a cache of results keyed by
/// the exact statement text, whichever prover produced them.
pub struct ProofEngine {
    pub provers: Vec<Prover>,
    pub proof_cache: Vec<(String, ProofResult)>,
}

impl ProofEngine {
    /// The result cached for `statement`, if any.
    pub open spec fn cached(&self, statement: Seq<char>) -> Option<ProofResult> {
        cache_lookup(self.proof_cache@, statement)
    }

    /// `self` is `before` after the outcome of a verification of `statement` was recorded: a
    /// success is cached under the statement, replacing what was there; a failure changes
    /// nothing.
    pub open spec fn records(
        &self,
        before: ProofEngine,
        statement: Seq<char>,
        outcome: Result<ProofResult, Seq<char>>,
    ) -> bool {
        &&& self.provers@ == before.provers@
        &&& forall|s: Seq<char>|
            #[trigger] self.cached(s) == if outcome is Ok && s == statement {
                Some(outcome->Ok_0)
            } else {
                before.cached(s)
            }
    }

    /// The decision of `verify_statement`.
    pub open spec fn statement_step(
        &self,
        statement: Seq<char>,
        name: Option<Seq<char>>,
        available: Seq<bool>,
    ) -> StepModel {
        match self.cached(statement) {
            Some(r) => StepModel::Done(Ok(r)),
            None => match name {
                Some(n) => match first_named_from(self.provers@, n, 0) {
                    Some(i) => StepModel::Invoke(i),
                    None => StepModel::Done(Err("Prover '"@ + n + "' not found"@)),
                },
                None => match first_available_from(available, self.provers@.len() as int, 0) {
                    Some(i) => StepModel::Invoke(i),
                    None => StepModel::Done(Err("No available provers found"@)),
                },
            },
        }
    }

    /// The first decision of `verify_with_any_prover`.
    pub open spec fn any_step(&self, statement: Seq<char>, available: Seq<bool>) -> StepModel {
        match self.cached(statement) {
            Some(r) => StepModel::Done(Ok(r)),
            None => match first_available_from(available, self.provers@.len() as int, 0) {
                Some(i) => StepModel::Invoke(i),
                None => StepModel::Done(Err("No available theorem provers found"@)),
            },
        }
    }

    /// The decision of `verify_with_any_prover` once the prover at `tried` has answered.
    pub open spec fn fallback_step(
        &self,
        available: Seq<bool>,
        tried: int,
        outcome: Result<ProofResult, Seq<char>>,
    ) -> StepModel {
        match outcome {
            Ok(r) => StepModel::Done(Ok(r)),
            Err(e) => match first_available_from(available, self.provers@.len() as int, tried + 1) {
                Some(j) => StepModel::Invoke(j),
                None => StepModel::Done(Err("All available provers failed. Last error: "@ + e)),
            },
        }
    }
}

/// The view of a verification outcome.
pub open spec fn outcome_view(outcome: Result<ProofResult, String>) -> Result<ProofResult, Seq<char>> {
    match outcome {
        Ok(r) => Ok(r),
        Err(e) => Err(e@),
    }
}

/// Appending an entry leaves every existing answer in place and answers the new key where
/// nothing answered before.
proof fn lemma_lookup_push(entries: Seq<(String, ProofResult)>, e: (String, ProofResult), s: Seq<char>)
    ensures
        cache_lookup(entries.push(e), s) == match cache_lookup(entries, s) {
            Some(r) => Some(r),
            None => if e.0@ == s { Some(e.1) } else { None },
        },
    decreases entries.len(),
{
    if entries.len() > 0 {
        assert(entries.push(e)[0] == entries[0]);
        assert(entries.push(e).drop_first() =~= entries.drop_first().push(e));
        lemma_lookup_push(entries.drop_first(), e, s);
    } else {
        assert(entries.push(e)[0] == e);
        assert(cache_lookup(entries.push(e).drop_first(), s) is None);
    }
}

/// Replacing the first entry for a key by one with the same key changes only that key's answer.
proof fn lemma_lookup_replace_first(
    entries: Seq<(String, ProofResult)>,
    i: int,
    e: (String, ProofResult),
    s: Seq<char>,
)
    requires
        0 <= i < entries.len(),
        entries[i].0@ == e.0@,
        forall|j: int| 0 <= j < i ==> entries[j].0@ != e.0@,
    ensures
        cache_lookup(entries.update(i, e), s) == if s == e.0@ {
            Some(e.1)
        } else {
            cache_lookup(entries, s)
        },
    decreases i,
{
    let updated = entries.update(i, e);
    if i > 0 {
        assert(updated[0] == entries[0]);
        assert(updated.drop_first() =~= entries.drop_first().update(i - 1, e));
        lemma_lookup_replace_first(entries.drop_first(), i - 1, e, s);
    } else {
        assert(updated[0] == e);
        assert(updated.drop_first() =~= entries.drop_first());
    }
}

impl Default for ProofEngine {
    fn default() -> (r: Self)
        ensures
            r.provers@ == Seq::<Prover>::empty(),
            r.proof_cache@ == Seq::<(String, ProofResult)>::empty(),
    {
        ProofEngine::new()
    }
}

impl ProofEngine {
    /// An engine with no provers and an empty cache.
    pub fn new() -> (r: Self)
        ensures
            r.provers@ == Seq::<Prover>::empty(),
            r.proof_cache@ == Seq::<(String, ProofResult)>::empty(),
            forall|s: Seq<char>| #[trigger] r.cached(s) is None,
    {
        ProofEngine { provers: Vec::new(), proof_cache: Vec::new() }
    }

    /// An engine holding the detected provers: the Z3 one first, then the Lean one.
    pub fn with_auto_detected_provers(z3: Option<Z3Prover>, lean: Option<LeanProver>) -> (r: Self)
        ensures
            r.provers@ == (match z3 {
                Some(p) => seq![Prover::Z3(p)],
                None => Seq::<Prover>::empty(),
            }) + (match lean {
                Some(p) => seq![Prover::Lean(p)],
                None => Seq::<Prover>::empty(),
            }),
            r.proof_cache@ == Seq::<(String, ProofResult)>::empty(),
    {
        let mut engine = ProofEngine::new();
        if let Some(p) = z3 {
            engine.add_prover(Prover::Z3(p));
        }
        if let Some(p) = lean {
            engine.add_prover(Prover::Lean(p));
        }
        assert(engine.provers@ =~= (match z3 {
            Some(p) => seq![Prover::Z3(p)],
            None => Seq::<Prover>::empty(),
        }) + (match lean {
            Some(p) => seq![Prover::Lean(p)],
            None => Seq::<Prover>::empty(),
        }));
        engine
    }

    /// Registers a prover after those already registered.
    pub fn add_prover(&mut self, prover: Prover)
        ensures
            final(self).provers@ == old(self).provers@.push(prover),
            final(self).proof_cache@ == old(self).proof_cache@,
    {
        self.provers.push(prover);
    }

    /// Index of the first cache entry for `statement`.
    fn find_cached(&self, statement: &str) -> (r: Option<usize>)
        ensures
            match r {
                Some(i) => {
                    &&& i < self.proof_cache@.len()
                    &&& self.proof_cache@[i as int].0@ == statement@
                    &&& forall|j: int| 0 <= j < i ==> self.proof_cache@[j].0@ != statement@
                    &&& self.cached(statement@) == Some(self.proof_cache@[i as int].1)
                },
                None => self.cached(statement@) is None,
            },
    {
        let ghost entries = self.proof_cache@;
        assert(entries.subrange(0, entries.len() as int) =~= entries);
        let mut i: usize = 0;
        while i < self.proof_cache.len()
            invariant
                entries == self.proof_cache@,
                i <= entries.len(),
                forall|j: int| 0 <= j < i ==> entries[j].0@ != statement@,
                cache_lookup(entries, statement@) == cache_lookup(
                    entries.subrange(i as int, entries.len() as int),
                    statement@,
                ),
            decreases entries.len() - i,
        {
            assert(entries.subrange(i as int, entries.len() as int).drop_first() =~= entries.subrange(
                i + 1,
                entries.len() as int,
            ));
            if str_equals(self.proof_cache[i].0.as_str(), statement) {
                return Some(i);
            }
            i = i + 1;
        }
        None
    }

    /// The result cached for `statement`; never runs a prover.
    pub fn get_cached_proof(&self, statement: &str) -> (r: Option<&ProofResult>)
        ensures
            match self.cached(statement@) {
                Some(c) => r matches Some(x) && *x == c,
                None => r is None,
            },
    {
        match self.find_cached(statement) {
            Some(i) => Some(&self.proof_cache[i].1),
            None => None,
        }
    }

    /// Index of the first registered prover named `name`.
    fn find_named(&self, name: &str) -> (r: Option<usize>)
        ensures
            r matches Some(i) ==> i < self.provers@.len()
                && first_named_from(self.provers@, name@, 0) == Some(i as int),
            r is None ==> first_named_from(self.provers@, name@, 0) is None,
    {
        let mut i: usize = 0;
        while i < self.provers.len()
            invariant
                i <= self.provers@.len(),
                first_named_from(self.provers@, name@, 0) == first_named_from(
                    self.provers@,
                    name@,
                    i as int,
                ),
            decreases self.provers@.len() - i,
        {
            if str_equals(self.provers[i].name(), name) {
                return Some(i);
            }
            i = i + 1;
        }
        None
    }

    /// Records the outcome of a verification of `statement` and hands it back: a success is
    /// cached under the statement, a failure is not.
    pub fn record(&mut self, statement: &str, outcome: Result<ProofResult, String>) -> (r: Result<ProofResult, String>)
        ensures
            r == outcome,
            final(self).records(*old(self), statement@, outcome_view(outcome)),
    {
        match outcome {
            Ok(result) => {
                let entry = (statement.to_owned(), result.duplicate());
                let ghost before = self.proof_cache@;
                match self.find_cached(statement) {
                    Some(i) => {
                        self.proof_cache.set(i, entry);
                        proof {
                            assert forall|s: Seq<char>| #[trigger] self.cached(s) == if s == statement@ {
                                Some(result)
                            } else {
                                old(self).cached(s)
                            } by {
                                lemma_lookup_replace_first(before, i as int, entry, s);
                            }
                        }
                    },
                    None => {
                        self.proof_cache.push(entry);
                        proof {
                            assert forall|s: Seq<char>| #[trigger] self.cached(s) == if s == statement@ {
                                Some(result)
                            } else {
                                old(self).cached(s)
                            } by {
                                lemma_lookup_push(before, entry, s);
                            }
                        }
                    },
                }
                Ok(result)
            },
            Err(e) => Err(e),
        }
    }

    /// First decision on a request to verify `statement`, with the prover named `prover_name`
    /// or else with the first available one. `available[i]` tells whether the executable of
    /// the prover at index `i` is available. A cached result answers at once, whatever prover
    /// is named; a named prover is looked up by name alone, whether or not it is available.
    /// After an `Invoke`, the host hands the prover's outcome to `record`.
    pub fn verify_statement(&self, statement: &str, prover_name: Option<&str>, available: &Vec<bool>) -> (r: EngineStep)
        ensures
            r@ == self.statement_step(statement@, name_view(prover_name), available@),
            r matches EngineStep::Invoke(i) ==> i < self.provers@.len(),
    {
        if let Some(i) = self.find_cached(statement) {
            return EngineStep::Done(Ok(self.proof_cache[i].1.duplicate()));
        }
        match prover_name {
            Some(name) => match self.find_named(name) {
                Some(i) => EngineStep::Invoke(i),
                None => {
                    let mut message = "Prover '".to_owned();
                    message.append(name);
                    message.append("' not found");
                    EngineStep::Done(Err(message))
                },
            },
            None => match find_available(available, self.provers.len(), 0) {
                Some(i) => EngineStep::Invoke(i),
                None => EngineStep::Done(Err("No available provers found".to_owned())),
            },
        }
    }

    /// First decision on a request to verify `statement` with whichever available prover
    /// succeeds first, in registration order. After an `Invoke`, the host hands the prover's
    /// outcome to `after_attempt`.
    pub fn verify_with_any_prover(&self, statement: &str, available: &Vec<bool>) -> (r: EngineStep)
        ensures
            r@ == self.any_step(statement@, available@),
            r matches EngineStep::Invoke(i) ==> i < self.provers@.len(),
    {
        if let Some(i) = self.find_cached(statement) {
            return EngineStep::Done(Ok(self.proof_cache[i].1.duplicate()));
        }
        match find_available(available, self.provers.len(), 0) {
            Some(i) => EngineStep::Invoke(i),
            None => EngineStep::Done(Err("No available theorem provers found".to_owned())),
        }
    }

    /// Next decision of `verify_with_any_prover` once the prover at index `tried` has answered
    /// with `outcome`: a success is cached and returned; a failure moves on to the next
    /// available prover, and after the last one the request fails with that last reason.
    pub fn after_attempt(
        &mut self,
        statement: &str,
        available: &Vec<bool>,
        tried: usize,
        outcome: Result<ProofResult, String>,
    ) -> (r: EngineStep)
        ensures
            r@ == old(self).fallback_step(available@, tried as int, outcome_view(outcome)),
            r matches EngineStep::Invoke(j) ==> tried < j < old(self).provers@.len(),
            final(self).records(*old(self), statement@, outcome_view(outcome)),
    {
        match self.record(statement, outcome) {
            Ok(result) => EngineStep::Done(Ok(result)),
            Err(e) => {
                if tried < self.provers.len() {
                    if let Some(j) = find_available(available, self.provers.len(), tried + 1) {
                        return EngineStep::Invoke(j);
                    }
                }
                let mut message = "All available provers failed. Last error: ".to_owned();
                message.append(e.as_str());
                EngineStep::Done(Err(message))
            },
        }
    }
}

} // verus!
