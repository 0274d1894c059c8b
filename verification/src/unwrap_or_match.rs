use vstd::prelude::*;

use vstd::std_specs::cmp::PartialEqSpec;

use crate::unwrappable::Classification;
use crate::unwrappable::Unwrappable;

verus! {

/// One clause of the guarded fallback construct: a boolean guard, possibly
/// referencing outer state, and the result the clause yields when it is the
/// first whose guard holds.
pub struct GuardClause<T> {
    pub guard: bool,
    pub result: T,
}

/// Clause `i` is the one a guard dispatch selects: its guard holds and the
/// guard of every earlier clause does not. Clause order is significant:
/// guards are tested strictly in declared order and the first true guard
/// wins, even if a later guard is also true.
pub open spec fn first_true_guard_is<T>(clauses: Seq<GuardClause<T>>, i: int) -> bool {
    &&& 0 <= i < clauses.len()
    &&& clauses[i].guard
    &&& forall|j: int| 0 <= j < i ==> !(#[trigger] clauses[j].guard)
}

/// No clause's guard holds: the dispatch falls through to the catch-all or
/// to the target type's canonical default.
pub open spec fn no_true_guard<T>(clauses: Seq<GuardClause<T>>) -> bool {
    forall|i: int| 0 <= i < clauses.len() ==> !(#[trigger] clauses[i].guard)
}

/// Dispatch among guards is deterministic: at most one clause is the first
/// whose guard holds, so exactly one of the present value, one selected
/// clause, or the fall-through is yielded per extraction.
pub proof fn lemma_first_true_guard_unique<T>(clauses: Seq<GuardClause<T>>, i: int, j: int)
    requires
        first_true_guard_is(clauses, i),
        first_true_guard_is(clauses, j),
    ensures
        i == j,
{
}

/// Index of the first clause whose guard holds, tested strictly in declared
/// order; nothing when no guard holds.
fn find_first_true_guard<T>(clauses: &Vec<GuardClause<T>>) -> (r: Option<usize>)
    ensures
        r matches Some(i) ==> first_true_guard_is(clauses@, i as int),
        r is None ==> no_true_guard(clauses@),
{
    let mut i: usize = 0;
    while i < clauses.len()
        invariant
            i <= clauses@.len(),
            forall|j: int| 0 <= j < i ==> !(#[trigger] clauses@[j].guard),
        decreases clauses@.len() - i,
    {
        if clauses[i].guard {
            return Some(i);
        }
        i += 1;
    }
    None
}

/// Ordered guard dispatch: yields the result of the first clause whose guard
/// holds, or nothing when no guard holds.
pub fn dispatch_guards<T>(clauses: Vec<GuardClause<T>>) -> (r: Option<T>)
    ensures
        forall|i: int| first_true_guard_is(clauses@, i) ==> r == Some(clauses@[i].result),
        no_true_guard(clauses@) ==> r is None,
{
    let mut remaining = clauses;
    match find_first_true_guard(&remaining) {
        Some(i) => {
            let clause = remaining.remove(i);
            Some(clause.result)
        },
        None => None,
    }
}

/// Guarded fallback with an explicit catch-all. Yields the inner value when
/// one is present, never consulting a clause; otherwise the guards are tested
/// strictly in declared order and the first true guard's result is yielded;
/// when no guard is true, the catch-all's.
pub fn unwrap_or_match_guards<T, E>(
    source: Unwrappable<T, E>,
    clauses: Vec<GuardClause<T>>,
    catch_all: T,
) -> (r: T)
    ensures
        source.is_present() ==> r == source.present_value(),
        !source.is_present() ==> forall|i: int|
            first_true_guard_is(clauses@, i) ==> r == clauses@[i].result,
        !source.is_present() && no_true_guard(clauses@) ==> r == catch_all,
{
    match source.classify() {
        Classification::Present(v) => v,
        _ => match dispatch_guards(clauses) {
            Some(chosen) => chosen,
            None => catch_all,
        },
    }
}

/// Capability a target type supplies for the guarded fallback without a
/// catch-all: its canonical zero/default value, resolved per call site
/// through this trait bound rather than through any runtime registry.
pub trait CanonicalDefault: Sized {
    /// What it means for a value to be this type's canonical default.
    spec fn is_canonical_default(self) -> bool;

    /// Produce the canonical default value.
    fn canonical_default() -> (r: Self)
        ensures
            r.is_canonical_default(),
    ;
}

impl CanonicalDefault for () {
    open spec fn is_canonical_default(self) -> bool {
        true
    }

    fn canonical_default() -> (r: Self) {
    }
}

impl CanonicalDefault for bool {
    open spec fn is_canonical_default(self) -> bool {
        self == false
    }

    fn canonical_default() -> (r: Self) {
        false
    }
}

impl CanonicalDefault for i32 {
    open spec fn is_canonical_default(self) -> bool {
        self == 0
    }

    fn canonical_default() -> (r: Self) {
        0
    }
}

impl CanonicalDefault for i64 {
    open spec fn is_canonical_default(self) -> bool {
        self == 0
    }

    fn canonical_default() -> (r: Self) {
        0
    }
}

impl CanonicalDefault for u32 {
    open spec fn is_canonical_default(self) -> bool {
        self == 0
    }

    fn canonical_default() -> (r: Self) {
        0
    }
}

impl CanonicalDefault for u64 {
    open spec fn is_canonical_default(self) -> bool {
        self == 0
    }

    fn canonical_default() -> (r: Self) {
        0
    }
}

impl CanonicalDefault for usize {
    open spec fn is_canonical_default(self) -> bool {
        self == 0
    }

    fn canonical_default() -> (r: Self) {
        0
    }
}

impl<T> CanonicalDefault for Vec<T> {
    open spec fn is_canonical_default(self) -> bool {
        self@ == Seq::<T>::empty()
    }

    fn canonical_default() -> (r: Self) {
        Vec::new()
    }
}

/// Guarded fallback without a catch-all. As with an explicit catch-all, the
/// present path wins unconditionally and otherwise the first true guard's
/// result is yielded; when no guard is true, the target type's canonical
/// default value stands in for the missing catch-all.
pub fn unwrap_or_match_guards_default<T: CanonicalDefault, E>(
    source: Unwrappable<T, E>,
    clauses: Vec<GuardClause<T>>,
) -> (r: T)
    ensures
        source.is_present() ==> r == source.present_value(),
        !source.is_present() ==> forall|i: int|
            first_true_guard_is(clauses@, i) ==> r == clauses@[i].result,
        !source.is_present() && no_true_guard(clauses@) ==> r.is_canonical_default(),
{
    match source.classify() {
        Classification::Present(v) => v,
        _ => match dispatch_guards(clauses) {
            Some(chosen) => chosen,
            None => T::canonical_default(),
        },
    }
}

/// A structural pattern matched against the failure payload: either the
/// wildcard, which admits every payload, or an exact value, which admits the
/// payloads equal to it (the value-level rendering of a literal pattern).
pub enum FailurePattern<E> {
    Wildcard,
    Exact(E),
}

/// One clause of the pattern fallback construct: a structural pattern, an
/// optional guard (a clause written without one carries the guard `true`),
/// and the result the clause yields when selected.
pub struct PatternClause<E, T> {
    pub pattern: FailurePattern<E>,
    pub guard: bool,
    pub result: T,
}

/// The pattern admits the absent shape at hand. An outcome-typed failure
/// payload is admitted by the wildcard, or by an exact pattern equal to it.
/// A presence-typed absence carries no payload for a pattern to inspect, so
/// every pattern admits it and only the guard decides.
pub open spec fn pattern_admits<E: PartialEqSpec>(
    pattern: FailurePattern<E>,
    payload: Option<E>,
) -> bool {
    match payload {
        Option::None => true,
        Option::Some(e) => match pattern {
            FailurePattern::Wildcard => true,
            FailurePattern::Exact(x) => x.eq_spec(&e),
        },
    }
}

/// The clause matches: its pattern admits the absent shape and its guard
/// holds.
pub open spec fn clause_matches<E: PartialEqSpec, T>(
    clause: PatternClause<E, T>,
    payload: Option<E>,
) -> bool {
    pattern_admits(clause.pattern, payload) && clause.guard
}

/// Clause `i` is the one a pattern dispatch selects: the first
/// structurally-matching, guard-satisfying clause in declared order.
pub open spec fn selected_clause_is<E: PartialEqSpec, T>(
    clauses: Seq<PatternClause<E, T>>,
    payload: Option<E>,
    i: int,
) -> bool {
    &&& 0 <= i < clauses.len()
    &&& clause_matches(clauses[i], payload)
    &&& forall|j: int| 0 <= j < i ==> !clause_matches(#[trigger] clauses[j], payload)
}

/// Some clause matches the absent shape at hand: what a dispatch needs of
/// this one extraction. An exhaustive clause set guarantees it for every
/// shape.
pub open spec fn some_clause_matches<E: PartialEqSpec, T>(
    clauses: Seq<PatternClause<E, T>>,
    payload: Option<E>,
) -> bool {
    exists|i: int| 0 <= i < clauses.len() && clause_matches(#[trigger] clauses[i], payload)
}

/// The clause set ends the way an exhaustive match does: some clause is an
/// unguarded wildcard. Guards never count toward exhaustiveness, so this is
/// the shape-independent coverage witness a build-time check accepts.
pub open spec fn has_unguarded_wildcard<E, T>(clauses: Seq<PatternClause<E, T>>) -> bool {
    exists|i: int|
        0 <= i < clauses.len() && (#[trigger] clauses[i]).pattern is Wildcard && clauses[i].guard
}

/// An unguarded wildcard clause covers every absent shape, whatever the
/// payload: the build-time exhaustiveness witness implies the per-extraction
/// coverage that the pattern dispatch requires.
pub proof fn lemma_unguarded_wildcard_covers<E: PartialEqSpec, T>(
    clauses: Seq<PatternClause<E, T>>,
    payload: Option<E>,
)
    ensures
        has_unguarded_wildcard(clauses) ==> some_clause_matches(clauses, payload),
{
    if has_unguarded_wildcard(clauses) {
        let i = choose|i: int|
            0 <= i < clauses.len() && (#[trigger] clauses[i]).pattern is Wildcard
                && clauses[i].guard;
        assert(clause_matches(clauses[i], payload));
    }
}

/// Pattern dispatch is deterministic too: at most one clause is the first
/// structurally-matching, guard-satisfying one for a given absent shape.
pub proof fn lemma_selected_clause_unique<E: PartialEqSpec, T>(
    clauses: Seq<PatternClause<E, T>>,
    payload: Option<E>,
    i: int,
    j: int,
)
    requires
        selected_clause_is(clauses, payload, i),
        selected_clause_is(clauses, payload, j),
    ensures
        i == j,
{
}

/// Index of the first clause whose pattern admits the absent shape and whose
/// guard holds, tested strictly in declared order; nothing when none does.
fn find_selected_clause<E: PartialEq + PartialEqSpec, T>(
    clauses: &Vec<PatternClause<E, T>>,
    payload: &Option<E>,
) -> (r: Option<usize>)
    requires
        E::obeys_eq_spec(),
    ensures
        r matches Some(i) ==> selected_clause_is(clauses@, *payload, i as int),
        r is None ==> !some_clause_matches(clauses@, *payload),
{
    let mut i: usize = 0;
    while i < clauses.len()
        invariant
            i <= clauses@.len(),
            E::obeys_eq_spec(),
            forall|j: int| 0 <= j < i ==> !clause_matches(#[trigger] clauses@[j], *payload),
        decreases clauses@.len() - i,
    {
        let admitted: bool = match (&clauses[i].pattern, payload) {
            (FailurePattern::Wildcard, _) => true,
            (FailurePattern::Exact(_), Option::None) => true,
            (FailurePattern::Exact(x), Option::Some(e)) => *x == *e,
        };
        if admitted && clauses[i].guard {
            return Some(i);
        }
        i += 1;
    }
    None
}

/// Pattern fallback: yields the inner value when one is present, never
/// consulting a clause; otherwise the clauses are matched strictly in
/// declared order against the failure payload (or the bare absence marker)
/// and the first structurally-matching, guard-satisfying clause's result is
/// yielded. Exhaustiveness is owed up front, as a build-time obligation: the
/// clause set must be shown to cover the absent shape at hand, which
/// [`lemma_unguarded_wildcard_covers`] discharges for any clause set ending
/// in an unguarded wildcard. Exact patterns presuppose a payload equality
/// that agrees with its specification.
pub fn unwrap_or_match_patterns<T, E: PartialEq + PartialEqSpec>(
    source: Unwrappable<T, E>,
    clauses: Vec<PatternClause<E, T>>,
) -> (r: T)
    requires
        E::obeys_eq_spec(),
        !source.is_present() ==> some_clause_matches(clauses@, source.failure_payload()),
    ensures
        source.is_present() ==> r == source.present_value(),
        !source.is_present() ==> forall|i: int|
            selected_clause_is(clauses@, source.failure_payload(), i) ==> r == clauses@[i].result,
{
    let payload: Option<E> = match source.classify() {
        Classification::Present(v) => {
            return v;
        },
        Classification::AbsentEmpty => None,
        Classification::AbsentFailure(e) => Some(e),
    };
    let mut remaining = clauses;
    match find_selected_clause(&remaining, &payload) {
        Some(i) => {
            let clause = remaining.remove(i);
            clause.result
        },
        None => unreached(),
    }
}

} // verus!
