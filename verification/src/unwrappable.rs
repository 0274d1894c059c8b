use vstd::prelude::*;

verus! {

/// Unification adapter over the two may-be-absent shapes: a presence-typed
/// value (`Option`) and an outcome-typed value (`Result`). Conversion into the
/// adapter is lossless and one-to-one: the wrapped value is exactly the
/// original source value, re-tagged, so nothing is invented or discarded.
///
/// A presence-typed source carries no payload on absence, so its failure side
/// defaults to the unit type.
pub enum Unwrappable<T, E = ()> {
    FromPresence(Option<T>),
    FromOutcome(Result<T, E>),
}

/// Answer of the adapter's classification query: either a value is present,
/// or it is absent with no payload (presence-typed absence), or it is absent
/// with a failure payload (outcome-typed failure).
pub enum Classification<T, E> {
    Present(T),
    AbsentEmpty,
    AbsentFailure(E),
}

impl<T, E> Unwrappable<T, E> {
    /// What one extraction sees of this adapter value.
    pub open spec fn classification(self) -> Classification<T, E> {
        match self {
            Unwrappable::FromPresence(Some(v)) => Classification::Present(v),
            Unwrappable::FromPresence(None) => Classification::AbsentEmpty,
            Unwrappable::FromOutcome(Ok(v)) => Classification::Present(v),
            Unwrappable::FromOutcome(Err(e)) => Classification::AbsentFailure(e),
        }
    }

    /// A value is present: the source is a presence-typed value holding one,
    /// or an outcome-typed success.
    pub open spec fn is_present(self) -> bool {
        self.classification() is Present
    }

    /// The inner value, on the present path.
    pub open spec fn present_value(self) -> T
        recommends
            self.is_present(),
    {
        match self {
            Unwrappable::FromPresence(Some(v)) => v,
            Unwrappable::FromOutcome(Ok(v)) => v,
            Unwrappable::FromPresence(None) => arbitrary(),
            Unwrappable::FromOutcome(Err(_)) => arbitrary(),
        }
    }

    /// The failure payload, on the absent path: an outcome-typed failure
    /// carries one, a presence-typed absence carries none.
    pub open spec fn failure_payload(self) -> Option<E>
        recommends
            !self.is_present(),
    {
        match self {
            Unwrappable::FromOutcome(Err(e)) => Some(e),
            Unwrappable::FromOutcome(Ok(_)) => None,
            Unwrappable::FromPresence(_) => None,
        }
    }

    /// The classification query the fallback constructs consult: tells present
    /// from absent and hands out the inner value or the failure payload.
    pub fn classify(self) -> (r: Classification<T, E>)
        ensures
            r == self.classification(),
    {
        match self {
            Unwrappable::FromPresence(Some(v)) => Classification::Present(v),
            Unwrappable::FromPresence(None) => Classification::AbsentEmpty,
            Unwrappable::FromOutcome(Ok(v)) => Classification::Present(v),
            Unwrappable::FromOutcome(Err(e)) => Classification::AbsentFailure(e),
        }
    }
}

impl<T> From<Option<T>> for Unwrappable<T> {
    fn from(value: Option<T>) -> (r: Self) {
        Unwrappable::FromPresence(value)
    }
}

impl<T> vstd::std_specs::convert::FromSpecImpl<Option<T>> for Unwrappable<T> {
    open spec fn obeys_from_spec() -> bool {
        true
    }

    open spec fn from_spec(value: Option<T>) -> Self {
        Unwrappable::FromPresence(value)
    }
}

impl<T, E> From<Result<T, E>> for Unwrappable<T, E> {
    fn from(value: Result<T, E>) -> (r: Self) {
        Unwrappable::FromOutcome(value)
    }
}

impl<T, E> vstd::std_specs::convert::FromSpecImpl<Result<T, E>> for Unwrappable<T, E> {
    open spec fn obeys_from_spec() -> bool {
        true
    }

    open spec fn from_spec(value: Result<T, E>) -> Self {
        Unwrappable::FromOutcome(value)
    }
}

/// Lossless tagging, both directions. Converting either source shape into the
/// adapter wraps exactly the original value, so taking it back out of the
/// variant yields that value unchanged; and a present presence-typed value or
/// a success outcome-typed value classifies as present with its inner value
/// unchanged.
pub proof fn lemma_round_trip<T, E>(p: Option<T>, o: Result<T, E>)
    ensures
        <Unwrappable<T> as vstd::std_specs::convert::FromSpec<Option<T>>>::from_spec(p)
            == Unwrappable::<T, ()>::FromPresence(p),
        <Unwrappable<T, E> as vstd::std_specs::convert::FromSpec<Result<T, E>>>::from_spec(o)
            == Unwrappable::<T, E>::FromOutcome(o),
        p matches Some(v)
            ==> <Unwrappable<T> as vstd::std_specs::convert::FromSpec<Option<T>>>::from_spec(p)
                .classification() == Classification::<T, ()>::Present(v),
        o matches Ok(v)
            ==> <Unwrappable<T, E> as vstd::std_specs::convert::FromSpec<Result<T, E>>>::from_spec(o)
                .classification() == Classification::<T, E>::Present(v),
{
}

} // verus!
