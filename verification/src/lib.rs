//! Value-or-fallback extraction over the two may-be-absent shapes.
//!
//! A presence-typed value (`Option`) and an outcome-typed value (`Result`)
//! are normalized by the [`Unwrappable`] adapter, and two constructs extract
//! from either: an unconditional fallback ([`unwrap_or`]) and a guarded or
//! pattern-dispatched fallback (the `unwrap_or_match` family). The present
//! path always wins; the absent path picks the caller's fallback, the first
//! clause in declared order whose guard or pattern applies, or the target
//! type's canonical default.
//!
//! The constructs here take fallback clauses as values. A fallback that must
//! stay unevaluated on the present path, or that transfers control in the
//! caller's scope (early return, loop break or continue), cannot cross a
//! function boundary: such callers match on [`Unwrappable::classify`] inline
//! and write the fallback statements in the absent arm.

pub mod unwrap_or;
pub mod unwrap_or_match;
pub mod unwrappable;

pub use crate::unwrap_or::unwrap_or;
pub use crate::unwrap_or_match::unwrap_or_match_guards;
pub use crate::unwrap_or_match::unwrap_or_match_guards_default;
pub use crate::unwrap_or_match::unwrap_or_match_patterns;
pub use crate::unwrappable::Unwrappable;
