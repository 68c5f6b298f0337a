//! A single-tape, left-bounded Turing machine: a validated seven-tuple
//! definition plus an execution engine whose steps can be applied and
//! exactly reversed.

use vstd::prelude::*;

pub mod machine;

verus! {

/// Represents either of two types.
pub enum Either<L, R> {
    L(L),
    R(R),
}

} // verus!
