use crate::error::{Error, GResult, PredicateType};
use vstd::prelude::*;

verus! {

/// The code by which the engine answers that a relation does not hold.
pub const GEOS_FALSE: i32 = 0;

/// The code by which the engine answers that a relation holds.
pub const GEOS_TRUE: i32 = 1;

/// The code by which the engine reports that it could not decide.
pub const GEOS_EXCEPTION: i32 = 2;

/// What an answer of the engine to a test of `predicate` means: a truth value
/// for the two codes that carry one, and for every other code a failure that
/// names the relation and keeps the code.
pub open spec fn predicate_outcome(code: i32, predicate: PredicateType) -> GResult<bool> {
    if code == GEOS_TRUE {
        Ok(true)
    } else if code == GEOS_FALSE {
        Ok(false)
    } else {
        Err(Error::GeosFunctionError(predicate, code))
    }
}

/// Reads the engine's answer to a test of `predicate`.
pub fn check_geos_predicate(code: i32, predicate: PredicateType) -> (r: GResult<bool>)
    ensures
        r == predicate_outcome(code, predicate),
{
    if code == GEOS_TRUE {
        Ok(true)
    } else if code == GEOS_FALSE {
        Ok(false)
    } else {
        Err(Error::GeosFunctionError(predicate, code))
    }
}

/// A truth value comes out for the two truth codes only, and it is the one
/// that the code stands for: no other code is read as `true` or as `false`.
pub proof fn lemma_truth_only_from_truth_codes(code: i32, predicate: PredicateType, truth: bool)
    ensures
        predicate_outcome(code, predicate) == Ok::<bool, Error>(truth) <==> code == (if truth {
            GEOS_TRUE
        } else {
            GEOS_FALSE
        }),
{
}

/// A failure tells which test failed: two answers that are read as the same
/// failure came with the same code from tests of the same relation.
pub proof fn lemma_failure_names_its_relation(
    code: i32,
    predicate: PredicateType,
    other_code: i32,
    other_predicate: PredicateType,
)
    requires
        predicate_outcome(code, predicate) is Err,
        predicate_outcome(code, predicate) == predicate_outcome(other_code, other_predicate),
    ensures
        predicate == other_predicate,
        code == other_code,
{
}

} // verus!
