//! The status codes with which the engine answers a solve call.

use vstd::prelude::*;

verus! {

/// The engine stopped early and holds no solution.
pub const STATUS_INTERRUPTED: i32 = 0;

/// The engine stopped early and holds a solution that is not proven optimal.
pub const STATUS_INTERRUPTED_WITH_MODEL: i32 = 10;

/// The formula is proven unsatisfiable.
pub const STATUS_UNSAT: i32 = 20;

/// The engine holds a solution that is proven optimal.
pub const STATUS_OPTIMAL: i32 = 30;

/// The engine reports an error of its own.
pub const STATUS_ERROR: i32 = 40;

/// The codes that the interface defines. Any other answer to a solve call
/// is a protocol violation.
pub open spec fn is_status(code: i32) -> bool {
    code == STATUS_INTERRUPTED || code == STATUS_INTERRUPTED_WITH_MODEL || code == STATUS_UNSAT
        || code == STATUS_OPTIMAL || code == STATUS_ERROR
}

/// The codes after which the engine holds a solution that can be queried.
pub open spec fn has_model(code: i32) -> bool {
    code == STATUS_INTERRUPTED_WITH_MODEL || code == STATUS_OPTIMAL
}

/// Tells whether `code` is one of the codes that the interface defines.
pub fn check_status(code: i32) -> (known: bool)
    ensures
        known == is_status(code),
{
    code == STATUS_INTERRUPTED || code == STATUS_INTERRUPTED_WITH_MODEL || code == STATUS_UNSAT
        || code == STATUS_OPTIMAL || code == STATUS_ERROR
}

} // verus!
