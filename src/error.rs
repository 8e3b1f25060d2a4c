use vstd::prelude::*;

verus! {

/// Why a ledger operation was refused.
#[derive(Clone, Copy, Debug, PartialEq, Eq, Structural)]
pub enum AccessError {
    /// The page number is negative, or its offset does not fit in an `i64`.
    InvalidPage,
    /// Every identifier an `i32` can hold has been assigned.
    StoreFull,
}

} // verus!
