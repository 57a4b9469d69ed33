use vstd::prelude::*;

verus! {

/// The failures a handler can return to its caller.
#[derive(Clone, Copy, Debug, PartialEq, Eq, Structural)]
pub enum ContractError {
    /// The caller of a mutating operation is not the current owner.
    Unauthorized,
    /// No record has been written yet: the store is still empty.
    NotFound,
}

} // verus!
