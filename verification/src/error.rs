use vstd::prelude::*;

verus! {

/// A reason a settlement request is rejected. Every failure aborts the whole
/// operation before any balance moves; none is retried internally.
#[derive(Clone, Copy, Debug, PartialEq, Eq, Structural)]
pub enum SettlementError {
    /// A supplied account's address does not match the value recomputed from
    /// stored seeds and bump, or a declared account relationship does not hold.
    StructuralMismatch,
    /// The fee computation `price * fee` would overflow the 64-bit range.
    ArithmeticOverflow,
    /// The buyer's payment balance, or the vault's asset balance, is short.
    InsufficientFunds,
    /// A transfer named a precision that disagrees with the asset's canonical
    /// decimal count.
    PrecisionMismatch,
}

} // verus!
