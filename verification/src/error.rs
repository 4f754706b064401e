//! The reasons for which a transition is refused.

use vstd::prelude::*;

verus! {

/// Why a transition, or a movement of assets, did not take place.
#[derive(Clone, Copy, Debug, PartialEq, Eq, Structural)]
pub enum EscrowError {
    /// The caller, or the owner of an account, is not the identity required.
    Unauthorized,
    /// The record or account named does not exist.
    NotFound,
    /// An asset presented is not the asset recorded or held.
    AssetMismatch,
    /// The source account holds less than the quantity to move.
    InsufficientBalance,
    /// The address at which something is to be created is already occupied.
    Duplicate,
    /// An address presented is not the one that the derivation yields.
    AddressMismatch,
    /// The receiving account cannot hold the quantity to move.
    Overflow,
    /// The account to close still holds assets.
    NotEmpty,
}

} // verus!
