//! The offer record: the one persistent entity of the escrow.

use crate::address::Address;
use vstd::prelude::*;

verus! {

/// One outstanding offer. The quantity that the maker deposited is not part of
/// the record: it is what the vault holds.
#[derive(Clone, Copy, Debug, PartialEq, Eq)]
pub struct Offer {
    /// Chosen by the maker; makes the record's address unique per maker.
    pub id: u64,
    /// The party who made the offer, and who alone may cancel it.
    pub maker: Address,
    /// The asset that the maker deposited.
    pub maker_token: Address,
    /// The asset that the maker wants.
    pub taker_token: Address,
    /// The quantity of `taker_token` that the maker wants.
    pub amount: u64,
    /// The bump seed with which the record's address was derived.
    pub bump: u8,
}

} // verus!
