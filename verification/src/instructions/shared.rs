//! What the three transitions share.

use crate::address::Address;
use crate::gateway::{CloseAccount, Mint, TransferChecked};
use vstd::prelude::*;

verus! {

/// A transfer that the custody authority orders, with the seeds that let the
/// escrow program sign for it.
#[derive(Debug, PartialEq, Eq)]
pub struct SignedTransfer {
    pub instruction: TransferChecked,
    pub signer_seeds: Vec<Vec<u8>>,
}

/// The closing of an account that the custody authority orders, with the
/// seeds that let the escrow program sign for it.
#[derive(Debug, PartialEq, Eq)]
pub struct SignedClose {
    pub instruction: CloseAccount,
    pub signer_seeds: Vec<Vec<u8>>,
}

/// The transfer of `amount` units of `mint` from `from` to `to`, ordered by
/// `authority`, with the decimal places of the asset presented.
pub open spec fn spec_transfer_tokens(
    authority: Address,
    amount: u64,
    mint: Mint,
    to: Address,
    from: Address,
) -> TransferChecked {
    TransferChecked {
        from,
        to,
        mint: mint.address,
        authority,
        amount,
        decimals: mint.decimals,
    }
}

/// Builds the transfer of `amount` units of `mint` from `from` to `to`,
/// ordered by `authority`.
pub fn transfer_tokens(
    authority: &Address,
    amount: u64,
    mint: &Mint,
    to: &Address,
    from: &Address,
) -> (ix: TransferChecked)
    ensures
        ix == spec_transfer_tokens(*authority, amount, *mint, *to, *from),
{
    TransferChecked {
        from: *from,
        to: *to,
        mint: mint.address,
        authority: *authority,
        amount,
        decimals: mint.decimals,
    }
}

/// What follows a step that the gateway has answered: where the step
/// succeeded, the next one; where it failed, its error, and nothing further.
/// No closing follows a transfer that failed.
pub fn after_transfer<T, E>(outcome: Result<(), E>, next: T) -> (r: Result<T, E>)
    ensures
        r == (match outcome {
            Ok(_) => Ok::<T, E>(next),
            Err(e) => Err::<T, E>(e),
        }),
{
    match outcome {
        Ok(_) => Ok(next),
        Err(e) => Err(e),
    }
}

} // verus!
