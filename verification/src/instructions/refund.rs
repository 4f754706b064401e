//! Refund: the accounts presented, and the return of the deposit.

use crate::address::Address;
use crate::authority::{
    seed_bytes, signer_seeds, spec_signer_seeds, spec_token_address, token_address, Programs,
};
use crate::gateway::{CloseAccount, Mint, TransferChecked};
use crate::instructions::shared::{
    spec_transfer_tokens, transfer_tokens, SignedClose, SignedTransfer,
};
use crate::offer::Offer;
use vstd::prelude::*;

verus! {

/// The accounts that a maker presents to cancel an offer.
#[derive(Clone, Copy, Debug, PartialEq, Eq)]
pub struct Refund {
    /// The caller, whom the environment has authenticated.
    pub maker: Address,
    /// The asset that the vault holds.
    pub maker_token: Mint,
    /// The maker's account of `maker_token`, which receives the deposit.
    pub maker_token_ata: Address,
    /// The address of the record.
    pub escrow: Address,
    /// The vault.
    pub vault_ata: Address,
}

impl Refund {
    /// The accounts that the derivation yields for `maker` cancelling the
    /// offer at `escrow`. `None` where a derivation finds no address.
    pub open spec fn spec_canonical(
        programs: Programs,
        maker: Address,
        maker_token: Mint,
        escrow: Address,
    ) -> Option<Refund> {
        match (
            spec_token_address(programs, maker, maker_token.address),
            spec_token_address(programs, escrow, maker_token.address),
        ) {
            (Some(maker_token_ata), Some(vault_ata)) => Some(
                Refund { maker, maker_token, maker_token_ata, escrow, vault_ata },
            ),
            _ => None,
        }
    }

    /// Derives the accounts with which `maker` cancels the offer at `escrow`.
    pub fn canonical(
        programs: &Programs,
        maker: &Address,
        maker_token: &Mint,
        escrow: &Address,
    ) -> (r: Option<Refund>)
        ensures
            r == Refund::spec_canonical(*programs, *maker, *maker_token, *escrow),
    {
        let maker_token_ata = match token_address(programs, maker, &maker_token.address) {
            Some(address) => address,
            None => {
                return None;
            },
        };
        let vault_ata = match token_address(programs, escrow, &maker_token.address) {
            Some(address) => address,
            None => {
                return None;
            },
        };
        Some(
            Refund {
                maker: *maker,
                maker_token: *maker_token,
                maker_token_ata,
                escrow: *escrow,
                vault_ata,
            },
        )
    }

    /// Tells whether two callers present the same accounts.
    pub fn same_accounts(&self, other: &Refund) -> (r: bool)
        ensures
            r == (*self == *other),
    {
        self.maker == other.maker && self.maker_token.address == other.maker_token.address
            && self.maker_token.decimals == other.maker_token.decimals
            && self.maker_token_ata == other.maker_token_ata && self.escrow == other.escrow
            && self.vault_ata == other.vault_ata
    }
}

/// The return of the deposit: all that the vault holds, from the vault to the
/// maker's account, ordered by the custody authority, with the decimal places
/// of the asset deposited.
pub open spec fn spec_refund_maker(ctx: Refund, vault_balance: u64) -> TransferChecked {
    spec_transfer_tokens(
        ctx.escrow,
        vault_balance,
        ctx.maker_token,
        ctx.maker_token_ata,
        ctx.vault_ata,
    )
}

/// Builds the transfer that returns the deposit to the maker, with the signer
/// seeds of the offer.
pub fn refund_maker(ctx: &Refund, offer: &Offer, vault_balance: u64) -> (r: SignedTransfer)
    ensures
        r.instruction == spec_refund_maker(*ctx, vault_balance),
        seed_bytes(r.signer_seeds@) == spec_signer_seeds(ctx.maker, offer.id, offer.bump),
{
    SignedTransfer {
        instruction: transfer_tokens(
            &ctx.escrow,
            vault_balance,
            &ctx.maker_token,
            &ctx.maker_token_ata,
            &ctx.vault_ata,
        ),
        signer_seeds: signer_seeds(&ctx.maker, offer.id, offer.bump),
    }
}

/// The closing of the vault after a cancellation, ordered by the custody
/// authority; the storage deposit goes to the maker.
pub open spec fn spec_close_escrow(ctx: Refund) -> CloseAccount {
    CloseAccount { account: ctx.vault_ata, destination: ctx.maker, authority: ctx.escrow }
}

/// Builds the two instructions that end a cancellation: the transfer to the
/// maker of all that the vault holds at that moment, then the closing of the
/// vault. Both carry the signer seeds of the offer.
pub fn close_escrow(ctx: &Refund, offer: &Offer, vault_balance: u64) -> (r: (
    SignedTransfer,
    SignedClose,
))
    ensures
        r.0.instruction == spec_refund_maker(*ctx, vault_balance),
        r.1.instruction == spec_close_escrow(*ctx),
        seed_bytes(r.0.signer_seeds@) == spec_signer_seeds(ctx.maker, offer.id, offer.bump),
        seed_bytes(r.1.signer_seeds@) == spec_signer_seeds(ctx.maker, offer.id, offer.bump),
{
    let transfer = refund_maker(ctx, offer, vault_balance);
    let close = SignedClose {
        instruction: CloseAccount {
            account: ctx.vault_ata,
            destination: ctx.maker,
            authority: ctx.escrow,
        },
        signer_seeds: signer_seeds(&ctx.maker, offer.id, offer.bump),
    };
    (transfer, close)
}

} // verus!
