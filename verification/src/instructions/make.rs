//! Make: the accounts presented, the deposit, and the record.

use crate::address::Address;
use crate::authority::{
    find_offer_address, spec_custody_authority, spec_offer_address, spec_token_address,
    token_address, Programs,
};
use crate::gateway::{Mint, TransferChecked};
use crate::instructions::shared::{spec_transfer_tokens, transfer_tokens};
use crate::offer::Offer;
use vstd::prelude::*;

verus! {

/// The accounts that a maker presents to create an offer.
#[derive(Clone, Copy, Debug, PartialEq, Eq)]
pub struct Make {
    /// The caller, whom the environment has authenticated.
    pub maker: Address,
    /// The asset that the maker deposits.
    pub mint_a: Mint,
    /// The asset that the maker wants.
    pub mint_b: Mint,
    /// The maker's account of `mint_a`, from which the deposit is taken.
    pub maker_token_ata: Address,
    /// The address at which the record is created.
    pub escrow: Address,
    /// The address at which the vault is created.
    pub vault: Address,
}

impl Make {
    /// The accounts that the derivation yields for an offer of `maker` with
    /// `id`, and the bump seed of the record: the record at the derived offer
    /// address, the source and the vault at the token addresses of the maker and
    /// of the record. `None` where a derivation finds no address.
    pub open spec fn spec_canonical(
        programs: Programs,
        maker: Address,
        mint_a: Mint,
        mint_b: Mint,
        id: u64,
    ) -> Option<(Make, u8)> {
        match spec_offer_address(programs.escrow, maker, id) {
            None => None,
            Some((escrow, bump)) => match (
                spec_token_address(programs, maker, mint_a.address),
                spec_token_address(programs, escrow, mint_a.address),
            ) {
                (Some(maker_token_ata), Some(vault)) => Some(
                    (Make { maker, mint_a, mint_b, maker_token_ata, escrow, vault }, bump),
                ),
                _ => None,
            },
        }
    }

    /// Derives the accounts of an offer of `maker` with `id`, and the bump seed
    /// of its record. The record's address is the custody authority that the
    /// signer seeds with that bump seed reproduce.
    pub fn canonical(
        programs: &Programs,
        maker: &Address,
        mint_a: &Mint,
        mint_b: &Mint,
        id: u64,
    ) -> (r: Option<(Make, u8)>)
        ensures
            r == Make::spec_canonical(*programs, *maker, *mint_a, *mint_b, id),
            r matches Some((ctx, bump)) ==> spec_custody_authority(
                programs.escrow,
                *maker,
                id,
                bump,
            ) == Some(ctx.escrow),
    {
        let (escrow, bump) = match find_offer_address(&programs.escrow, maker, id) {
            Some(found) => found,
            None => {
                return None;
            },
        };
        let maker_token_ata = match token_address(programs, maker, &mint_a.address) {
            Some(address) => address,
            None => {
                return None;
            },
        };
        let vault = match token_address(programs, &escrow, &mint_a.address) {
            Some(address) => address,
            None => {
                return None;
            },
        };
        Some(
            (
                Make {
                    maker: *maker,
                    mint_a: *mint_a,
                    mint_b: *mint_b,
                    maker_token_ata,
                    escrow,
                    vault,
                },
                bump,
            ),
        )
    }

    /// Tells whether two callers present the same accounts.
    pub fn same_accounts(&self, other: &Make) -> (r: bool)
        ensures
            r == (*self == *other),
    {
        self.maker == other.maker && self.mint_a.address == other.mint_a.address
            && self.mint_a.decimals == other.mint_a.decimals && self.mint_b.address
            == other.mint_b.address && self.mint_b.decimals == other.mint_b.decimals
            && self.maker_token_ata == other.maker_token_ata && self.escrow == other.escrow
            && self.vault == other.vault
    }
}

/// The record of an offer: the maker and the two assets as presented, the
/// quantity wanted, and the bump seed of the record's address.
pub open spec fn spec_create_offer(ctx: Make, id: u64, amount: u64, bump: u8) -> Offer {
    Offer {
        id,
        maker: ctx.maker,
        maker_token: ctx.mint_a.address,
        taker_token: ctx.mint_b.address,
        amount,
        bump,
    }
}

/// Builds the record of an offer that wants `amount` units of `mint_b`.
pub fn create_offer(ctx: &Make, id: u64, amount: u64, bump: u8) -> (offer: Offer)
    ensures
        offer == spec_create_offer(*ctx, id, amount, bump),
{
    Offer {
        id,
        maker: ctx.maker,
        maker_token: ctx.mint_a.address,
        taker_token: ctx.mint_b.address,
        amount,
        bump,
    }
}

/// The deposit: `amount` units of `mint_a` from the maker's account to the
/// vault, ordered by the maker, with the decimal places of `mint_a`.
pub open spec fn spec_send_tokens_to_vault(ctx: Make, amount: u64) -> TransferChecked {
    spec_transfer_tokens(ctx.maker, amount, ctx.mint_a, ctx.vault, ctx.maker_token_ata)
}

/// Builds the transfer that deposits `amount` units in the vault.
pub fn send_tokens_to_vault(ctx: &Make, amount: u64) -> (ix: TransferChecked)
    ensures
        ix == spec_send_tokens_to_vault(*ctx, amount),
{
    transfer_tokens(&ctx.maker, amount, &ctx.mint_a, &ctx.vault, &ctx.maker_token_ata)
}

} // verus!
