//! Take: the accounts presented, the payment, and the release of the vault.

use crate::address::Address;
use crate::authority::{
    seed_bytes, signer_seeds, spec_signer_seeds, spec_token_address, token_address, Programs,
};
use crate::gateway::{CloseAccount, Mint, TransferChecked};
use crate::instructions::shared::{
    spec_transfer_tokens, transfer_tokens, SignedClose, SignedTransfer,
};
use crate::offer::Offer;
use vstd::prelude::*;

verus! {

/// The accounts that a taker presents to settle an offer.
#[derive(Clone, Copy, Debug, PartialEq, Eq)]
pub struct Take {
    /// The caller, whom the environment has authenticated.
    pub taker: Address,
    /// The asset that the vault holds.
    pub maker_token: Mint,
    /// The asset that the taker pays with.
    pub taker_token: Mint,
    /// The address of the record.
    pub escrow: Address,
    /// The vault.
    pub vault_mint_a: Address,
    /// The maker of the offer.
    pub maker: Address,
    /// The maker's account of `taker_token`, which receives the payment.
    pub maker_token_ata_mint_b: Address,
    /// The taker's account of `maker_token`, which receives the deposit.
    pub taker_token_ata_mint_a: Address,
    /// The taker's account of `taker_token`, from which the payment is taken.
    pub taker_token_ata_mint_b: Address,
}

impl Take {
    /// The accounts that the derivation yields for `taker` settling the offer
    /// at `escrow`: each token account at the token address of its owner and
    /// asset. `None` where a derivation finds no address.
    pub open spec fn spec_canonical(
        programs: Programs,
        taker: Address,
        maker: Address,
        maker_token: Mint,
        taker_token: Mint,
        escrow: Address,
    ) -> Option<Take> {
        match (
            spec_token_address(programs, escrow, maker_token.address),
            spec_token_address(programs, maker, taker_token.address),
            spec_token_address(programs, taker, maker_token.address),
            spec_token_address(programs, taker, taker_token.address),
        ) {
            (
                Some(vault_mint_a),
                Some(maker_token_ata_mint_b),
                Some(taker_token_ata_mint_a),
                Some(taker_token_ata_mint_b),
            ) => Some(
                Take {
                    taker,
                    maker_token,
                    taker_token,
                    escrow,
                    vault_mint_a,
                    maker,
                    maker_token_ata_mint_b,
                    taker_token_ata_mint_a,
                    taker_token_ata_mint_b,
                },
            ),
            _ => None,
        }
    }

    /// Derives the accounts with which `taker` settles the offer at `escrow`.
    pub fn canonical(
        programs: &Programs,
        taker: &Address,
        maker: &Address,
        maker_token: &Mint,
        taker_token: &Mint,
        escrow: &Address,
    ) -> (r: Option<Take>)
        ensures
            r == Take::spec_canonical(
                *programs,
                *taker,
                *maker,
                *maker_token,
                *taker_token,
                *escrow,
            ),
    {
        let vault_mint_a = match token_address(programs, escrow, &maker_token.address) {
            Some(address) => address,
            None => {
                return None;
            },
        };
        let maker_token_ata_mint_b = match token_address(programs, maker, &taker_token.address) {
            Some(address) => address,
            None => {
                return None;
            },
        };
        let taker_token_ata_mint_a = match token_address(programs, taker, &maker_token.address) {
            Some(address) => address,
            None => {
                return None;
            },
        };
        let taker_token_ata_mint_b = match token_address(programs, taker, &taker_token.address) {
            Some(address) => address,
            None => {
                return None;
            },
        };
        Some(
            Take {
                taker: *taker,
                maker_token: *maker_token,
                taker_token: *taker_token,
                escrow: *escrow,
                vault_mint_a,
                maker: *maker,
                maker_token_ata_mint_b,
                taker_token_ata_mint_a,
                taker_token_ata_mint_b,
            },
        )
    }

    /// Tells whether two callers present the same accounts.
    pub fn same_accounts(&self, other: &Take) -> (r: bool)
        ensures
            r == (*self == *other),
    {
        self.taker == other.taker && self.maker_token.address == other.maker_token.address
            && self.maker_token.decimals == other.maker_token.decimals
            && self.taker_token.address == other.taker_token.address
            && self.taker_token.decimals == other.taker_token.decimals && self.escrow
            == other.escrow && self.vault_mint_a
            == other.vault_mint_a && self.maker == other.maker && self.maker_token_ata_mint_b
            == other.maker_token_ata_mint_b && self.taker_token_ata_mint_a
            == other.taker_token_ata_mint_a && self.taker_token_ata_mint_b
            == other.taker_token_ata_mint_b
    }
}

/// The payment: the quantity that the offer wants, in the asset that the taker
/// presents, from the taker's account to the maker's, ordered by the taker.
pub open spec fn spec_send_tokens_maker(ctx: Take, offer: Offer) -> TransferChecked {
    spec_transfer_tokens(
        ctx.taker,
        offer.amount,
        ctx.taker_token,
        ctx.maker_token_ata_mint_b,
        ctx.taker_token_ata_mint_b,
    )
}

/// Builds the transfer that pays the maker.
pub fn send_tokens_maker(ctx: &Take, offer: &Offer) -> (ix: TransferChecked)
    ensures
        ix == spec_send_tokens_maker(*ctx, *offer),
{
    transfer_tokens(
        &ctx.taker,
        offer.amount,
        &ctx.taker_token,
        &ctx.maker_token_ata_mint_b,
        &ctx.taker_token_ata_mint_b,
    )
}

/// The release: all that the vault holds, from the vault to the taker's
/// account, ordered by the custody authority, with the decimal places of the
/// asset deposited.
pub open spec fn spec_withdraw(ctx: Take, vault_balance: u64) -> TransferChecked {
    spec_transfer_tokens(
        ctx.escrow,
        vault_balance,
        ctx.maker_token,
        ctx.taker_token_ata_mint_a,
        ctx.vault_mint_a,
    )
}

/// The closing of the vault after a settlement, ordered by the custody
/// authority; the storage deposit goes to the taker.
pub open spec fn spec_close_vault(ctx: Take) -> CloseAccount {
    CloseAccount { account: ctx.vault_mint_a, destination: ctx.taker, authority: ctx.escrow }
}

/// Builds the two instructions that release the vault to the taker: the
/// transfer of all that the vault holds, then the closing of the vault. Both
/// carry the signer seeds of the offer.
pub fn withdraw_close_escrow(ctx: &Take, offer: &Offer, vault_balance: u64) -> (r: (
    SignedTransfer,
    SignedClose,
))
    ensures
        r.0.instruction == spec_withdraw(*ctx, vault_balance),
        r.1.instruction == spec_close_vault(*ctx),
        seed_bytes(r.0.signer_seeds@) == spec_signer_seeds(ctx.maker, offer.id, offer.bump),
        seed_bytes(r.1.signer_seeds@) == spec_signer_seeds(ctx.maker, offer.id, offer.bump),
{
    let transfer = SignedTransfer {
        instruction: transfer_tokens(
            &ctx.escrow,
            vault_balance,
            &ctx.maker_token,
            &ctx.taker_token_ata_mint_a,
            &ctx.vault_mint_a,
        ),
        signer_seeds: signer_seeds(&ctx.maker, offer.id, offer.bump),
    };
    let close = SignedClose {
        instruction: CloseAccount {
            account: ctx.vault_mint_a,
            destination: ctx.taker,
            authority: ctx.escrow,
        },
        signer_seeds: signer_seeds(&ctx.maker, offer.id, offer.bump),
    };
    (transfer, close)
}

} // verus!
