//! The escrow protocol: the three transitions that create, settle and cancel
//! an offer, over the records and the token accounts that exist.
//!
//! A transition is all or nothing. It works on a copy of the ledger and puts
//! the copy in place when every step has succeeded; a step that fails leaves
//! records and accounts as they were.

use crate::address::Address;
use crate::authority::{custody_authority, spec_custody_authority, yields, Programs};
use crate::error::EscrowError;
use crate::gateway::{
    applied, spec_check_account, spec_close, spec_create_account, spec_ensure_account,
    spec_mint_to, spec_transfer, Ledger, TokenAccount,
};
use crate::instructions::make::{
    create_offer, send_tokens_to_vault, spec_create_offer, spec_send_tokens_to_vault, Make,
};
use crate::instructions::refund::{
    close_escrow, refund_maker, spec_close_escrow, spec_refund_maker, Refund,
};
use crate::instructions::shared::after_transfer;
use crate::instructions::take::{
    send_tokens_maker, spec_close_vault, spec_send_tokens_maker, spec_withdraw,
    withdraw_close_escrow, Take,
};
use crate::laws::{
    law_create_account_keeps_vaults, law_make_keeps_vaults, law_mint_to_keeps_vaults,
    law_refund_keeps_vaults, law_take_keeps_vaults,
};
use crate::offer::Offer;
use crate::table::AddressMap;
use vstd::prelude::*;

verus! {

/// What the escrow is at one moment: the programs it derives addresses
/// under, the open offers by the address of their record, and the token
/// accounts by their address.
pub struct EscrowView {
    pub programs: Programs,
    pub offers: Map<Address, Offer>,
    pub accounts: Map<Address, TokenAccount>,
}

/// The records and the accounts, which change together.
struct Books {
    offers: AddressMap<Offer>,
    ledger: Ledger,
}

/// The escrow: the records of the open offers, and the ledger of token
/// accounts that the offers move assets on.
pub struct Escrow {
    programs: Programs,
    books: Books,
}

impl View for Escrow {
    type V = EscrowView;

    closed spec fn view(&self) -> EscrowView {
        EscrowView {
            programs: self.programs,
            offers: self.books.offers@,
            accounts: self.books.ledger@,
        }
    }
}

/// Every open offer has a vault: some account of the asset deposited, under
/// the address of the offer's record.
pub open spec fn vaulted(view: EscrowView) -> bool {
    forall|a: Address| #[trigger]
        view.offers.contains_key(a) ==> exists|v: Address| #[trigger]
            view.accounts.contains_key(v) && view.accounts[v].owner == a && view.accounts[v].mint
                == view.offers[a].maker_token
}

/// What Make does. It is refused, in this order: where the accounts presented
/// are not the derived ones; where a record exists at the record's address;
/// where the maker's account is missing, holds another asset or has another
/// owner; where the vault's address is occupied; and where the deposit cannot
/// be moved. Else the vault exists under the record's address and holds the
/// deposit, and the record is stored.
pub open spec fn make_outcome(
    pre: EscrowView,
    ctx: Make,
    id: u64,
    deposit: u64,
    receive: u64,
    canonical: Option<(Make, u8)>,
) -> Result<EscrowView, EscrowError> {
    match canonical {
        None => Err(EscrowError::AddressMismatch),
        Some((derived, bump)) => {
            if derived != ctx {
                Err(EscrowError::AddressMismatch)
            } else if pre.offers.contains_key(ctx.escrow) {
                Err(EscrowError::Duplicate)
            } else {
                match spec_check_account(
                    pre.accounts,
                    ctx.maker_token_ata,
                    ctx.mint_a.address,
                    ctx.maker,
                ) {
                    Err(e) => Err(e),
                    Ok(_) => match spec_create_account(
                        pre.accounts,
                        ctx.vault,
                        ctx.mint_a.address,
                        ctx.escrow,
                    ) {
                        Err(e) => Err(e),
                        Ok(opened) => match spec_transfer(
                            opened,
                            spec_send_tokens_to_vault(ctx, deposit),
                        ) {
                            Err(e) => Err(e),
                            Ok(accounts) => Ok(
                                EscrowView {
                                    programs: pre.programs,
                                    offers: pre.offers.insert(
                                        ctx.escrow,
                                        spec_create_offer(ctx, id, receive, bump),
                                    ),
                                    accounts,
                                },
                            ),
                        },
                    },
                }
            }
        },
    }
}

/// What the steps of Take do to the accounts: the two receiving accounts are
/// there, opened where they were missing; the payment moves from the taker to
/// the maker; all that the vault then holds moves to the taker; the vault is
/// closed. The first step that fails decides the error.
pub open spec fn take_accounts(
    accounts: Map<Address, TokenAccount>,
    ctx: Take,
    offer: Offer,
) -> Result<Map<Address, TokenAccount>, EscrowError> {
    match spec_ensure_account(
        accounts,
        ctx.maker_token_ata_mint_b,
        ctx.taker_token.address,
        ctx.maker,
    ) {
        Err(e) => Err(e),
        Ok(first) => match spec_ensure_account(
            first,
            ctx.taker_token_ata_mint_a,
            ctx.maker_token.address,
            ctx.taker,
        ) {
            Err(e) => Err(e),
            Ok(second) => match spec_transfer(second, spec_send_tokens_maker(ctx, offer)) {
                Err(e) => Err(e),
                Ok(paid) => if !paid.contains_key(ctx.vault_mint_a) {
                    Err(EscrowError::NotFound)
                } else {
                    match spec_transfer(paid, spec_withdraw(ctx, paid[ctx.vault_mint_a].amount)) {
                        Err(e) => Err(e),
                        Ok(released) => spec_close(released, spec_close_vault(ctx)),
                    }
                },
            },
        },
    }
}

/// What Take does, where the signer seeds of the record reproduce `authority`
/// and the derivation yields the accounts `canonical`. It is refused, in this
/// order: where no record exists at the address presented; where the maker
/// presented is not the maker recorded; where an asset presented is not the
/// asset recorded; where the record's address is not the authority that its
/// signer seeds reproduce, or the token accounts presented are not the
/// derived ones; and where a step on the accounts fails. Else the accounts
/// are as the steps leave them, and the record is gone.
pub open spec fn take_outcome(
    pre: EscrowView,
    ctx: Take,
    authority: Option<Address>,
    canonical: Option<Take>,
) -> Result<EscrowView, EscrowError> {
    if !pre.offers.contains_key(ctx.escrow) {
        Err(EscrowError::NotFound)
    } else if pre.offers[ctx.escrow].maker != ctx.maker {
        Err(EscrowError::Unauthorized)
    } else if pre.offers[ctx.escrow].maker_token != ctx.maker_token.address
        || pre.offers[ctx.escrow].taker_token != ctx.taker_token.address {
        Err(EscrowError::AssetMismatch)
    } else if authority != Some(ctx.escrow) || canonical != Some(ctx) {
        Err(EscrowError::AddressMismatch)
    } else {
        match take_accounts(pre.accounts, ctx, pre.offers[ctx.escrow]) {
            Err(e) => Err(e),
            Ok(accounts) => Ok(
                EscrowView {
                    programs: pre.programs,
                    offers: pre.offers.remove(ctx.escrow),
                    accounts,
                },
            ),
        }
    }
}

/// What the steps of Refund do to the accounts: the maker's account is one of
/// the asset under the maker; all that the vault holds moves to it; whatever
/// the vault holds after that moves to it too; the vault is closed. The first
/// step that fails decides the error, and nothing follows it.
pub open spec fn refund_accounts(accounts: Map<Address, TokenAccount>, ctx: Refund) -> Result<
    Map<Address, TokenAccount>,
    EscrowError,
> {
    match spec_check_account(accounts, ctx.maker_token_ata, ctx.maker_token.address, ctx.maker) {
        Err(e) => Err(e),
        Ok(_) => if !accounts.contains_key(ctx.vault_ata) {
            Err(EscrowError::NotFound)
        } else {
            match spec_transfer(accounts, spec_refund_maker(ctx, accounts[ctx.vault_ata].amount)) {
                Err(e) => Err(e),
                Ok(returned) => match spec_transfer(
                    returned,
                    spec_refund_maker(ctx, returned[ctx.vault_ata].amount),
                ) {
                    Err(e) => Err(e),
                    Ok(emptied) => spec_close(emptied, spec_close_escrow(ctx)),
                },
            }
        },
    }
}

/// What Refund does, where the signer seeds of the record reproduce
/// `authority` and the derivation yields the accounts `canonical`. It is
/// refused, in this order: where no record exists at the address presented;
/// where the caller is not the maker recorded; where the asset presented is
/// not the asset recorded; where the record's address is not the authority
/// that its signer seeds reproduce, or the token accounts presented are not
/// the derived ones; and where a step on the accounts fails. Else the
/// accounts are as the steps leave them, and the record is gone.
pub open spec fn refund_outcome(
    pre: EscrowView,
    ctx: Refund,
    authority: Option<Address>,
    canonical: Option<Refund>,
) -> Result<EscrowView, EscrowError> {
    if !pre.offers.contains_key(ctx.escrow) {
        Err(EscrowError::NotFound)
    } else if pre.offers[ctx.escrow].maker != ctx.maker {
        Err(EscrowError::Unauthorized)
    } else if pre.offers[ctx.escrow].maker_token != ctx.maker_token.address {
        Err(EscrowError::AssetMismatch)
    } else if authority != Some(ctx.escrow) || canonical != Some(ctx) {
        Err(EscrowError::AddressMismatch)
    } else {
        match refund_accounts(pre.accounts, ctx) {
            Err(e) => Err(e),
            Ok(accounts) => Ok(
                EscrowView {
                    programs: pre.programs,
                    offers: pre.offers.remove(ctx.escrow),
                    accounts,
                },
            ),
        }
    }
}

/// The authority that the signer seeds of the record at `address` reproduce:
/// none where there is no record, or where the derivation yields none.
pub open spec fn spec_recorded_authority(view: EscrowView, address: Address) -> Option<Address> {
    if view.offers.contains_key(address) {
        spec_custody_authority(
            view.programs.escrow,
            view.offers[address].maker,
            view.offers[address].id,
            view.offers[address].bump,
        )
    } else {
        None
    }
}

impl Escrow {
    /// Every open offer has a vault.
    #[verifier::type_invariant]
    spec fn inv(self) -> bool {
        vaulted(self@)
    }

    /// The escrow holds finitely many accounts, so that the units of an asset
    /// that they hold together are a number.
    pub proof fn lemma_accounts_are_finite(&self)
        ensures
            self@.accounts.dom().finite(),
    {
        self.books.ledger.lemma_finite();
    }

    /// The escrow without offers and without accounts.
    pub fn new(programs: Programs) -> (escrow: Escrow)
        ensures
            escrow@ == (EscrowView {
                programs,
                offers: Map::<Address, Offer>::empty(),
                accounts: Map::<Address, TokenAccount>::empty(),
            }),
    {
        Escrow { programs, books: Books { offers: AddressMap::new(), ledger: Ledger::new() } }
    }

    /// The programs under which the escrow derives addresses.
    pub fn programs(&self) -> (programs: Programs)
        ensures
            programs == self@.programs,
    {
        self.programs
    }

    /// The record at `address`, if an offer is open there. While an offer is
    /// open its vault exists: in every state that the escrow reaches, each
    /// record is paired with an account of the asset deposited under the
    /// record's address.
    pub fn offer(&self, address: &Address) -> (r: Option<Offer>)
        ensures
            r == (if self@.offers.contains_key(*address) {
                Some(self@.offers[*address])
            } else {
                None
            }),
            vaulted(self@),
    {
        proof {
            use_type_invariant(self);
        }
        self.books.offers.get(address)
    }

    /// The token account at `address`, if there is one.
    pub fn account(&self, address: &Address) -> (r: Option<TokenAccount>)
        ensures
            r == (if self@.accounts.contains_key(*address) {
                Some(self@.accounts[*address])
            } else {
                None
            }),
    {
        self.books.ledger.account(address)
    }

    /// Derives the authority that the signer seeds of the record at `address`
    /// reproduce.
    pub fn recorded_authority(&self, address: &Address) -> (r: Option<Address>)
        ensures
            r == spec_recorded_authority(self@, *address),
    {
        match self.books.offers.get(address) {
            Some(offer) => custody_authority(
                &self.programs.escrow,
                &offer.maker,
                offer.id,
                offer.bump,
            ),
            None => None,
        }
    }

    /// Takes the books out to change them, and leaves the escrow empty until
    /// they are put back.
    fn take_books(&mut self) -> (books: Books)
        ensures
            books.offers@ == old(self)@.offers,
            books.ledger@ == old(self)@.accounts,
            vaulted(old(self)@),
            final(self).programs == old(self).programs,
    {
        proof {
            use_type_invariant(&*self);
        }
        let mut books = Books { offers: AddressMap::new(), ledger: Ledger::new() };
        core::mem::swap(&mut self.books, &mut books);
        books
    }

    /// Opens an empty token account, as any party may. Offers are untouched.
    pub fn create_account(&mut self, address: &Address, mint: &Address, owner: &Address) -> (r:
        Result<(), EscrowError>)
        ensures
            final(self)@.programs == old(self)@.programs,
            final(self)@.offers == old(self)@.offers,
            applied(
                spec_create_account(old(self)@.accounts, *address, *mint, *owner),
                old(self)@.accounts,
                final(self)@.accounts,
                r,
            ),
    {
        let mut books = self.take_books();
        proof {
            law_create_account_keeps_vaults(old(self)@, *address, *mint, *owner);
        }
        let r = books.ledger.create_account(address, mint, owner);
        self.books = books;
        r
    }

    /// Issues new units into a token account, as the asset's issuer may.
    /// Offers are untouched.
    pub fn mint_to(&mut self, address: &Address, amount: u64) -> (r: Result<(), EscrowError>)
        ensures
            final(self)@.programs == old(self)@.programs,
            final(self)@.offers == old(self)@.offers,
            applied(
                spec_mint_to(old(self)@.accounts, *address, amount),
                old(self)@.accounts,
                final(self)@.accounts,
                r,
            ),
    {
        let mut books = self.take_books();
        proof {
            law_mint_to_keeps_vaults(old(self)@, *address, amount);
        }
        let r = books.ledger.mint_to(address, amount);
        self.books = books;
        r
    }
}

/// Make, given the accounts and the bump seed that the derivation yields
/// for the maker and the id.
pub fn make_with(
    state: &mut Escrow,
    ctx: &Make,
    id: u64,
    deposit: u64,
    receive: u64,
    canonical: Option<(Make, u8)>,
) -> (r: Result<(), EscrowError>)
    ensures
        applied(
            make_outcome(old(state)@, *ctx, id, deposit, receive, canonical),
            old(state)@,
            final(state)@,
            r,
        ),
{
    let bump = match canonical {
        None => {
            return Err(EscrowError::AddressMismatch);
        },
        Some((derived, bump)) => {
            if !derived.same_accounts(ctx) {
                return Err(EscrowError::AddressMismatch);
            }
            bump
        },
    };
    if state.books.offers.contains(&ctx.escrow) {
        return Err(EscrowError::Duplicate);
    }
    let mut ledger = state.books.ledger.duplicate();
    match ledger.check_account(&ctx.maker_token_ata, &ctx.mint_a.address, &ctx.maker) {
        Err(e) => {
            return Err(e);
        },
        Ok(_) => {},
    }
    match ledger.create_account(&ctx.vault, &ctx.mint_a.address, &ctx.escrow) {
        Err(e) => {
            return Err(e);
        },
        Ok(_) => {},
    }
    match ledger.transfer_checked(&send_tokens_to_vault(ctx, deposit)) {
        Err(e) => {
            return Err(e);
        },
        Ok(_) => {},
    }
    let mut books = state.take_books();
    proof {
        law_make_keeps_vaults(old(state)@, *ctx, id, deposit, receive, canonical);
    }
    books.ledger = ledger;
    books.offers.insert(ctx.escrow, create_offer(ctx, id, receive, bump));
    state.books = books;
    Ok(())
}

/// Make: the maker deposits `deposit` units of `mint_a` in a new vault and
/// opens an offer that wants `receive` units of `mint_b`. The signer seeds of
/// the record stored reproduce the record's address.
pub fn make(state: &mut Escrow, ctx: &Make, id: u64, deposit: u64, receive: u64) -> (r: Result<
    (),
    EscrowError,
>)
    ensures
        applied(
            make_outcome(
                old(state)@,
                *ctx,
                id,
                deposit,
                receive,
                Make::spec_canonical(old(state)@.programs, ctx.maker, ctx.mint_a, ctx.mint_b, id),
            ),
            old(state)@,
            final(state)@,
            r,
        ),
        r is Ok ==> spec_recorded_authority(final(state)@, ctx.escrow) == Some(ctx.escrow),
{
    let canonical = Make::canonical(&state.programs, &ctx.maker, &ctx.mint_a, &ctx.mint_b, id);
    make_with(state, ctx, id, deposit, receive, canonical)
}

/// Take, given the authority that the signer seeds of the record reproduce,
/// and the accounts that the derivation yields for the parties and the assets
/// presented.
pub fn take_with(
    state: &mut Escrow,
    ctx: &Take,
    authority: Option<Address>,
    canonical: Option<Take>,
) -> (r: Result<(), EscrowError>)
    ensures
        applied(
            take_outcome(old(state)@, *ctx, authority, canonical),
            old(state)@,
            final(state)@,
            r,
        ),
{
    let offer = match state.books.offers.get(&ctx.escrow) {
        None => {
            return Err(EscrowError::NotFound);
        },
        Some(offer) => offer,
    };
    if offer.maker != ctx.maker {
        return Err(EscrowError::Unauthorized);
    }
    if offer.maker_token != ctx.maker_token.address || offer.taker_token
        != ctx.taker_token.address {
        return Err(EscrowError::AssetMismatch);
    }
    if !yields(authority, &ctx.escrow) {
        return Err(EscrowError::AddressMismatch);
    }
    match canonical {
        None => {
            return Err(EscrowError::AddressMismatch);
        },
        Some(derived) => {
            if !derived.same_accounts(ctx) {
                return Err(EscrowError::AddressMismatch);
            }
        },
    }
    let mut ledger = state.books.ledger.duplicate();
    match ledger.ensure_account(
        &ctx.maker_token_ata_mint_b,
        &ctx.taker_token.address,
        &ctx.maker,
    ) {
        Err(e) => {
            return Err(e);
        },
        Ok(_) => {},
    }
    match ledger.ensure_account(
        &ctx.taker_token_ata_mint_a,
        &ctx.maker_token.address,
        &ctx.taker,
    ) {
        Err(e) => {
            return Err(e);
        },
        Ok(_) => {},
    }
    match ledger.transfer_checked(&send_tokens_maker(ctx, &offer)) {
        Err(e) => {
            return Err(e);
        },
        Ok(_) => {},
    }
    let vault = match ledger.account(&ctx.vault_mint_a) {
        None => {
            return Err(EscrowError::NotFound);
        },
        Some(vault) => vault,
    };
    let (withdraw, close) = withdraw_close_escrow(ctx, &offer, vault.amount);
    let close = match after_transfer(ledger.transfer_checked(&withdraw.instruction), close) {
        Err(e) => {
            return Err(e);
        },
        Ok(close) => close,
    };
    match ledger.close_account(&close.instruction) {
        Err(e) => {
            return Err(e);
        },
        Ok(_) => {},
    }
    let mut books = state.take_books();
    proof {
        law_take_keeps_vaults(old(state)@, *ctx, authority, canonical);
    }
    books.ledger = ledger;
    books.offers.remove(&ctx.escrow);
    state.books = books;
    Ok(())
}

/// Take: the taker pays what the offer wants and receives what the vault
/// holds; the vault and the record are gone.
pub fn take(state: &mut Escrow, ctx: &Take) -> (r: Result<(), EscrowError>)
    ensures
        applied(
            take_outcome(
                old(state)@,
                *ctx,
                spec_recorded_authority(old(state)@, ctx.escrow),
                Take::spec_canonical(
                    old(state)@.programs,
                    ctx.taker,
                    ctx.maker,
                    ctx.maker_token,
                    ctx.taker_token,
                    ctx.escrow,
                ),
            ),
            old(state)@,
            final(state)@,
            r,
        ),
{
    let canonical = Take::canonical(
        &state.programs,
        &ctx.taker,
        &ctx.maker,
        &ctx.maker_token,
        &ctx.taker_token,
        &ctx.escrow,
    );
    let authority = state.recorded_authority(&ctx.escrow);
    take_with(state, ctx, authority, canonical)
}

/// Refund, given the authority that the signer seeds of the record
/// reproduce, and the accounts that the derivation yields for the maker and
/// the asset presented.
pub fn refund_with(
    state: &mut Escrow,
    ctx: &Refund,
    authority: Option<Address>,
    canonical: Option<Refund>,
) -> (r: Result<(), EscrowError>)
    ensures
        applied(
            refund_outcome(old(state)@, *ctx, authority, canonical),
            old(state)@,
            final(state)@,
            r,
        ),
{
    let offer = match state.books.offers.get(&ctx.escrow) {
        None => {
            return Err(EscrowError::NotFound);
        },
        Some(offer) => offer,
    };
    if offer.maker != ctx.maker {
        return Err(EscrowError::Unauthorized);
    }
    if offer.maker_token != ctx.maker_token.address {
        return Err(EscrowError::AssetMismatch);
    }
    if !yields(authority, &ctx.escrow) {
        return Err(EscrowError::AddressMismatch);
    }
    match canonical {
        None => {
            return Err(EscrowError::AddressMismatch);
        },
        Some(derived) => {
            if !derived.same_accounts(ctx) {
                return Err(EscrowError::AddressMismatch);
            }
        },
    }
    let mut ledger = state.books.ledger.duplicate();
    match ledger.check_account(&ctx.maker_token_ata, &ctx.maker_token.address, &ctx.maker) {
        Err(e) => {
            return Err(e);
        },
        Ok(_) => {},
    }
    let vault = match ledger.account(&ctx.vault_ata) {
        None => {
            return Err(EscrowError::NotFound);
        },
        Some(vault) => vault,
    };
    match ledger.transfer_checked(&refund_maker(ctx, &offer, vault.amount).instruction) {
        Err(e) => {
            return Err(e);
        },
        Ok(_) => {},
    }
    let left = match ledger.account(&ctx.vault_ata) {
        None => {
            // a transfer closes no account
            proof {
                assert(false);
            }
            return Err(EscrowError::NotFound);
        },
        Some(vault) => vault.amount,
    };
    let (rest, close) = close_escrow(ctx, &offer, left);
    let close = match after_transfer(ledger.transfer_checked(&rest.instruction), close) {
        Err(e) => {
            return Err(e);
        },
        Ok(close) => close,
    };
    match ledger.close_account(&close.instruction) {
        Err(e) => {
            return Err(e);
        },
        Ok(_) => {},
    }
    let mut books = state.take_books();
    proof {
        law_refund_keeps_vaults(old(state)@, *ctx, authority, canonical);
    }
    books.ledger = ledger;
    books.offers.remove(&ctx.escrow);
    state.books = books;
    Ok(())
}

/// Refund: the maker takes back what the vault holds; the vault and the
/// record are gone.
pub fn refund(state: &mut Escrow, ctx: &Refund) -> (r: Result<(), EscrowError>)
    ensures
        applied(
            refund_outcome(
                old(state)@,
                *ctx,
                spec_recorded_authority(old(state)@, ctx.escrow),
                Refund::spec_canonical(
                    old(state)@.programs,
                    ctx.maker,
                    ctx.maker_token,
                    ctx.escrow,
                ),
            ),
            old(state)@,
            final(state)@,
            r,
        ),
{
    let canonical = Refund::canonical(&state.programs, &ctx.maker, &ctx.maker_token, &ctx.escrow);
    let authority = state.recorded_authority(&ctx.escrow);
    refund_with(state, ctx, authority, canonical)
}

} // verus!
