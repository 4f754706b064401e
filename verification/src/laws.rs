//! What holds of the escrow whatever the offers, the accounts and the callers
//! are. Each law is stated over the outcome of a transition, which the
//! transition's own contract ties to the state that it leaves.

use crate::address::{lemma_address_by_bytes, Address};
use crate::authority::{spec_offer_seeds, Programs};
use crate::error::EscrowError;
use crate::gateway::{
    spec_close, spec_create_account, spec_ensure_account, spec_mint_to, spec_transfer, Mint,
    TokenAccount,
};
use crate::instructions::make::{spec_create_offer, spec_send_tokens_to_vault, Make};
use crate::instructions::refund::{spec_close_escrow, spec_refund_maker, Refund};
use crate::instructions::take::{
    spec_close_vault, spec_send_tokens_maker, spec_withdraw, Take,
};
use crate::protocol::{make_outcome, refund_outcome, take_outcome, vaulted, EscrowView};
use crate::supply::{
    lemma_close_keeps_supply, lemma_create_account_keeps_supply,
    lemma_ensure_account_keeps_supply, lemma_transfer_keeps_supply, supply,
};
use vstd::bytes::{
    lemma_auto_spec_u64_to_from_le_bytes, spec_u64_from_le_bytes, spec_u64_to_le_bytes,
};
use vstd::prelude::*;

verus! {

/// Conservation on Make: after a successful Make the vault exists under
/// the record's address and holds exactly the deposit, the maker's account
/// holds exactly the deposit less, and the record stored is the one that
/// describes the deal, with the bump seed that the derivation yielded.
pub proof fn law_make_deposits(
    pre: EscrowView,
    ctx: Make,
    id: u64,
    deposit: u64,
    receive: u64,
    canonical: Option<(Make, u8)>,
    post: EscrowView,
)
    requires
        make_outcome(pre, ctx, id, deposit, receive, canonical) == Ok::<EscrowView, EscrowError>(
            post,
        ),
    ensures
        canonical matches Some((derived, bump)) && derived == ctx && post.offers[ctx.escrow]
            == spec_create_offer(ctx, id, receive, bump),
        !pre.offers.contains_key(ctx.escrow),
        post.offers.contains_key(ctx.escrow),
        !pre.accounts.contains_key(ctx.vault),
        post.accounts.contains_key(ctx.vault),
        post.accounts[ctx.vault] == (TokenAccount {
            mint: ctx.mint_a.address,
            owner: ctx.escrow,
            amount: deposit,
        }),
        pre.accounts.contains_key(ctx.maker_token_ata),
        post.accounts.contains_key(ctx.maker_token_ata),
        post.accounts[ctx.maker_token_ata].amount == pre.accounts[ctx.maker_token_ata].amount
            - deposit,
{
}

/// Make touches nothing else: every other record, and every account but the
/// maker's and the vault, is after a successful Make what it was before.
pub proof fn law_make_frame(
    pre: EscrowView,
    ctx: Make,
    id: u64,
    deposit: u64,
    receive: u64,
    canonical: Option<(Make, u8)>,
    post: EscrowView,
)
    requires
        make_outcome(pre, ctx, id, deposit, receive, canonical) == Ok::<EscrowView, EscrowError>(
            post,
        ),
    ensures
        post.programs == pre.programs,
        forall|a: Address|
            a != ctx.escrow ==> post.offers.contains_key(a) == pre.offers.contains_key(a),
        forall|a: Address|
            a != ctx.escrow && pre.offers.contains_key(a) ==> post.offers[a] == pre.offers[a],
        forall|a: Address|
            a != ctx.vault ==> post.accounts.contains_key(a) == pre.accounts.contains_key(a),
        forall|a: Address|
            a != ctx.vault && a != ctx.maker_token_ata && pre.accounts.contains_key(a)
                ==> post.accounts[a] == pre.accounts[a],
{
}

/// A record is created once: Make at an address where a record exists is
/// refused, whatever else is presented.
pub proof fn law_make_never_overwrites(
    pre: EscrowView,
    ctx: Make,
    id: u64,
    deposit: u64,
    receive: u64,
    canonical: Option<(Make, u8)>,
)
    requires
        pre.offers.contains_key(ctx.escrow),
    ensures
        make_outcome(pre, ctx, id, deposit, receive, canonical) == Err::<EscrowView, EscrowError>(
            if canonical matches Some((derived, _)) && derived == ctx {
                EscrowError::Duplicate
            } else {
                EscrowError::AddressMismatch
            },
        ),
{
}

/// Offers side by side: after a successful Make, a second Make by the same
/// maker from the same account, at an address where no record is, with its
/// accounts taken as the derived ones, its vault's address free and its
/// deposit in the maker's account, succeeds. The two records sit at different
/// addresses and so do the two vaults, the first record is what it was, and
/// each vault holds its own deposit.
pub proof fn law_second_make_beside_first(
    pre: EscrowView,
    first: Make,
    id: u64,
    deposit: u64,
    receive: u64,
    canonical: Option<(Make, u8)>,
    between: EscrowView,
    second: Make,
    other_id: u64,
    other_deposit: u64,
    other_receive: u64,
    other_bump: u8,
)
    requires
        make_outcome(pre, first, id, deposit, receive, canonical) == Ok::<EscrowView, EscrowError>(
            between,
        ),
        second.maker == first.maker,
        second.mint_a == first.mint_a,
        second.maker_token_ata == first.maker_token_ata,
        !between.offers.contains_key(second.escrow),
        !between.accounts.contains_key(second.vault),
        between.accounts[first.maker_token_ata].amount >= other_deposit,
    ensures
        make_outcome(
            between,
            second,
            other_id,
            other_deposit,
            other_receive,
            Some((second, other_bump)),
        ) matches Ok(post) && {
            &&& second.escrow != first.escrow
            &&& second.vault != first.vault
            &&& post.offers.contains_key(first.escrow)
            &&& post.offers[first.escrow] == between.offers[first.escrow]
            &&& post.offers[first.escrow] == spec_create_offer(
                first,
                id,
                receive,
                between.offers[first.escrow].bump,
            )
            &&& post.accounts.contains_key(first.vault)
            &&& post.accounts[first.vault].amount == deposit
            &&& post.accounts.contains_key(second.vault)
            &&& post.accounts[second.vault].amount == other_deposit
        },
{
}

/// Conservation on Take: after a successful Take the vault no longer exists,
/// and neither does the record.
pub proof fn law_take_closes_vault(
    pre: EscrowView,
    ctx: Take,
    authority: Option<Address>,
    canonical: Option<Take>,
    post: EscrowView,
)
    requires
        take_outcome(pre, ctx, authority, canonical) == Ok::<EscrowView, EscrowError>(post),
    ensures
        pre.offers.contains_key(ctx.escrow),
        !post.offers.contains_key(ctx.escrow),
        !post.accounts.contains_key(ctx.vault_mint_a),
{
}

/// Settlement: where the four token accounts of a successful Take are four
/// accounts, the taker has paid exactly what the offer wanted, the maker has
/// received exactly that, and the taker has received exactly what the vault
/// held. An account that Take had to open counts as having held nothing.
pub proof fn law_take_settles(
    pre: EscrowView,
    ctx: Take,
    authority: Option<Address>,
    canonical: Option<Take>,
    post: EscrowView,
)
    requires
        take_outcome(pre, ctx, authority, canonical) == Ok::<EscrowView, EscrowError>(post),
        ctx.taker_token_ata_mint_b != ctx.maker_token_ata_mint_b,
        ctx.taker_token_ata_mint_b != ctx.taker_token_ata_mint_a,
        ctx.taker_token_ata_mint_b != ctx.vault_mint_a,
        ctx.maker_token_ata_mint_b != ctx.taker_token_ata_mint_a,
        ctx.maker_token_ata_mint_b != ctx.vault_mint_a,
        ctx.taker_token_ata_mint_a != ctx.vault_mint_a,
    ensures
        pre.accounts.contains_key(ctx.vault_mint_a),
        pre.accounts.contains_key(ctx.taker_token_ata_mint_b),
        post.accounts.contains_key(ctx.taker_token_ata_mint_b),
        post.accounts.contains_key(ctx.maker_token_ata_mint_b),
        post.accounts.contains_key(ctx.taker_token_ata_mint_a),
        post.accounts[ctx.taker_token_ata_mint_b].amount
            == pre.accounts[ctx.taker_token_ata_mint_b].amount - pre.offers[ctx.escrow].amount,
        post.accounts[ctx.maker_token_ata_mint_b].amount == held(
            pre.accounts,
            ctx.maker_token_ata_mint_b,
        ) + pre.offers[ctx.escrow].amount,
        post.accounts[ctx.taker_token_ata_mint_a].amount == held(
            pre.accounts,
            ctx.taker_token_ata_mint_a,
        ) + pre.accounts[ctx.vault_mint_a].amount,
{
}

/// What the account at `address` holds; nothing where there is no account.
pub open spec fn held(accounts: Map<Address, TokenAccount>, address: Address) -> int {
    if accounts.contains_key(address) {
        accounts[address].amount as int
    } else {
        0
    }
}

/// Take touches nothing else: every other record, and every account but the
/// four presented and the vault, is after a successful Take what it was
/// before.
pub proof fn law_take_frame(
    pre: EscrowView,
    ctx: Take,
    authority: Option<Address>,
    canonical: Option<Take>,
    post: EscrowView,
)
    requires
        take_outcome(pre, ctx, authority, canonical) == Ok::<EscrowView, EscrowError>(post),
    ensures
        post.programs == pre.programs,
        forall|a: Address|
            a != ctx.escrow ==> post.offers.contains_key(a) == pre.offers.contains_key(a),
        forall|a: Address|
            a != ctx.escrow && pre.offers.contains_key(a) ==> post.offers[a] == pre.offers[a],
        forall|a: Address|
            a != ctx.vault_mint_a && a != ctx.maker_token_ata_mint_b && a
                != ctx.taker_token_ata_mint_a && a != ctx.taker_token_ata_mint_b
                ==> post.accounts.contains_key(a) == pre.accounts.contains_key(a),
        forall|a: Address|
            a != ctx.vault_mint_a && a != ctx.maker_token_ata_mint_b && a
                != ctx.taker_token_ata_mint_a && a != ctx.taker_token_ata_mint_b
                && pre.accounts.contains_key(a) ==> post.accounts[a] == pre.accounts[a],
{
}

/// Conservation on Refund: after a successful Refund the vault no longer
/// exists, and neither does the record.
pub proof fn law_refund_closes_vault(
    pre: EscrowView,
    ctx: Refund,
    authority: Option<Address>,
    canonical: Option<Refund>,
    post: EscrowView,
)
    requires
        refund_outcome(pre, ctx, authority, canonical) == Ok::<EscrowView, EscrowError>(post),
    ensures
        pre.offers.contains_key(ctx.escrow),
        !post.offers.contains_key(ctx.escrow),
        !post.accounts.contains_key(ctx.vault_ata),
{
}

/// Cancellation: where the maker's account is not the vault, a successful
/// Refund has given the maker exactly what the vault held.
pub proof fn law_refund_returns(
    pre: EscrowView,
    ctx: Refund,
    authority: Option<Address>,
    canonical: Option<Refund>,
    post: EscrowView,
)
    requires
        refund_outcome(pre, ctx, authority, canonical) == Ok::<EscrowView, EscrowError>(post),
        ctx.maker_token_ata != ctx.vault_ata,
    ensures
        pre.accounts.contains_key(ctx.vault_ata),
        pre.accounts.contains_key(ctx.maker_token_ata),
        post.accounts.contains_key(ctx.maker_token_ata),
        post.accounts[ctx.maker_token_ata].amount == pre.accounts[ctx.maker_token_ata].amount
            + pre.accounts[ctx.vault_ata].amount,
{
}

/// Refund touches nothing else: every other record, and every account but
/// the maker's and the vault, is after a successful Refund what it was
/// before.
pub proof fn law_refund_frame(
    pre: EscrowView,
    ctx: Refund,
    authority: Option<Address>,
    canonical: Option<Refund>,
    post: EscrowView,
)
    requires
        refund_outcome(pre, ctx, authority, canonical) == Ok::<EscrowView, EscrowError>(post),
    ensures
        post.programs == pre.programs,
        forall|a: Address|
            a != ctx.escrow ==> post.offers.contains_key(a) == pre.offers.contains_key(a),
        forall|a: Address|
            a != ctx.escrow && pre.offers.contains_key(a) ==> post.offers[a] == pre.offers[a],
        forall|a: Address|
            a != ctx.vault_ata ==> post.accounts.contains_key(a) == pre.accounts.contains_key(a),
        forall|a: Address|
            a != ctx.vault_ata && a != ctx.maker_token_ata && pre.accounts.contains_key(a)
                ==> post.accounts[a] == pre.accounts[a],
{
}

/// Mutual exclusion, Take first: once Take has succeeded on a record, any
/// Refund and any further Take at that record's address is refused because
/// nothing is found there.
pub proof fn law_take_excludes(
    pre: EscrowView,
    ctx: Take,
    authority: Option<Address>,
    canonical: Option<Take>,
    post: EscrowView,
    later_refund: Refund,
    refund_authority: Option<Address>,
    refund_canonical: Option<Refund>,
    later_take: Take,
    take_authority: Option<Address>,
    take_canonical: Option<Take>,
)
    requires
        take_outcome(pre, ctx, authority, canonical) == Ok::<EscrowView, EscrowError>(post),
        later_refund.escrow == ctx.escrow,
        later_take.escrow == ctx.escrow,
    ensures
        refund_outcome(post, later_refund, refund_authority, refund_canonical) == Err::<
            EscrowView,
            EscrowError,
        >(EscrowError::NotFound),
        take_outcome(post, later_take, take_authority, take_canonical) == Err::<
            EscrowView,
            EscrowError,
        >(EscrowError::NotFound),
{
}

/// Mutual exclusion, Refund first: once Refund has succeeded on a record, any
/// Take and any further Refund at that record's address is refused because
/// nothing is found there.
pub proof fn law_refund_excludes(
    pre: EscrowView,
    ctx: Refund,
    authority: Option<Address>,
    canonical: Option<Refund>,
    post: EscrowView,
    later_take: Take,
    take_authority: Option<Address>,
    take_canonical: Option<Take>,
    later_refund: Refund,
    refund_authority: Option<Address>,
    refund_canonical: Option<Refund>,
)
    requires
        refund_outcome(pre, ctx, authority, canonical) == Ok::<EscrowView, EscrowError>(post),
        later_take.escrow == ctx.escrow,
        later_refund.escrow == ctx.escrow,
    ensures
        take_outcome(post, later_take, take_authority, take_canonical) == Err::<
            EscrowView,
            EscrowError,
        >(EscrowError::NotFound),
        refund_outcome(post, later_refund, refund_authority, refund_canonical) == Err::<
            EscrowView,
            EscrowError,
        >(EscrowError::NotFound),
{
}

/// What the two instructions of `close_escrow` do when they are carried out
/// in turn, drawn up for what the vault holds: with the vault of the asset
/// under the record's address, and another account of the asset that can hold
/// what the vault holds, the transfer succeeds, the close succeeds, the vault
/// is gone and the maker's account holds what the vault held more.
pub proof fn law_close_escrow_empties_and_closes(accounts: Map<Address, TokenAccount>, ctx: Refund)
    requires
        ctx.maker_token_ata != ctx.vault_ata,
        accounts.contains_key(ctx.vault_ata),
        accounts[ctx.vault_ata].mint == ctx.maker_token.address,
        accounts[ctx.vault_ata].owner == ctx.escrow,
        accounts.contains_key(ctx.maker_token_ata),
        accounts[ctx.maker_token_ata].mint == ctx.maker_token.address,
        accounts[ctx.maker_token_ata].amount + accounts[ctx.vault_ata].amount <= u64::MAX,
    ensures
        spec_transfer(accounts, spec_refund_maker(ctx, accounts[ctx.vault_ata].amount))
            matches Ok(emptied) && spec_close(emptied, spec_close_escrow(ctx)) matches Ok(closed)
            && {
            &&& !closed.contains_key(ctx.vault_ata)
            &&& closed.contains_key(ctx.maker_token_ata)
            &&& closed[ctx.maker_token_ata].amount == accounts[ctx.maker_token_ata].amount
                + accounts[ctx.vault_ata].amount
        },
{
}

/// What the two instructions of `withdraw_close_escrow` do when they are
/// carried out in turn, drawn up for what the vault holds: with the vault of
/// the asset under the record's address, and another account of the asset
/// that can hold what the vault holds, the transfer succeeds, the close
/// succeeds, the vault is gone and the taker's account holds what the vault
/// held more.
pub proof fn law_withdraw_close_escrow_empties_and_closes(
    accounts: Map<Address, TokenAccount>,
    ctx: Take,
)
    requires
        ctx.taker_token_ata_mint_a != ctx.vault_mint_a,
        accounts.contains_key(ctx.vault_mint_a),
        accounts[ctx.vault_mint_a].mint == ctx.maker_token.address,
        accounts[ctx.vault_mint_a].owner == ctx.escrow,
        accounts.contains_key(ctx.taker_token_ata_mint_a),
        accounts[ctx.taker_token_ata_mint_a].mint == ctx.maker_token.address,
        accounts[ctx.taker_token_ata_mint_a].amount + accounts[ctx.vault_mint_a].amount
            <= u64::MAX,
    ensures
        spec_transfer(accounts, spec_withdraw(ctx, accounts[ctx.vault_mint_a].amount))
            matches Ok(emptied) && spec_close(emptied, spec_close_vault(ctx)) matches Ok(closed)
            && {
            &&& !closed.contains_key(ctx.vault_mint_a)
            &&& closed.contains_key(ctx.taker_token_ata_mint_a)
            &&& closed[ctx.taker_token_ata_mint_a].amount
                == accounts[ctx.taker_token_ata_mint_a].amount
                + accounts[ctx.vault_mint_a].amount
        },
{
}

/// Only the exact derivation releases a vault: a Take or a Refund succeeds
/// only where the signer seeds of the record reproduce the record's address,
/// and the accounts presented are the derived ones.
pub proof fn law_release_reproduces_authority(
    pre: EscrowView,
    taken: Take,
    take_authority: Option<Address>,
    take_canonical: Option<Take>,
    refunded: Refund,
    refund_authority: Option<Address>,
    refund_canonical: Option<Refund>,
)
    ensures
        take_outcome(pre, taken, take_authority, take_canonical) is Ok ==> take_authority == Some(
            taken.escrow,
        ) && take_canonical == Some(taken),
        refund_outcome(pre, refunded, refund_authority, refund_canonical) is Ok
            ==> refund_authority == Some(refunded.escrow) && refund_canonical == Some(refunded),
{
}

/// Authorization: a Refund by any identity other than the maker recorded is
/// refused as unauthorized, whatever else is presented.
pub proof fn law_refund_needs_maker(
    pre: EscrowView,
    ctx: Refund,
    authority: Option<Address>,
    canonical: Option<Refund>,
)
    requires
        pre.offers.contains_key(ctx.escrow),
        pre.offers[ctx.escrow].maker != ctx.maker,
    ensures
        refund_outcome(pre, ctx, authority, canonical) == Err::<EscrowView, EscrowError>(
            EscrowError::Unauthorized,
        ),
{
}

/// Asset integrity: a Take that presents another asset than the record holds,
/// on either side of the deal, is refused before any step on the accounts:
/// as unauthorized where the maker presented is not the maker recorded, else
/// for the assets.
pub proof fn law_take_needs_recorded_assets(
    pre: EscrowView,
    ctx: Take,
    authority: Option<Address>,
    canonical: Option<Take>,
)
    requires
        pre.offers.contains_key(ctx.escrow),
        pre.offers[ctx.escrow].maker_token != ctx.maker_token.address
            || pre.offers[ctx.escrow].taker_token != ctx.taker_token.address,
    ensures
        take_outcome(pre, ctx, authority, canonical) == Err::<EscrowView, EscrowError>(
            if pre.offers[ctx.escrow].maker != ctx.maker {
                EscrowError::Unauthorized
            } else {
                EscrowError::AssetMismatch
            },
        ),
{
}

/// Nothing is made and nothing is lost on Make: of every asset, the accounts
/// hold together after a successful Make what they held before.
pub proof fn law_make_keeps_supply(
    pre: EscrowView,
    ctx: Make,
    id: u64,
    deposit: u64,
    receive: u64,
    canonical: Option<(Make, u8)>,
    post: EscrowView,
    mint: Address,
)
    requires
        pre.accounts.dom().finite(),
        make_outcome(pre, ctx, id, deposit, receive, canonical) == Ok::<EscrowView, EscrowError>(
            post,
        ),
    ensures
        post.accounts.dom().finite(),
        supply(post.accounts, mint) == supply(pre.accounts, mint),
{
    lemma_create_account_keeps_supply(
        pre.accounts,
        ctx.vault,
        ctx.mint_a.address,
        ctx.escrow,
        mint,
    );
    let opened = spec_create_account(
        pre.accounts,
        ctx.vault,
        ctx.mint_a.address,
        ctx.escrow,
    )->Ok_0;
    lemma_transfer_keeps_supply(opened, spec_send_tokens_to_vault(ctx, deposit), mint);
}

/// Nothing is made and nothing is lost on Take: of every asset, the accounts
/// hold together after a successful Take what they held before.
pub proof fn law_take_keeps_supply(
    pre: EscrowView,
    ctx: Take,
    authority: Option<Address>,
    canonical: Option<Take>,
    post: EscrowView,
    mint: Address,
)
    requires
        pre.accounts.dom().finite(),
        take_outcome(pre, ctx, authority, canonical) == Ok::<EscrowView, EscrowError>(post),
    ensures
        post.accounts.dom().finite(),
        supply(post.accounts, mint) == supply(pre.accounts, mint),
{
    let offer = pre.offers[ctx.escrow];
    lemma_ensure_account_keeps_supply(
        pre.accounts,
        ctx.maker_token_ata_mint_b,
        ctx.taker_token.address,
        ctx.maker,
        mint,
    );
    let first = spec_ensure_account(
        pre.accounts,
        ctx.maker_token_ata_mint_b,
        ctx.taker_token.address,
        ctx.maker,
    )->Ok_0;
    lemma_ensure_account_keeps_supply(
        first,
        ctx.taker_token_ata_mint_a,
        ctx.maker_token.address,
        ctx.taker,
        mint,
    );
    let second = spec_ensure_account(
        first,
        ctx.taker_token_ata_mint_a,
        ctx.maker_token.address,
        ctx.taker,
    )->Ok_0;
    lemma_transfer_keeps_supply(second, spec_send_tokens_maker(ctx, offer), mint);
    let paid = spec_transfer(second, spec_send_tokens_maker(ctx, offer))->Ok_0;
    let release = spec_withdraw(ctx, paid[ctx.vault_mint_a].amount);
    lemma_transfer_keeps_supply(paid, release, mint);
    let released = spec_transfer(paid, release)->Ok_0;
    lemma_close_keeps_supply(released, spec_close_vault(ctx), mint);
}

/// Nothing is made and nothing is lost on Refund: of every asset, the
/// accounts hold together after a successful Refund what they held before.
pub proof fn law_refund_keeps_supply(
    pre: EscrowView,
    ctx: Refund,
    authority: Option<Address>,
    canonical: Option<Refund>,
    post: EscrowView,
    mint: Address,
)
    requires
        pre.accounts.dom().finite(),
        refund_outcome(pre, ctx, authority, canonical) == Ok::<EscrowView, EscrowError>(post),
    ensures
        post.accounts.dom().finite(),
        supply(post.accounts, mint) == supply(pre.accounts, mint),
{
    let back = spec_refund_maker(ctx, pre.accounts[ctx.vault_ata].amount);
    lemma_transfer_keeps_supply(pre.accounts, back, mint);
    let returned = spec_transfer(pre.accounts, back)->Ok_0;
    let rest = spec_refund_maker(ctx, returned[ctx.vault_ata].amount);
    lemma_transfer_keeps_supply(returned, rest, mint);
    let emptied = spec_transfer(returned, rest)->Ok_0;
    lemma_close_keeps_supply(emptied, spec_close_escrow(ctx), mint);
}

/// Custody on Make: an account under the address of a record keeps what it
/// holds through the Make of another offer, unless the caller is that address
/// itself; and a custody authority holds no key to call with.
pub proof fn law_make_keeps_custody(
    pre: EscrowView,
    ctx: Make,
    id: u64,
    deposit: u64,
    receive: u64,
    canonical: Option<(Make, u8)>,
    post: EscrowView,
    account: Address,
)
    requires
        make_outcome(pre, ctx, id, deposit, receive, canonical) == Ok::<EscrowView, EscrowError>(
            post,
        ),
        pre.accounts.contains_key(account),
        pre.offers.contains_key(pre.accounts[account].owner),
        ctx.maker != pre.accounts[account].owner,
    ensures
        post.accounts.contains_key(account),
        post.accounts[account] == pre.accounts[account],
{
}

/// Custody on Take: an account under the address of another record than the
/// one settled loses nothing through a Take, unless the caller is that
/// address itself; and a custody authority holds no key to call with.
pub proof fn law_take_keeps_custody(
    pre: EscrowView,
    ctx: Take,
    authority: Option<Address>,
    canonical: Option<Take>,
    post: EscrowView,
    account: Address,
)
    requires
        take_outcome(pre, ctx, authority, canonical) == Ok::<EscrowView, EscrowError>(post),
        pre.accounts.contains_key(account),
        pre.offers.contains_key(pre.accounts[account].owner),
        ctx.escrow != pre.accounts[account].owner,
        ctx.taker != pre.accounts[account].owner,
    ensures
        post.accounts.contains_key(account),
        post.accounts[account].mint == pre.accounts[account].mint,
        post.accounts[account].owner == pre.accounts[account].owner,
        post.accounts[account].amount >= pre.accounts[account].amount,
{
}

/// Custody on Refund: an account under the address of another record than
/// the one cancelled loses nothing through a Refund.
pub proof fn law_refund_keeps_custody(
    pre: EscrowView,
    ctx: Refund,
    authority: Option<Address>,
    canonical: Option<Refund>,
    post: EscrowView,
    account: Address,
)
    requires
        refund_outcome(pre, ctx, authority, canonical) == Ok::<EscrowView, EscrowError>(post),
        pre.accounts.contains_key(account),
        pre.offers.contains_key(pre.accounts[account].owner),
        ctx.escrow != pre.accounts[account].owner,
    ensures
        post.accounts.contains_key(account),
        post.accounts[account].mint == pre.accounts[account].mint,
        post.accounts[account].owner == pre.accounts[account].owner,
        post.accounts[account].amount >= pre.accounts[account].amount,
{
}

/// Pairing through Make: where every open offer had a vault, every open offer
/// has one after Make, the new offer included.
pub proof fn law_make_keeps_vaults(
    pre: EscrowView,
    ctx: Make,
    id: u64,
    deposit: u64,
    receive: u64,
    canonical: Option<(Make, u8)>,
)
    requires
        vaulted(pre),
    ensures
        make_outcome(pre, ctx, id, deposit, receive, canonical) matches Ok(post) ==> vaulted(post),
{
    if let Ok(post) = make_outcome(pre, ctx, id, deposit, receive, canonical) {
        assert forall|a: Address| #[trigger] post.offers.contains_key(a) implies exists|
            v: Address,
        | #[trigger]
            post.accounts.contains_key(v) && post.accounts[v].owner == a && post.accounts[v].mint
                == post.offers[a].maker_token by {
            if a == ctx.escrow {
                assert(post.accounts.contains_key(ctx.vault));
            } else {
                assert(pre.offers.contains_key(a));
                let v = choose|v: Address| #[trigger]
                    pre.accounts.contains_key(v) && pre.accounts[v].owner == a
                        && pre.accounts[v].mint == pre.offers[a].maker_token;
                assert(post.accounts.contains_key(v));
            }
        }
    }
}

/// Pairing through Take: where every open offer had a vault, every offer that
/// is still open after Take has one.
pub proof fn law_take_keeps_vaults(
    pre: EscrowView,
    ctx: Take,
    authority: Option<Address>,
    canonical: Option<Take>,
)
    requires
        vaulted(pre),
    ensures
        take_outcome(pre, ctx, authority, canonical) matches Ok(post) ==> vaulted(post),
{
    if let Ok(post) = take_outcome(pre, ctx, authority, canonical) {
        assert forall|a: Address| #[trigger] post.offers.contains_key(a) implies exists|
            v: Address,
        | #[trigger]
            post.accounts.contains_key(v) && post.accounts[v].owner == a && post.accounts[v].mint
                == post.offers[a].maker_token by {
            assert(pre.offers.contains_key(a));
            let v = choose|v: Address| #[trigger]
                pre.accounts.contains_key(v) && pre.accounts[v].owner == a && pre.accounts[v].mint
                    == pre.offers[a].maker_token;
            assert(post.accounts.contains_key(v));
        }
    }
}

/// Pairing through Refund: where every open offer had a vault, every offer
/// that is still open after Refund has one.
pub proof fn law_refund_keeps_vaults(
    pre: EscrowView,
    ctx: Refund,
    authority: Option<Address>,
    canonical: Option<Refund>,
)
    requires
        vaulted(pre),
    ensures
        refund_outcome(pre, ctx, authority, canonical) matches Ok(post) ==> vaulted(post),
{
    if let Ok(post) = refund_outcome(pre, ctx, authority, canonical) {
        assert forall|a: Address| #[trigger] post.offers.contains_key(a) implies exists|
            v: Address,
        | #[trigger]
            post.accounts.contains_key(v) && post.accounts[v].owner == a && post.accounts[v].mint
                == post.offers[a].maker_token by {
            assert(pre.offers.contains_key(a));
            let v = choose|v: Address| #[trigger]
                pre.accounts.contains_key(v) && pre.accounts[v].owner == a && pre.accounts[v].mint
                    == pre.offers[a].maker_token;
            assert(post.accounts.contains_key(v));
        }
    }
}

/// Pairing when an account is opened from outside: no vault is lost.
pub proof fn law_create_account_keeps_vaults(
    pre: EscrowView,
    address: Address,
    mint: Address,
    owner: Address,
)
    requires
        vaulted(pre),
    ensures
        spec_create_account(pre.accounts, address, mint, owner) matches Ok(accounts) ==> vaulted(
            EscrowView { programs: pre.programs, offers: pre.offers, accounts },
        ),
{
    if let Ok(accounts) = spec_create_account(pre.accounts, address, mint, owner) {
        let post = EscrowView { programs: pre.programs, offers: pre.offers, accounts };
        assert forall|a: Address| #[trigger] post.offers.contains_key(a) implies exists|
            v: Address,
        | #[trigger]
            post.accounts.contains_key(v) && post.accounts[v].owner == a && post.accounts[v].mint
                == post.offers[a].maker_token by {
            let v = choose|v: Address| #[trigger]
                pre.accounts.contains_key(v) && pre.accounts[v].owner == a && pre.accounts[v].mint
                    == pre.offers[a].maker_token;
            assert(post.accounts.contains_key(v));
        }
    }
}

/// Pairing when units are issued from outside: no vault is lost.
pub proof fn law_mint_to_keeps_vaults(pre: EscrowView, address: Address, amount: u64)
    requires
        vaulted(pre),
    ensures
        spec_mint_to(pre.accounts, address, amount) matches Ok(accounts) ==> vaulted(
            EscrowView { programs: pre.programs, offers: pre.offers, accounts },
        ),
{
    if let Ok(accounts) = spec_mint_to(pre.accounts, address, amount) {
        let post = EscrowView { programs: pre.programs, offers: pre.offers, accounts };
        assert forall|a: Address| #[trigger] post.offers.contains_key(a) implies exists|
            v: Address,
        | #[trigger]
            post.accounts.contains_key(v) && post.accounts[v].owner == a && post.accounts[v].mint
                == post.offers[a].maker_token by {
            let v = choose|v: Address| #[trigger]
                pre.accounts.contains_key(v) && pre.accounts[v].owner == a && pre.accounts[v].mint
                    == pre.offers[a].maker_token;
            assert(post.accounts.contains_key(v));
        }
    }
}

/// Address determinism: the accounts derived for an offer depend on the
/// programs, the maker, the assets and the id alone, so that two derivations
/// from the same inputs give the same addresses and the same bump seed.
pub proof fn law_derivation_is_a_function(
    programs: Programs,
    maker: Address,
    mint_a: Mint,
    mint_b: Mint,
    id: u64,
    again_programs: Programs,
    again_maker: Address,
    again_mint_a: Mint,
    again_mint_b: Mint,
    again_id: u64,
)
    requires
        programs == again_programs,
        maker == again_maker,
        mint_a == again_mint_a,
        mint_b == again_mint_b,
        id == again_id,
    ensures
        Make::spec_canonical(programs, maker, mint_a, mint_b, id) == Make::spec_canonical(
            again_programs,
            again_maker,
            again_mint_a,
            again_mint_b,
            again_id,
        ),
{
}

/// The seeds of two offer records are the same only if the makers and the
/// ids are: two offers of one maker with different ids are derived from
/// different seeds.
pub proof fn law_offer_seeds_separate_offers(
    maker: Address,
    id: u64,
    other_maker: Address,
    other_id: u64,
)
    requires
        spec_offer_seeds(maker, id) == spec_offer_seeds(other_maker, other_id),
    ensures
        maker == other_maker,
        id == other_id,
{
    let seeds = spec_offer_seeds(maker, id);
    let other_seeds = spec_offer_seeds(other_maker, other_id);
    assert(seeds[1] == maker.seq());
    assert(other_seeds[1] == other_maker.seq());
    lemma_address_by_bytes(maker, other_maker);
    assert(seeds[2] == spec_u64_to_le_bytes(id));
    assert(other_seeds[2] == spec_u64_to_le_bytes(other_id));
    lemma_auto_spec_u64_to_from_le_bytes();
    assert(spec_u64_from_le_bytes(spec_u64_to_le_bytes(id)) == id);
    assert(spec_u64_from_le_bytes(spec_u64_to_le_bytes(other_id)) == other_id);
}

/// When Make is owed: with the derived accounts presented, no record and no
/// account at the addresses to fill, and a source account of the asset under
/// the maker that holds the deposit, Make succeeds.
pub proof fn law_make_succeeds(
    pre: EscrowView,
    ctx: Make,
    id: u64,
    deposit: u64,
    receive: u64,
    bump: u8,
)
    requires
        !pre.offers.contains_key(ctx.escrow),
        !pre.accounts.contains_key(ctx.vault),
        pre.accounts.contains_key(ctx.maker_token_ata),
        pre.accounts[ctx.maker_token_ata].mint == ctx.mint_a.address,
        pre.accounts[ctx.maker_token_ata].owner == ctx.maker,
        pre.accounts[ctx.maker_token_ata].amount >= deposit,
    ensures
        make_outcome(pre, ctx, id, deposit, receive, Some((ctx, bump))) is Ok,
{
}

/// When Take is owed: with the record open, the maker and the assets as
/// recorded, the derived accounts presented and all four of them different,
/// a vault of the asset under the record's address, a source account of the
/// payment's asset under the taker that holds the payment, and receiving
/// accounts that are missing or are of the right asset under the right owner
/// and can hold what they receive, Take succeeds.
pub proof fn law_take_succeeds(pre: EscrowView, ctx: Take)
    requires
        pre.offers.contains_key(ctx.escrow),
        pre.offers[ctx.escrow].maker == ctx.maker,
        pre.offers[ctx.escrow].maker_token == ctx.maker_token.address,
        pre.offers[ctx.escrow].taker_token == ctx.taker_token.address,
        ctx.taker_token_ata_mint_b != ctx.maker_token_ata_mint_b,
        ctx.taker_token_ata_mint_b != ctx.taker_token_ata_mint_a,
        ctx.taker_token_ata_mint_b != ctx.vault_mint_a,
        ctx.maker_token_ata_mint_b != ctx.taker_token_ata_mint_a,
        ctx.maker_token_ata_mint_b != ctx.vault_mint_a,
        ctx.taker_token_ata_mint_a != ctx.vault_mint_a,
        pre.accounts.contains_key(ctx.vault_mint_a),
        pre.accounts[ctx.vault_mint_a].mint == ctx.maker_token.address,
        pre.accounts[ctx.vault_mint_a].owner == ctx.escrow,
        pre.accounts.contains_key(ctx.taker_token_ata_mint_b),
        pre.accounts[ctx.taker_token_ata_mint_b].mint == ctx.taker_token.address,
        pre.accounts[ctx.taker_token_ata_mint_b].owner == ctx.taker,
        pre.accounts[ctx.taker_token_ata_mint_b].amount >= pre.offers[ctx.escrow].amount,
        pre.accounts.contains_key(ctx.maker_token_ata_mint_b) ==> {
            &&& pre.accounts[ctx.maker_token_ata_mint_b].mint == ctx.taker_token.address
            &&& pre.accounts[ctx.maker_token_ata_mint_b].owner == ctx.maker
        },
        pre.accounts.contains_key(ctx.taker_token_ata_mint_a) ==> {
            &&& pre.accounts[ctx.taker_token_ata_mint_a].mint == ctx.maker_token.address
            &&& pre.accounts[ctx.taker_token_ata_mint_a].owner == ctx.taker
        },
        held(pre.accounts, ctx.maker_token_ata_mint_b) + pre.offers[ctx.escrow].amount
            <= u64::MAX,
        held(pre.accounts, ctx.taker_token_ata_mint_a) + pre.accounts[ctx.vault_mint_a].amount
            <= u64::MAX,
    ensures
        take_outcome(pre, ctx, Some(ctx.escrow), Some(ctx)) is Ok,
{
}

/// When Refund is owed: with the record open, the caller and the asset as
/// recorded, the derived accounts presented, a vault of the asset under the
/// record's address, and another account of the asset under the maker that
/// can hold what the vault holds, Refund succeeds.
pub proof fn law_refund_succeeds(pre: EscrowView, ctx: Refund)
    requires
        pre.offers.contains_key(ctx.escrow),
        pre.offers[ctx.escrow].maker == ctx.maker,
        pre.offers[ctx.escrow].maker_token == ctx.maker_token.address,
        ctx.maker_token_ata != ctx.vault_ata,
        pre.accounts.contains_key(ctx.vault_ata),
        pre.accounts[ctx.vault_ata].mint == ctx.maker_token.address,
        pre.accounts[ctx.vault_ata].owner == ctx.escrow,
        pre.accounts.contains_key(ctx.maker_token_ata),
        pre.accounts[ctx.maker_token_ata].mint == ctx.maker_token.address,
        pre.accounts[ctx.maker_token_ata].owner == ctx.maker,
        pre.accounts[ctx.maker_token_ata].amount + pre.accounts[ctx.vault_ata].amount
            <= u64::MAX,
    ensures
        refund_outcome(pre, ctx, Some(ctx.escrow), Some(ctx)) is Ok,
{
}

} // verus!
