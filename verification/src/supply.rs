//! Supply: the units of an asset that all accounts hold together. The
//! gateway's instructions neither make nor lose units; only issuing does.

use crate::address::Address;
use crate::gateway::{
    spec_close, spec_create_account, spec_ensure_account, spec_mint_to, spec_transfer,
    CloseAccount, TokenAccount, TransferChecked,
};
use vstd::prelude::*;

verus! {

/// The units of `mint` that the account at `address` holds: none where there
/// is no account, or an account of another asset.
pub open spec fn units(
    accounts: Map<Address, TokenAccount>,
    address: Address,
    mint: Address,
) -> int {
    if accounts.contains_key(address) && accounts[address].mint == mint {
        accounts[address].amount as int
    } else {
        0
    }
}

/// The units of `mint` that the accounts at the addresses in `among` hold
/// together.
pub open spec fn units_among(
    accounts: Map<Address, TokenAccount>,
    among: Set<Address>,
    mint: Address,
) -> int
    decreases among.len(),
    when among.finite()
{
    if among.len() == 0 {
        0
    } else {
        let a = among.choose();
        units(accounts, a, mint) + units_among(accounts, among.remove(a), mint)
    }
}

/// The units of `mint` that all accounts hold together.
pub open spec fn supply(accounts: Map<Address, TokenAccount>, mint: Address) -> int {
    units_among(accounts, accounts.dom(), mint)
}

/// The sum over a set is the share of any one member plus the sum over the
/// others.
pub proof fn lemma_units_among_remove(
    accounts: Map<Address, TokenAccount>,
    among: Set<Address>,
    mint: Address,
    a: Address,
)
    requires
        among.finite(),
        among.contains(a),
    ensures
        units_among(accounts, among, mint) == units(accounts, a, mint) + units_among(
            accounts,
            among.remove(a),
            mint,
        ),
    decreases among.len(),
{
    let c = among.choose();
    if c != a {
        lemma_units_among_remove(accounts, among.remove(c), mint, a);
        lemma_units_among_remove(accounts, among.remove(a), mint, c);
        assert(among.remove(c).remove(a) =~= among.remove(a).remove(c));
    }
}

/// Two ledgers that agree on every member of a set give the same sum over
/// it.
pub proof fn lemma_units_among_agree(
    first: Map<Address, TokenAccount>,
    second: Map<Address, TokenAccount>,
    among: Set<Address>,
    mint: Address,
)
    requires
        among.finite(),
        forall|a: Address| among.contains(a) ==> units(first, a, mint) == units(second, a, mint),
    ensures
        units_among(first, among, mint) == units_among(second, among, mint),
    decreases among.len(),
{
    if among.len() != 0 {
        lemma_units_among_agree(first, second, among.remove(among.choose()), mint);
    }
}

/// Opening an account makes no units.
pub proof fn lemma_create_account_keeps_supply(
    accounts: Map<Address, TokenAccount>,
    address: Address,
    mint: Address,
    owner: Address,
    of: Address,
)
    requires
        accounts.dom().finite(),
    ensures
        spec_create_account(accounts, address, mint, owner) matches Ok(after) ==> {
            &&& after.dom().finite()
            &&& supply(after, of) == supply(accounts, of)
        },
{
    if let Ok(after) = spec_create_account(accounts, address, mint, owner) {
        assert(after.dom() =~= accounts.dom().insert(address));
        lemma_units_among_remove(after, after.dom(), of, address);
        assert(after.dom().remove(address) =~= accounts.dom());
        lemma_units_among_agree(after, accounts, accounts.dom(), of);
    }
}

/// Making sure that an account exists makes no units.
pub proof fn lemma_ensure_account_keeps_supply(
    accounts: Map<Address, TokenAccount>,
    address: Address,
    mint: Address,
    owner: Address,
    of: Address,
)
    requires
        accounts.dom().finite(),
    ensures
        spec_ensure_account(accounts, address, mint, owner) matches Ok(after) ==> {
            &&& after.dom().finite()
            &&& supply(after, of) == supply(accounts, of)
        },
{
    if !accounts.contains_key(address) {
        lemma_create_account_keeps_supply(accounts, address, mint, owner, of);
    }
}

/// Issuing makes exactly the units issued, of the asset of the account that
/// receives them.
pub proof fn lemma_mint_to_adds_supply(
    accounts: Map<Address, TokenAccount>,
    address: Address,
    amount: u64,
    of: Address,
)
    requires
        accounts.dom().finite(),
    ensures
        spec_mint_to(accounts, address, amount) matches Ok(after) ==> {
            &&& after.dom().finite()
            &&& supply(after, of) == supply(accounts, of) + (if accounts[address].mint == of {
                amount as int
            } else {
                0
            })
        },
{
    if let Ok(after) = spec_mint_to(accounts, address, amount) {
        assert(after.dom() =~= accounts.dom());
        lemma_units_among_remove(after, accounts.dom(), of, address);
        lemma_units_among_remove(accounts, accounts.dom(), of, address);
        lemma_units_among_agree(after, accounts, accounts.dom().remove(address), of);
    }
}

/// A transfer neither makes nor loses units: what leaves the source reaches
/// the destination.
pub proof fn lemma_transfer_keeps_supply(
    accounts: Map<Address, TokenAccount>,
    ix: TransferChecked,
    of: Address,
)
    requires
        accounts.dom().finite(),
    ensures
        spec_transfer(accounts, ix) matches Ok(after) ==> {
            &&& after.dom().finite()
            &&& supply(after, of) == supply(accounts, of)
        },
{
    if let Ok(after) = spec_transfer(accounts, ix) {
        if ix.from != ix.to {
            let all = accounts.dom();
            let rest = all.remove(ix.from).remove(ix.to);
            assert(after.dom() =~= all);
            lemma_units_among_remove(after, all, of, ix.from);
            lemma_units_among_remove(after, all.remove(ix.from), of, ix.to);
            lemma_units_among_remove(accounts, all, of, ix.from);
            lemma_units_among_remove(accounts, all.remove(ix.from), of, ix.to);
            lemma_units_among_agree(after, accounts, rest, of);
        }
    }
}

/// Closing an account loses no units: only an empty account is closed.
pub proof fn lemma_close_keeps_supply(
    accounts: Map<Address, TokenAccount>,
    ix: CloseAccount,
    of: Address,
)
    requires
        accounts.dom().finite(),
    ensures
        spec_close(accounts, ix) matches Ok(after) ==> {
            &&& after.dom().finite()
            &&& supply(after, of) == supply(accounts, of)
        },
{
    if let Ok(after) = spec_close(accounts, ix) {
        assert(after.dom() =~= accounts.dom().remove(ix.account));
        lemma_units_among_remove(accounts, accounts.dom(), of, ix.account);
        lemma_units_among_agree(after, accounts, after.dom(), of);
    }
}

} // verus!
