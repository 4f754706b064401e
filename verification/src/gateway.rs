//! The asset transfer gateway: token accounts, the two instructions that the
//! escrow issues on them, and a ledger that carries them out in memory.
//!
//! An instruction is all or nothing: it changes the ledger as described, or it
//! fails and leaves the ledger as it was.

use crate::address::Address;
use crate::error::EscrowError;
use crate::table::AddressMap;
use vstd::prelude::*;

verus! {

/// A custody account: a quantity of one asset, under one owner.
#[derive(Clone, Copy, Debug, PartialEq, Eq)]
pub struct TokenAccount {
    /// The asset held.
    pub mint: Address,
    /// The identity that may move the assets out and close the account.
    pub owner: Address,
    /// The quantity held.
    pub amount: u64,
}

/// An asset as a caller presents it: its identity, and the number of decimal
/// places in which its quantities are written.
#[derive(Clone, Copy, Debug, PartialEq, Eq)]
pub struct Mint {
    pub address: Address,
    pub decimals: u8,
}

/// The instruction to move `amount` units of the asset `mint` from one account
/// to another, on the word of `authority`. It declares the asset's decimal
/// places, so that the token program can hold the quantity against the asset.
#[derive(Clone, Copy, Debug, PartialEq, Eq)]
pub struct TransferChecked {
    pub from: Address,
    pub to: Address,
    pub mint: Address,
    pub authority: Address,
    pub amount: u64,
    pub decimals: u8,
}

/// The instruction to close an empty account, on the word of `authority`. What
/// is left of its storage deposit goes to `destination`.
#[derive(Clone, Copy, Debug, PartialEq, Eq)]
pub struct CloseAccount {
    pub account: Address,
    pub destination: Address,
    pub authority: Address,
}

/// A function with a `Result` did what `outcome` says: on success the state
/// is the new one, on failure the error is the one named and the state is as
/// before.
pub open spec fn applied<S>(
    outcome: Result<S, EscrowError>,
    before: S,
    after: S,
    r: Result<(), EscrowError>,
) -> bool {
    match outcome {
        Ok(s) => r is Ok && after == s,
        Err(e) => r == Err::<(), EscrowError>(e) && after == before,
    }
}

/// Opening an account for `mint` under `owner` at `address`: refused where the
/// address is occupied; else the account is there, and empty.
pub open spec fn spec_create_account(
    accounts: Map<Address, TokenAccount>,
    address: Address,
    mint: Address,
    owner: Address,
) -> Result<Map<Address, TokenAccount>, EscrowError> {
    if accounts.contains_key(address) {
        Err(EscrowError::Duplicate)
    } else {
        Ok(accounts.insert(address, TokenAccount { mint, owner, amount: 0 }))
    }
}

/// Issuing `amount` new units into the account at `address`.
pub open spec fn spec_mint_to(
    accounts: Map<Address, TokenAccount>,
    address: Address,
    amount: u64,
) -> Result<Map<Address, TokenAccount>, EscrowError> {
    if !accounts.contains_key(address) {
        Err(EscrowError::NotFound)
    } else if accounts[address].amount + amount > u64::MAX {
        Err(EscrowError::Overflow)
    } else {
        Ok(
            accounts.insert(
                address,
                TokenAccount {
                    mint: accounts[address].mint,
                    owner: accounts[address].owner,
                    amount: (accounts[address].amount + amount) as u64,
                },
            ),
        )
    }
}

/// Whether the account at `address` is one of `mint` under `owner`. It is
/// not, in this order, where it is missing, where it holds another asset, and
/// where it has another owner.
pub open spec fn spec_check_account(
    accounts: Map<Address, TokenAccount>,
    address: Address,
    mint: Address,
    owner: Address,
) -> Result<(), EscrowError> {
    if !accounts.contains_key(address) {
        Err(EscrowError::NotFound)
    } else if accounts[address].mint != mint {
        Err(EscrowError::AssetMismatch)
    } else if accounts[address].owner != owner {
        Err(EscrowError::Unauthorized)
    } else {
        Ok(())
    }
}

/// Making sure that `owner` has an account of `mint` at `address`: where the
/// address is free the account is opened, empty; where it is occupied the
/// account there has to be one of `mint` under `owner`.
pub open spec fn spec_ensure_account(
    accounts: Map<Address, TokenAccount>,
    address: Address,
    mint: Address,
    owner: Address,
) -> Result<Map<Address, TokenAccount>, EscrowError> {
    if !accounts.contains_key(address) {
        Ok(accounts.insert(address, TokenAccount { mint, owner, amount: 0 }))
    } else {
        match spec_check_account(accounts, address, mint, owner) {
            Ok(_) => Ok(accounts),
            Err(e) => Err(e),
        }
    }
}

/// What a transfer does to the accounts. The ledger keeps no register of
/// assets, so the decimal places declared play no part. The transfer is
/// refused, in this order, where an account is missing, where an account
/// holds another asset than the one declared, where the authority does not
/// own the source, where the source holds too little,
/// and where the destination cannot hold the sum. Else the source holds
/// `amount` less and the destination `amount` more; a transfer from an account
/// to itself changes nothing.
pub open spec fn spec_transfer(accounts: Map<Address, TokenAccount>, ix: TransferChecked) -> Result<
    Map<Address, TokenAccount>,
    EscrowError,
> {
    if !accounts.contains_key(ix.from) || !accounts.contains_key(ix.to) {
        Err(EscrowError::NotFound)
    } else if accounts[ix.from].mint != ix.mint || accounts[ix.to].mint != ix.mint {
        Err(EscrowError::AssetMismatch)
    } else if accounts[ix.from].owner != ix.authority {
        Err(EscrowError::Unauthorized)
    } else if accounts[ix.from].amount < ix.amount {
        Err(EscrowError::InsufficientBalance)
    } else if ix.from == ix.to {
        Ok(accounts)
    } else if accounts[ix.to].amount + ix.amount > u64::MAX {
        Err(EscrowError::Overflow)
    } else {
        Ok(
            accounts.insert(
                ix.from,
                TokenAccount {
                    mint: accounts[ix.from].mint,
                    owner: accounts[ix.from].owner,
                    amount: (accounts[ix.from].amount - ix.amount) as u64,
                },
            ).insert(
                ix.to,
                TokenAccount {
                    mint: accounts[ix.to].mint,
                    owner: accounts[ix.to].owner,
                    amount: (accounts[ix.to].amount + ix.amount) as u64,
                },
            ),
        )
    }
}

/// What closing an account does. It is refused, in this order, where the
/// account is missing, where the authority does not own it, and where it still
/// holds assets. Else the account is gone.
pub open spec fn spec_close(accounts: Map<Address, TokenAccount>, ix: CloseAccount) -> Result<
    Map<Address, TokenAccount>,
    EscrowError,
> {
    if !accounts.contains_key(ix.account) {
        Err(EscrowError::NotFound)
    } else if accounts[ix.account].owner != ix.authority {
        Err(EscrowError::Unauthorized)
    } else if accounts[ix.account].amount != 0 {
        Err(EscrowError::NotEmpty)
    } else {
        Ok(accounts.remove(ix.account))
    }
}

/// The token accounts that exist, by address.
pub struct Ledger {
    accounts: AddressMap<TokenAccount>,
}

impl View for Ledger {
    type V = Map<Address, TokenAccount>;

    closed spec fn view(&self) -> Map<Address, TokenAccount> {
        self.accounts@
    }
}

impl Ledger {
    /// The ledger holds finitely many accounts.
    pub proof fn lemma_finite(&self)
        ensures
            self@.dom().finite(),
    {
        self.accounts.lemma_finite();
    }

    /// The ledger without accounts.
    pub fn new() -> (ledger: Ledger)
        ensures
            ledger@ == Map::<Address, TokenAccount>::empty(),
    {
        Ledger { accounts: AddressMap::new() }
    }

    /// The account at `address`, if there is one.
    pub fn account(&self, address: &Address) -> (r: Option<TokenAccount>)
        ensures
            r == (if self@.contains_key(*address) {
                Some(self@[*address])
            } else {
                None
            }),
    {
        self.accounts.get(address)
    }

    /// A copy of the ledger.
    pub fn duplicate(&self) -> (ledger: Ledger)
        ensures
            ledger@ == self@,
    {
        Ledger { accounts: self.accounts.duplicate() }
    }

    /// Checks that the account at `address` is one of `mint` under `owner`.
    pub fn check_account(&self, address: &Address, mint: &Address, owner: &Address) -> (r: Result<
        (),
        EscrowError,
    >)
        ensures
            r == spec_check_account(self@, *address, *mint, *owner),
    {
        match self.accounts.get(address) {
            None => Err(EscrowError::NotFound),
            Some(account) => {
                if account.mint != *mint {
                    Err(EscrowError::AssetMismatch)
                } else if account.owner != *owner {
                    Err(EscrowError::Unauthorized)
                } else {
                    Ok(())
                }
            },
        }
    }

    /// Makes sure that `owner` has an account of `mint` at `address`, opening
    /// it where the address is free.
    pub fn ensure_account(&mut self, address: &Address, mint: &Address, owner: &Address) -> (r:
        Result<(), EscrowError>)
        ensures
            applied(
                spec_ensure_account(old(self)@, *address, *mint, *owner),
                old(self)@,
                final(self)@,
                r,
            ),
    {
        if self.accounts.contains(address) {
            self.check_account(address, mint, owner)
        } else {
            self.accounts.insert(*address, TokenAccount { mint: *mint, owner: *owner, amount: 0 });
            Ok(())
        }
    }

    /// Opens an empty account for `mint` under `owner` at `address`.
    pub fn create_account(&mut self, address: &Address, mint: &Address, owner: &Address) -> (r:
        Result<(), EscrowError>)
        ensures
            applied(
                spec_create_account(old(self)@, *address, *mint, *owner),
                old(self)@,
                final(self)@,
                r,
            ),
    {
        if self.accounts.contains(address) {
            return Err(EscrowError::Duplicate);
        }
        self.accounts.insert(*address, TokenAccount { mint: *mint, owner: *owner, amount: 0 });
        Ok(())
    }

    /// Issues `amount` new units into the account at `address`.
    pub fn mint_to(&mut self, address: &Address, amount: u64) -> (r: Result<(), EscrowError>)
        ensures
            applied(spec_mint_to(old(self)@, *address, amount), old(self)@, final(self)@, r),
    {
        let account = match self.accounts.get(address) {
            Some(account) => account,
            None => {
                return Err(EscrowError::NotFound);
            },
        };
        if amount > u64::MAX - account.amount {
            return Err(EscrowError::Overflow);
        }
        self.accounts.insert(
            *address,
            TokenAccount {
                mint: account.mint,
                owner: account.owner,
                amount: account.amount + amount,
            },
        );
        Ok(())
    }

    /// Carries out a transfer.
    pub fn transfer_checked(&mut self, ix: &TransferChecked) -> (r: Result<(), EscrowError>)
        ensures
            applied(spec_transfer(old(self)@, *ix), old(self)@, final(self)@, r),
    {
        let from = match self.accounts.get(&ix.from) {
            Some(account) => account,
            None => {
                return Err(EscrowError::NotFound);
            },
        };
        let to = match self.accounts.get(&ix.to) {
            Some(account) => account,
            None => {
                return Err(EscrowError::NotFound);
            },
        };
        if from.mint != ix.mint || to.mint != ix.mint {
            return Err(EscrowError::AssetMismatch);
        }
        if from.owner != ix.authority {
            return Err(EscrowError::Unauthorized);
        }
        if from.amount < ix.amount {
            return Err(EscrowError::InsufficientBalance);
        }
        if ix.from == ix.to {
            return Ok(());
        }
        if ix.amount > u64::MAX - to.amount {
            return Err(EscrowError::Overflow);
        }
        self.accounts.insert(
            ix.from,
            TokenAccount { mint: from.mint, owner: from.owner, amount: from.amount - ix.amount },
        );
        self.accounts.insert(
            ix.to,
            TokenAccount { mint: to.mint, owner: to.owner, amount: to.amount + ix.amount },
        );
        Ok(())
    }

    /// Closes an account.
    pub fn close_account(&mut self, ix: &CloseAccount) -> (r: Result<(), EscrowError>)
        ensures
            applied(spec_close(old(self)@, *ix), old(self)@, final(self)@, r),
    {
        let account = match self.accounts.get(&ix.account) {
            Some(account) => account,
            None => {
                return Err(EscrowError::NotFound);
            },
        };
        if account.owner != ix.authority {
            return Err(EscrowError::Unauthorized);
        }
        if account.amount != 0 {
            return Err(EscrowError::NotEmpty);
        }
        self.accounts.remove(&ix.account);
        Ok(())
    }
}

} // verus!
