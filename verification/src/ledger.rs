//! The instructions that an operation hands to the token ledger.
//!
//! The ledger applies the instructions of one operation together or not at
//! all. Each instruction names the identity that authorizes it: the requester
//! for what leaves the requester's accounts, a program authority for what
//! leaves the treasury or changes the synthetic supply.

use vstd::prelude::*;
use crate::identity::Identity;

verus! {

/// Moves `amount` minor units from one token account to another.
#[derive(Clone, Copy, Debug, PartialEq, Eq)]
pub struct Transfer {
    pub from: Identity,
    pub to: Identity,
    pub authority: Identity,
    pub amount: u64,
}

impl Transfer {
    /// The balance of the token account `key` once the ledger has applied
    /// the transfer to it, where it held `balance` before.
    pub open spec fn balance_after(self, key: Identity, balance: int) -> int {
        balance - (if key == self.from {
            self.amount as int
        } else {
            0
        }) + (if key == self.to {
            self.amount as int
        } else {
            0
        })
    }
}

/// Creates `amount` minor units of an asset in a token account.
#[derive(Clone, Copy, Debug, PartialEq, Eq)]
pub struct MintTo {
    pub mint: Identity,
    pub to: Identity,
    pub authority: Identity,
    pub amount: u64,
}

impl MintTo {
    /// The balance of the token account `key` once the ledger has minted to
    /// it, where it held `balance` before.
    pub open spec fn balance_after(self, key: Identity, balance: int) -> int {
        balance + (if key == self.to {
            self.amount as int
        } else {
            0
        })
    }
}

/// Destroys `amount` minor units of an asset held in a token account.
#[derive(Clone, Copy, Debug, PartialEq, Eq)]
pub struct Burn {
    pub mint: Identity,
    pub from: Identity,
    pub authority: Identity,
    pub amount: u64,
}

impl Burn {
    /// The balance of the token account `key` once the ledger has burned
    /// from it, where it held `balance` before.
    pub open spec fn balance_after(self, key: Identity, balance: int) -> int {
        balance - (if key == self.from {
            self.amount as int
        } else {
            0
        })
    }
}

/// The balance of the token account `key` after a transfer that may be absent.
pub open spec fn balance_after_optional(transfer: Option<Transfer>, key: Identity, balance: int) -> int {
    match transfer {
        Some(transfer) => transfer.balance_after(key, balance),
        None => balance,
    }
}

/// The kinds of authority over a mint or a token account that can change hands.
#[derive(Clone, Copy, Debug, PartialEq, Eq, Structural)]
pub enum AuthorityType {
    MintTokens,
    FreezeAccount,
    AccountOwner,
    CloseAccount,
}

/// Hands one kind of authority over a mint or a token account to another identity.
#[derive(Clone, Copy, Debug, PartialEq, Eq)]
pub struct SetAuthority {
    pub current_authority: Identity,
    pub account_or_mint: Identity,
    pub authority_type: AuthorityType,
    pub new_authority: Option<Identity>,
}

} // verus!
