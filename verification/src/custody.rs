//! Fund custody: balance-holding accounts and the one operation that moves
//! funds between them.
//!
//! An account obeys a single controller, its `owner`. A transfer leaves the
//! source only when the party that authorises it is that controller, so a
//! vault whose owner is a campaign's escrow identity pays out to nobody who
//! cannot reproduce that identity.

use crate::address::Address;
use vstd::prelude::*;

verus! {

/// Why custody refused to move funds.
#[derive(Clone, Copy, Debug, PartialEq, Eq, Structural)]
pub enum CustodyError {
    /// The source holds less than the amount asked for.
    InsufficientFunds,
    /// Source and destination hold different kinds of token.
    MintMismatch,
    /// The authorising party does not control the source.
    OwnerMismatch,
    /// The destination's balance would leave the range of its integer.
    Overflow,
}

/// An account that holds a balance of one kind of token.
#[derive(Clone, Copy, Debug)]
pub struct TokenAccount {
    /// Where the account lives.
    pub key: Address,
    /// The kind of token it holds.
    pub mint: Address,
    /// The only party that may authorise a transfer out of it.
    pub owner: Address,
    /// Its balance.
    pub amount: u64,
}

/// The verdict on moving `amount` from `from` to `to` on the word of
/// `authority`.
pub open spec fn transfer_verdict(
    from: TokenAccount,
    to: TokenAccount,
    authority: Address,
    amount: u64,
) -> Result<(), CustodyError> {
    if from.amount < amount {
        Err(CustodyError::InsufficientFunds)
    } else if from.mint != to.mint {
        Err(CustodyError::MintMismatch)
    } else if from.owner != authority {
        Err(CustodyError::OwnerMismatch)
    } else if to.amount + amount > u64::MAX {
        Err(CustodyError::Overflow)
    } else {
        Ok(())
    }
}

/// An account with `amount` taken out of it.
pub open spec fn debited(account: TokenAccount, amount: u64) -> TokenAccount {
    TokenAccount { amount: (account.amount - amount) as u64, ..account }
}

/// An account with `amount` paid into it.
pub open spec fn credited(account: TokenAccount, amount: u64) -> TokenAccount {
    TokenAccount { amount: (account.amount + amount) as u64, ..account }
}

/// Moves `amount` from `from` to `to`, authorised by `authority`. Either the
/// whole amount moves or neither account changes.
pub fn transfer(
    from: &mut TokenAccount,
    to: &mut TokenAccount,
    authority: &Address,
    amount: u64,
) -> (done: Result<(), CustodyError>)
    ensures
        done == transfer_verdict(*old(from), *old(to), *authority, amount),
        done is Ok ==> *final(from) == debited(*old(from), amount) && *final(to) == credited(
            *old(to),
            amount,
        ),
        done is Err ==> *final(from) == *old(from) && *final(to) == *old(to),
        final(from).amount + final(to).amount == old(from).amount + old(to).amount,
{
    if from.amount < amount {
        return Err(CustodyError::InsufficientFunds);
    }
    if from.mint != to.mint {
        return Err(CustodyError::MintMismatch);
    }
    if from.owner != *authority {
        return Err(CustodyError::OwnerMismatch);
    }
    match to.amount.checked_add(amount) {
        None => Err(CustodyError::Overflow),
        Some(sum) => {
            from.amount = from.amount - amount;
            to.amount = sum;
            Ok(())
        },
    }
}

} // verus!
