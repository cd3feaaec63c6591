//! The fungible-token transfer primitive the custody protocol moves value
//! with.
//!
//! The host's token ledger is modelled by plain `TokenAccount` snapshots;
//! `transfer` is the collaborator's one operation, written out here in
//! full: it moves an amount between two accounts of the same mint, only
//! under the paying account's owner as authority, and fails atomically
//! otherwise.

use vstd::prelude::*;
use crate::errors::AgoraError;
use crate::state::Address;

verus! {

/// A token-holding account on the host ledger.
#[derive(Clone, Copy, PartialEq, Eq, Structural, Debug)]
pub struct TokenAccount {
    /// The authority that may pay out of this account.
    pub owner: Address,
    /// The token kind this account holds.
    pub mint: Address,
    /// The custodied balance.
    pub amount: u64,
}

/// Why a transfer would be rejected, or `None` when it goes through:
/// the authority must own the paying account, the mints must agree, the
/// balance must cover the amount, and the receiving balance must not wrap.
pub open spec fn transfer_error(
    from: TokenAccount,
    to: TokenAccount,
    authority: Address,
    amount: u64,
) -> Option<AgoraError> {
    if authority != from.owner {
        Some(AgoraError::InvalidAuthority)
    } else if from.mint != to.mint {
        Some(AgoraError::MintMismatch)
    } else if from.amount < amount {
        Some(AgoraError::InsufficientFunds)
    } else if to.amount + amount > u64::MAX {
        Some(AgoraError::ArithmeticOverflow)
    } else {
        None
    }
}

/// Move `amount` from `from` to `to` under `authority`, atomically: on
/// any rejection neither account changes, and in every outcome the two
/// balances together are conserved.
pub fn transfer(
    from: &mut TokenAccount,
    to: &mut TokenAccount,
    authority: Address,
    amount: u64,
) -> (r: Result<(), AgoraError>)
    ensures
        r is Ok <==> transfer_error(*old(from), *old(to), authority, amount) is None,
        r matches Err(e) ==> Some(e) == transfer_error(*old(from), *old(to), authority, amount),
        r is Ok ==> *final(from) == (TokenAccount {
            amount: (old(from).amount - amount) as u64,
            ..*old(from)
        }),
        r is Ok ==> *final(to) == (TokenAccount {
            amount: (old(to).amount + amount) as u64,
            ..*old(to)
        }),
        r is Err ==> *final(from) == *old(from) && *final(to) == *old(to),
        final(from).amount + final(to).amount == old(from).amount + old(to).amount,
{
    if authority != from.owner {
        return Err(AgoraError::InvalidAuthority);
    }
    if from.mint != to.mint {
        return Err(AgoraError::MintMismatch);
    }
    if from.amount < amount {
        return Err(AgoraError::InsufficientFunds);
    }
    let receiving = match to.amount.checked_add(amount) {
        Some(v) => v,
        None => {
            return Err(AgoraError::ArithmeticOverflow);
        },
    };
    from.amount = from.amount - amount;
    to.amount = receiving;
    Ok(())
}

} // verus!
