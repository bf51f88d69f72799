use vstd::prelude::*;

use crate::error::TokenError;

verus! {

/// The one piece of a ledger-held token account this library reads or
/// writes: its balance. The accounts themselves are owned by the host
/// ledger; a value of this type stands for the balance observed at one
/// moment of the atomic execution.
#[derive(Clone, Copy, Debug, PartialEq, Eq, Structural)]
pub struct TokenAccount {
    pub amount: u64,
}

/// The balance effect of one token-transfer sub-call: it fails if the
/// source holds less than the amount, fails if the destination would
/// overflow, and otherwise moves exactly `amount` from source to
/// destination. The source balance is checked before the destination.
pub open spec fn spec_transfer(from: u64, to: u64, amount: u64) -> Result<(u64, u64), TokenError> {
    if from < amount {
        Err(TokenError::InsufficientFunds)
    } else if to + amount > u64::MAX {
        Err(TokenError::Overflow)
    } else {
        Ok(((from - amount) as u64, (to + amount) as u64))
    }
}

/// Move `amount` from one token account to the other, exactly as the
/// token-transfer primitive would: all of it or nothing, with both
/// balances untouched on failure.
pub fn transfer(from: &mut TokenAccount, to: &mut TokenAccount, amount: u64) -> (r: Result<
    (),
    TokenError,
>)
    ensures
        match r {
            Ok(_) => spec_transfer(old(from).amount, old(to).amount, amount) == Ok::<_, TokenError>(
                (final(from).amount, final(to).amount),
            ),
            Err(e) => spec_transfer(old(from).amount, old(to).amount, amount) == Err::<
                (u64, u64),
                _,
            >(e) && *final(from) == *old(from) && *final(to) == *old(to),
        },
{
    if from.amount < amount {
        Err(TokenError::InsufficientFunds)
    } else if amount > u64::MAX - to.amount {
        Err(TokenError::Overflow)
    } else {
        from.amount = from.amount - amount;
        to.amount = to.amount + amount;
        Ok(())
    }
}

} // verus!
