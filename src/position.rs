use vstd::prelude::*;
use crate::keys::{Key, is_zero_key};

verus! {

/// One participant's stakes in one market, and whether they have withdrawn.
#[derive(Debug, Clone, Copy)]
pub struct UserPosition {
    pub market: Key,
    pub user: Key,
    pub yes_amount: u64,
    pub no_amount: u64,
    pub has_claimed: bool,
    pub bump: u8,
}

impl UserPosition {
    /// A position that was never written: every field zero. It turns into a
    /// real position on its owner's first stake.
    pub open spec fn is_blank(&self) -> bool {
        &&& is_zero_key(self.market@)
        &&& is_zero_key(self.user@)
        &&& self.yes_amount == 0
        &&& self.no_amount == 0
        &&& !self.has_claimed
        &&& self.bump == 0
    }

    /// The stake on one side.
    pub open spec fn stake_on(&self, outcome: bool) -> u64 {
        if outcome {
            self.yes_amount
        } else {
            self.no_amount
        }
    }

    /// The storage slot of a position before its first stake.
    pub fn empty() -> (r: UserPosition)
        ensures
            r.is_blank(),
    {
        UserPosition {
            market: crate::keys::zero_key(),
            user: crate::keys::zero_key(),
            yes_amount: 0,
            no_amount: 0,
            has_claimed: false,
            bump: 0,
        }
    }

    /// The stakes on both sides together, clamped at `u64::MAX`.
    pub fn total_bet_amount(&self) -> (r: u64)
        ensures
            r == self.yes_amount.saturating_add(self.no_amount),
            self.yes_amount + self.no_amount <= u64::MAX ==> r == self.yes_amount
                + self.no_amount,
    {
        self.yes_amount.saturating_add(self.no_amount)
    }

    /// The stake on `outcome`.
    pub fn get_bet_amount_for_outcome(&self, outcome: bool) -> (r: u64)
        ensures
            r == self.stake_on(outcome),
    {
        if outcome {
            self.yes_amount
        } else {
            self.no_amount
        }
    }
}

} // verus!
