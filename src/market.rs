use vstd::prelude::*;
use crate::keys::Key;

verus! {

/// The longest question, in bytes, that a market accepts.
pub const MAX_QUESTION_LENGTH: usize = 280;

/// One Yes/No question, its deadline, the stakes collected on each side and
/// how it was finalised.
#[derive(Debug, Clone)]
pub struct Market {
    pub admin: Key,
    pub question: String,
    pub created_at: i64,
    pub expires_at: i64,
    pub min_bet_amount: u64,
    pub total_yes_amount: u64,
    pub total_no_amount: u64,
    pub yes_bettors_count: u32,
    pub no_bettors_count: u32,
    pub is_settled: bool,
    pub is_cancelled: bool,
    pub winning_outcome: Option<bool>,
    pub mint: Key,
    pub bump: u8,
}

/// `a + b` clamped at `i64::MAX` and `i64::MIN`.
pub open spec fn saturating_add_i64(a: i64, b: i64) -> i64 {
    if a + b > i64::MAX {
        i64::MAX
    } else if a + b < i64::MIN {
        i64::MIN
    } else {
        (a + b) as i64
    }
}

/// The floor of `bet * pool / side`, reduced to 64 bits as a cast does.
pub open spec fn proportional_share(bet: u64, pool: u64, side: u64) -> u64 {
    (((bet as int) * (pool as int) / (side as int)) % 0x1_0000_0000_0000_0000) as u64
}

impl Market {
    /// At most one of settled and cancelled holds, and a winning outcome is
    /// recorded exactly when the market is settled.
    pub open spec fn wf(&self) -> bool {
        &&& !(self.is_settled && self.is_cancelled)
        &&& self.winning_outcome.is_some() == self.is_settled
    }

    /// Stakes are taken only while neither settled nor cancelled and before
    /// the deadline.
    pub open spec fn active_at(&self, now: i64) -> bool {
        !self.is_settled && !self.is_cancelled && now < self.expires_at
    }

    pub open spec fn expired_at(&self, now: i64) -> bool {
        now >= self.expires_at
    }

    pub open spec fn pool(&self) -> u64 {
        self.total_yes_amount.saturating_add(self.total_no_amount)
    }

    /// The total staked on one side.
    pub open spec fn side_total(&self, outcome: bool) -> u64 {
        if outcome {
            self.total_yes_amount
        } else {
            self.total_no_amount
        }
    }

    /// What a stake of `bet` on `outcome` pays: nothing unless `outcome` won;
    /// the stake itself when the pool or the winning side is empty; otherwise
    /// the stake's share of the whole pool, in proportion to the winning side.
    pub open spec fn payout(&self, bet: u64, outcome: bool) -> u64 {
        if self.winning_outcome != Some(outcome) {
            0
        } else if self.pool() == 0 {
            bet
        } else if self.side_total(outcome) == 0 {
            bet
        } else {
            proportional_share(bet, self.pool(), self.side_total(outcome))
        }
    }

    /// Whether stakes are taken at time `now`.
    pub fn is_active(&self, now: i64) -> (r: bool)
        ensures
            r == self.active_at(now),
    {
        !self.is_settled && !self.is_cancelled && now < self.expires_at
    }

    /// Whether the deadline has passed at time `now`.
    pub fn is_expired(&self, now: i64) -> (r: bool)
        ensures
            r == self.expired_at(now),
    {
        now >= self.expires_at
    }

    /// The total staked on both sides, clamped at `u64::MAX`.
    pub fn total_pool(&self) -> (r: u64)
        ensures
            r == self.pool(),
            self.total_yes_amount + self.total_no_amount <= u64::MAX ==> r
                == self.total_yes_amount + self.total_no_amount,
    {
        self.total_yes_amount.saturating_add(self.total_no_amount)
    }

    /// The payout of a stake of `bet_amount` on `bet_outcome`. The product of
    /// stake and pool is formed in 128 bits, so it never overflows.
    pub fn calculate_payout(&self, bet_amount: u64, bet_outcome: bool) -> (r: u64)
        ensures
            r == self.payout(bet_amount, bet_outcome),
    {
        let won = match self.winning_outcome {
            Some(w) => w == bet_outcome,
            None => false,
        };
        if !won {
            return 0;
        }
        let total_pool = self.total_pool();
        if total_pool == 0 {
            return bet_amount;
        }
        let winning_side_total = if bet_outcome {
            self.total_yes_amount
        } else {
            self.total_no_amount
        };
        if winning_side_total == 0 {
            return bet_amount;
        }
        let bet_wide = bet_amount as u128;
        let pool_wide = total_pool as u128;
        proof {
            vstd::arithmetic::mul::lemma_mul_upper_bound(
                bet_amount as int,
                u64::MAX as int,
                total_pool as int,
                u64::MAX as int,
            );
        }
        let product: u128 = bet_wide * pool_wide;
        let quotient: u128 = product / (winning_side_total as u128);
        let low: u128 = quotient % 0x1_0000_0000_0000_0000u128;
        low as u64
    }
}

} // verus!
