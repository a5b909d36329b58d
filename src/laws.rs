use vstd::prelude::*;
use crate::errors::PredictionMarketError;
use crate::instructions::{
    bet_error,
    cancel_result,
    is_fresh_market,
    market_after_bet,
    opened_position,
    position_after_bet,
    settle_result,
    withdrawal_result,
};
use crate::keys::Key;
use crate::market::{Market, proportional_share};
use crate::position::UserPosition;

verus! {

/// The sum of the amounts of a run of stakes, each given as
/// `(outcome, amount)`.
pub open spec fn staked_sum(bets: Seq<(bool, u64)>) -> int
    decreases bets.len(),
{
    if bets.len() == 0 {
        0
    } else {
        staked_sum(bets.drop_last()) + bets.last().1
    }
}

/// The sum of the amounts of a run of stakes on a market, each given as
/// `(new_bettor, outcome, amount)`.
pub open spec fn market_staked_sum(bets: Seq<(bool, bool, u64)>) -> int
    decreases bets.len(),
{
    if bets.len() == 0 {
        0
    } else {
        market_staked_sum(bets.drop_last()) + bets.last().2
    }
}

/// A position after a run of its owner's stakes, in order.
pub open spec fn position_after_bets(p: UserPosition, bets: Seq<(bool, u64)>) -> UserPosition
    decreases bets.len(),
{
    if bets.len() == 0 {
        p
    } else {
        position_after_bet(position_after_bets(p, bets.drop_last()), bets.last().0, bets.last().1)
    }
}

/// A market after a run of accepted stakes, in order.
pub open spec fn market_after_bets(m: Market, bets: Seq<(bool, bool, u64)>) -> Market
    decreases bets.len(),
{
    if bets.len() == 0 {
        m
    } else {
        let b = bets.last();
        market_after_bet(market_after_bets(m, bets.drop_last()), b.0, b.1, b.2)
    }
}

/// A created market is open and empty, and expires `duration_seconds` after
/// its creation whenever that instant is representable.
pub proof fn law_fresh_market(
    m: Market,
    admin: Key,
    mint: Key,
    bump: u8,
    question: Seq<char>,
    duration_seconds: i64,
    min_bet_amount: u64,
    now: i64,
)
    requires
        is_fresh_market(m, admin, mint, bump, question, duration_seconds, min_bet_amount, now),
        now + duration_seconds <= i64::MAX,
        duration_seconds > 0,
    ensures
        !m.is_settled,
        !m.is_cancelled,
        m.total_yes_amount == 0,
        m.total_no_amount == 0,
        m.expires_at == m.created_at + duration_seconds,
        m.active_at(now),
{
}

/// Whatever the market held before, a run of accepted stakes whose sum does
/// not reach the clamp adds exactly that sum to the market's pool.
pub proof fn law_market_totals_add_up(m: Market, bets: Seq<(bool, bool, u64)>)
    requires
        m.total_yes_amount + m.total_no_amount + market_staked_sum(bets) <= u64::MAX,
    ensures
        market_after_bets(m, bets).total_yes_amount + market_after_bets(m, bets).total_no_amount
            == m.total_yes_amount + m.total_no_amount + market_staked_sum(bets),
    decreases bets.len(),
{
    if bets.len() > 0 {
        let rest = bets.drop_last();
        lemma_market_staked_sum_nonneg(rest);
        law_market_totals_add_up(m, rest);
    }
}

proof fn lemma_market_staked_sum_nonneg(bets: Seq<(bool, bool, u64)>)
    ensures
        market_staked_sum(bets) >= 0,
    decreases bets.len(),
{
    if bets.len() > 0 {
        lemma_market_staked_sum_nonneg(bets.drop_last());
    }
}

proof fn lemma_staked_sum_nonneg(bets: Seq<(bool, u64)>)
    ensures
        staked_sum(bets) >= 0,
    decreases bets.len(),
{
    if bets.len() > 0 {
        lemma_staked_sum_nonneg(bets.drop_last());
    }
}

/// A run of one participant's stakes whose sum does not reach the clamp adds
/// exactly that sum to their position.
pub proof fn law_position_totals_add_up(p: UserPosition, bets: Seq<(bool, u64)>)
    requires
        p.yes_amount + p.no_amount + staked_sum(bets) <= u64::MAX,
    ensures
        position_after_bets(p, bets).yes_amount + position_after_bets(p, bets).no_amount
            == p.yes_amount + p.no_amount + staked_sum(bets),
    decreases bets.len(),
{
    if bets.len() > 0 {
        let rest = bets.drop_last();
        lemma_staked_sum_nonneg(rest);
        law_position_totals_add_up(p, rest);
    }
}

/// An accepted stake keeps a position's stake on each side within the
/// market's total on that side.
pub proof fn law_bet_keeps_position_within_totals(
    m: Market,
    p: UserPosition,
    market_key: Key,
    user: Key,
    position_bump: u8,
    outcome: bool,
    amount: u64,
    side: bool,
)
    requires
        opened_position(p, market_key, user, position_bump).stake_on(side) <= m.side_total(side),
    ensures
        ({
            let opened = opened_position(p, market_key, user, position_bump);
            position_after_bet(opened, outcome, amount).stake_on(side) <= market_after_bet(
                m,
                opened.stake_on(outcome) == 0,
                outcome,
                amount,
            ).side_total(side)
        }),
{
}

/// A stake on a market that is not active at `now` (past its deadline,
/// settled or cancelled) is refused as such, whatever its amount.
pub proof fn law_stake_needs_active_market(m: Market, amount: u64, now: i64)
    requires
        now >= m.expires_at || m.is_settled || m.is_cancelled,
    ensures
        bet_error(m, amount, now) == Some(PredictionMarketError::MarketNotActive),
{
}

/// The admin resolving an open market before its deadline is refused as too
/// early; a settled market refuses resolution as already settled, a cancelled
/// one as cancelled.
pub proof fn law_resolve_only_after_deadline(m: Market, caller: Key, winning_outcome: bool, now: i64)
    requires
        caller@ == m.admin@,
    ensures
        !m.is_settled && !m.is_cancelled && now < m.expires_at ==> settle_result(
            m,
            caller,
            winning_outcome,
            now,
        ) == Err::<Market, PredictionMarketError>(PredictionMarketError::MarketNotExpired),
        m.is_settled ==> settle_result(m, caller, winning_outcome, now) == Err::<
            Market,
            PredictionMarketError,
        >(PredictionMarketError::MarketAlreadySettled),
        !m.is_settled && m.is_cancelled ==> settle_result(m, caller, winning_outcome, now) == Err::<
            Market,
            PredictionMarketError,
        >(PredictionMarketError::MarketCancelled),
{
}

/// Once resolved, a market can be neither resolved again nor cancelled, by
/// anyone, at any time.
pub proof fn law_resolve_once(
    m: Market,
    caller: Key,
    winning_outcome: bool,
    now: i64,
    caller2: Key,
    winning_outcome2: bool,
    now2: i64,
)
    requires
        settle_result(m, caller, winning_outcome, now) is Ok,
    ensures
        settle_result(
            settle_result(m, caller, winning_outcome, now)->Ok_0,
            caller2,
            winning_outcome2,
            now2,
        ) is Err,
        cancel_result(settle_result(m, caller, winning_outcome, now)->Ok_0, caller2) is Err,
        settle_result(m, caller, winning_outcome, now)->Ok_0.wf() || !m.wf(),
{
}

/// Once cancelled, a market can be neither resolved nor cancelled again.
pub proof fn law_cancel_once(m: Market, caller: Key, caller2: Key, winning_outcome: bool, now: i64)
    requires
        cancel_result(m, caller) is Ok,
    ensures
        settle_result(cancel_result(m, caller)->Ok_0, caller2, winning_outcome, now) is Err,
        cancel_result(cancel_result(m, caller)->Ok_0, caller2) is Err,
{
}

/// A claim on a market that is not settled is refused as such; a claim with
/// a position that is not the caller's in this market is refused as invalid.
pub proof fn law_claim_guards(m: Market, p: UserPosition, market_key: Key, caller: Key)
    ensures
        !m.is_settled ==> withdrawal_result(m, p, market_key, caller) == Err::<
            u64,
            PredictionMarketError,
        >(PredictionMarketError::MarketNotSettled),
        m.is_settled && (p.user@ != caller@ || p.market@ != market_key@) ==> withdrawal_result(
            m,
            p,
            market_key,
            caller,
        ) == Err::<u64, PredictionMarketError>(PredictionMarketError::InvalidUserPosition),
{
}

/// After a successful claim the same position cannot claim again.
pub proof fn law_claim_once(m: Market, p: UserPosition, market_key: Key, caller: Key)
    requires
        withdrawal_result(m, p, market_key, caller) is Ok,
    ensures
        withdrawal_result(m, UserPosition { has_claimed: true, ..p }, market_key, caller) == Err::<
            u64,
            PredictionMarketError,
        >(PredictionMarketError::AlreadyClaimed),
{
}

/// When nobody staked on the winning side, every claim with a position
/// whose stakes stay within the market's totals finds no winning stake.
pub proof fn law_no_backers_no_payout(m: Market, p: UserPosition, market_key: Key, caller: Key)
    requires
        m.wf(),
        m.is_settled,
        m.side_total(m.winning_outcome->Some_0) == 0,
        p.stake_on(m.winning_outcome->Some_0) <= m.side_total(m.winning_outcome->Some_0),
        p.market@ == market_key@,
        p.user@ == caller@,
        !p.has_claimed,
    ensures
        withdrawal_result(m, p, market_key, caller) == Err::<u64, PredictionMarketError>(
            PredictionMarketError::NoWinningBet,
        ),
{
}

proof fn lemma_share_within_pool(bet: u64, pool: u64, side: u64)
    requires
        0 < side,
        bet <= side,
    ensures
        0 <= (bet as int) * (pool as int) / (side as int) <= pool,
        proportional_share(bet, pool, side) == (bet as int) * (pool as int) / (side as int),
{
    let q = (bet as int) * (pool as int) / (side as int);
    vstd::arithmetic::mul::lemma_mul_inequality(bet as int, side as int, pool as int);
    vstd::arithmetic::mul::lemma_mul_is_commutative(side as int, pool as int);
    vstd::arithmetic::div_mod::lemma_div_is_ordered(
        (bet as int) * (pool as int),
        (side as int) * (pool as int),
        side as int,
    );
    vstd::arithmetic::div_mod::lemma_div_multiples_vanish(pool as int, side as int);
    vstd::arithmetic::mul::lemma_mul_nonnegative(bet as int, pool as int);
    vstd::arithmetic::div_mod::lemma_div_pos_is_pos((bet as int) * (pool as int), side as int);
    vstd::arithmetic::div_mod::lemma_small_mod(q as nat, 0x1_0000_0000_0000_0000nat);
}

/// The sole staker on the winning side, with stake `stake`, receives the
/// whole pool: their stake plus everything staked on the losing side.
pub proof fn law_sole_winner_takes_pool(m: Market, stake: u64)
    requires
        m.winning_outcome is Some,
        m.side_total(m.winning_outcome->Some_0) == stake,
        stake > 0,
        m.total_yes_amount + m.total_no_amount <= u64::MAX,
    ensures
        m.payout(stake, m.winning_outcome->Some_0) == m.total_yes_amount + m.total_no_amount,
{
    let pool = m.pool();
    lemma_share_within_pool(stake, pool, stake);
    vstd::arithmetic::mul::lemma_mul_is_commutative(stake as int, pool as int);
    vstd::arithmetic::div_mod::lemma_div_multiples_vanish(pool as int, stake as int);
}

/// Two stakes `stake1` and `stake2` that make up the whole winning side are
/// each paid their proportional share of the pool; together they receive the
/// pool, less at most one unit lost to rounding down, and never more.
pub proof fn law_two_winners_share_pool(m: Market, stake1: u64, stake2: u64)
    requires
        m.winning_outcome is Some,
        m.side_total(m.winning_outcome->Some_0) == stake1 + stake2,
        stake1 + stake2 > 0,
        m.total_yes_amount + m.total_no_amount <= u64::MAX,
    ensures
        ({
            let side = m.winning_outcome->Some_0;
            let pool = m.total_yes_amount + m.total_no_amount;
            let w = stake1 + stake2;
            &&& m.payout(stake1, side) == stake1 * pool / w
            &&& m.payout(stake2, side) == stake2 * pool / w
            &&& m.payout(stake1, side) + m.payout(stake2, side) <= pool
            &&& m.payout(stake1, side) + m.payout(stake2, side) + 1 >= pool
        }),
{
    let side = m.winning_outcome->Some_0;
    let pool = m.pool();
    let w = m.side_total(side);
    lemma_share_within_pool(stake1, pool, w);
    lemma_share_within_pool(stake2, pool, w);
    let p = pool as int;
    let wi = w as int;
    let q1 = (stake1 as int) * p / wi;
    let q2 = (stake2 as int) * p / wi;
    let r1 = (stake1 as int) * p % wi;
    let r2 = (stake2 as int) * p % wi;
    vstd::arithmetic::div_mod::lemma_fundamental_div_mod((stake1 as int) * p, wi);
    vstd::arithmetic::div_mod::lemma_fundamental_div_mod((stake2 as int) * p, wi);
    vstd::arithmetic::div_mod::lemma_mod_bound((stake1 as int) * p, wi);
    vstd::arithmetic::div_mod::lemma_mod_bound((stake2 as int) * p, wi);
    vstd::arithmetic::mul::lemma_mul_is_distributive_add_other_way(p, stake1 as int, stake2 as int);
    assert(wi * p == wi * (q1 + q2) + r1 + r2) by (nonlinear_arith)
        requires
            (stake1 as int) * p == wi * q1 + r1,
            (stake2 as int) * p == wi * q2 + r2,
            (stake1 as int + stake2 as int) * p == (stake1 as int) * p + (stake2 as int) * p,
            wi == stake1 as int + stake2 as int,
    ;
    assert(0 <= p - (q1 + q2) < 2) by (nonlinear_arith)
        requires
            wi * p == wi * (q1 + q2) + r1 + r2,
            0 <= r1 < wi,
            0 <= r2 < wi,
            wi > 0,
    ;
}

} // verus!
