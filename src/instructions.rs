use vstd::prelude::*;
use crate::digest::{sha256, sha256_digest};
use crate::errors::PredictionMarketError;
use crate::keys::{Key, is_zero, is_zero_key, same_key};
use crate::market::{Market, MAX_QUESTION_LENGTH, saturating_add_i64};
use crate::position::UserPosition;
use vstd::utf8::encode_utf8;

verus! {

/// Why a market with these parameters cannot be created, if it cannot: the
/// digest must match the committed hash, then the question must fit, the
/// duration must be positive and the minimum stake nonzero.
pub open spec fn creation_error(
    digest: Seq<u8>,
    question_hash: Seq<u8>,
    question_len: int,
    duration_seconds: i64,
    min_bet_amount: u64,
) -> Option<PredictionMarketError> {
    if digest != question_hash {
        Some(PredictionMarketError::InvalidQuestionHash)
    } else if question_len > MAX_QUESTION_LENGTH {
        Some(PredictionMarketError::QuestionTooLong)
    } else if duration_seconds <= 0 {
        Some(PredictionMarketError::InvalidDuration)
    } else if min_bet_amount == 0 {
        Some(PredictionMarketError::InvalidMinBetAmount)
    } else {
        None
    }
}

/// A freshly created market: open, empty, expiring `duration_seconds` after
/// `now`.
pub open spec fn is_fresh_market(
    m: Market,
    admin: Key,
    mint: Key,
    bump: u8,
    question: Seq<char>,
    duration_seconds: i64,
    min_bet_amount: u64,
    now: i64,
) -> bool {
    &&& m.admin == admin
    &&& m.mint == mint
    &&& m.bump == bump
    &&& m.question@ == question
    &&& m.created_at == now
    &&& m.expires_at == saturating_add_i64(now, duration_seconds)
    &&& m.min_bet_amount == min_bet_amount
    &&& m.total_yes_amount == 0
    &&& m.total_no_amount == 0
    &&& m.yes_bettors_count == 0
    &&& m.no_bettors_count == 0
    &&& !m.is_settled
    &&& !m.is_cancelled
    &&& m.winning_outcome == None::<bool>
}

/// Creates a market from a question whose SHA-256 digest `recomputed_hash`
/// the caller has already computed.
pub fn initialize_market_with_digest(
    recomputed_hash: [u8; 32],
    admin: Key,
    mint: Key,
    bump: u8,
    question_hash: [u8; 32],
    question: String,
    duration_seconds: i64,
    min_bet_amount: u64,
    now: i64,
) -> (r: Result<Market, PredictionMarketError>)
    ensures
        match creation_error(
            recomputed_hash@,
            question_hash@,
            encode_utf8(question@).len() as int,
            duration_seconds,
            min_bet_amount,
        ) {
            Some(e) => r == Err::<Market, PredictionMarketError>(e),
            None => r is Ok && r->Ok_0.wf() && is_fresh_market(
                r->Ok_0,
                admin,
                mint,
                bump,
                question@,
                duration_seconds,
                min_bet_amount,
                now,
            ),
        },
{
    if !same_key(&recomputed_hash, &question_hash) {
        return Err(PredictionMarketError::InvalidQuestionHash);
    }
    let question_bytes: &[u8] = question.as_str().as_bytes();
    if question_bytes.len() > MAX_QUESTION_LENGTH {
        return Err(PredictionMarketError::QuestionTooLong);
    }
    if duration_seconds <= 0 {
        return Err(PredictionMarketError::InvalidDuration);
    }
    if min_bet_amount == 0 {
        return Err(PredictionMarketError::InvalidMinBetAmount);
    }
    let expires_at = match now.checked_add(duration_seconds) {
        Some(t) => t,
        None => i64::MAX,
    };
    Ok(Market {
        admin,
        question,
        created_at: now,
        expires_at,
        min_bet_amount,
        total_yes_amount: 0,
        total_no_amount: 0,
        yes_bettors_count: 0,
        no_bettors_count: 0,
        is_settled: false,
        is_cancelled: false,
        winning_outcome: None,
        mint,
        bump,
    })
}

/// Creates a market whose question commits to `question_hash`, the SHA-256
/// digest of the question's UTF-8 bytes.
pub fn initialize_market(
    admin: Key,
    mint: Key,
    bump: u8,
    question_hash: [u8; 32],
    question: String,
    duration_seconds: i64,
    min_bet_amount: u64,
    now: i64,
) -> (r: Result<Market, PredictionMarketError>)
    ensures
        match creation_error(
            sha256_digest(encode_utf8(question@)),
            question_hash@,
            encode_utf8(question@).len() as int,
            duration_seconds,
            min_bet_amount,
        ) {
            Some(e) => r == Err::<Market, PredictionMarketError>(e),
            None => r is Ok && r->Ok_0.wf() && is_fresh_market(
                r->Ok_0,
                admin,
                mint,
                bump,
                question@,
                duration_seconds,
                min_bet_amount,
                now,
            ),
        },
{
    let recomputed_hash = sha256(question.as_str().as_bytes());
    initialize_market_with_digest(
        recomputed_hash,
        admin,
        mint,
        bump,
        question_hash,
        question,
        duration_seconds,
        min_bet_amount,
        now,
    )
}

/// Why a stake of `amount` is refused at time `now`, if it is.
pub open spec fn bet_error(m: Market, amount: u64, now: i64) -> Option<PredictionMarketError> {
    if !m.active_at(now) {
        Some(PredictionMarketError::MarketNotActive)
    } else if amount < m.min_bet_amount {
        Some(PredictionMarketError::BetAmountTooLow)
    } else {
        None
    }
}

/// The position as it stands once its owner's first stake has opened it.
pub open spec fn opened_position(
    p: UserPosition,
    market_key: Key,
    user: Key,
    position_bump: u8,
) -> UserPosition {
    if is_zero_key(p.market@) {
        UserPosition {
            market: market_key,
            user,
            yes_amount: 0,
            no_amount: 0,
            has_claimed: false,
            bump: position_bump,
        }
    } else {
        p
    }
}

/// A position after a stake of `amount` on `outcome`.
pub open spec fn position_after_bet(p: UserPosition, outcome: bool, amount: u64) -> UserPosition {
    if outcome {
        UserPosition { yes_amount: p.yes_amount.saturating_add(amount), ..p }
    } else {
        UserPosition { no_amount: p.no_amount.saturating_add(amount), ..p }
    }
}

/// A market after a stake of `amount` on `outcome`; `new_bettor` says whether
/// the participant had nothing on that side before.
pub open spec fn market_after_bet(m: Market, new_bettor: bool, outcome: bool, amount: u64) -> Market {
    if outcome {
        Market {
            total_yes_amount: m.total_yes_amount.saturating_add(amount),
            yes_bettors_count: if new_bettor {
                m.yes_bettors_count.saturating_add(1)
            } else {
                m.yes_bettors_count
            },
            ..m
        }
    } else {
        Market {
            total_no_amount: m.total_no_amount.saturating_add(amount),
            no_bettors_count: if new_bettor {
                m.no_bettors_count.saturating_add(1)
            } else {
                m.no_bettors_count
            },
            ..m
        }
    }
}

/// Checks a stake of `amount` against the market at time `now`, before any
/// tokens move.
pub fn validate_bet(market: &Market, amount: u64, now: i64) -> (r: Result<(), PredictionMarketError>)
    ensures
        match bet_error(*market, amount, now) {
            Some(e) => r == Err::<(), PredictionMarketError>(e),
            None => r is Ok,
        },
{
    if !market.is_active(now) {
        return Err(PredictionMarketError::MarketNotActive);
    }
    if amount < market.min_bet_amount {
        return Err(PredictionMarketError::BetAmountTooLow);
    }
    Ok(())
}

/// Records a stake of `amount` on `outcome` by `user`, whose position in the
/// market at `market_key` is `user_position`: opens the position on its first
/// stake, adds the amount to the position and to the market's total on that
/// side, and counts the user as a new bettor on that side if they had nothing
/// there. A refused stake changes nothing.
pub fn place_bet(
    market: &mut Market,
    user_position: &mut UserPosition,
    market_key: Key,
    user: Key,
    position_bump: u8,
    outcome: bool,
    amount: u64,
    now: i64,
) -> (r: Result<(), PredictionMarketError>)
    ensures
        match bet_error(*old(market), amount, now) {
            Some(e) => {
                &&& r == Err::<(), PredictionMarketError>(e)
                &&& *final(market) == *old(market)
                &&& *final(user_position) == *old(user_position)
            },
            None => {
                let opened = opened_position(*old(user_position), market_key, user, position_bump);
                &&& r is Ok
                &&& *final(user_position) == position_after_bet(opened, outcome, amount)
                &&& *final(market) == market_after_bet(
                    *old(market),
                    opened.stake_on(outcome) == 0,
                    outcome,
                    amount,
                )
            },
        },
        old(market).wf() ==> final(market).wf(),
{
    validate_bet(market, amount, now)?;
    if is_zero(&user_position.market) {
        user_position.market = market_key;
        user_position.user = user;
        user_position.yes_amount = 0;
        user_position.no_amount = 0;
        user_position.has_claimed = false;
        user_position.bump = position_bump;
    }
    let is_new_bettor = if outcome {
        user_position.yes_amount == 0
    } else {
        user_position.no_amount == 0
    };
    if outcome {
        user_position.yes_amount = user_position.yes_amount.saturating_add(amount);
        market.total_yes_amount = market.total_yes_amount.saturating_add(amount);
        if is_new_bettor {
            market.yes_bettors_count = market.yes_bettors_count.saturating_add(1);
        }
    } else {
        user_position.no_amount = user_position.no_amount.saturating_add(amount);
        market.total_no_amount = market.total_no_amount.saturating_add(amount);
        if is_new_bettor {
            market.no_bettors_count = market.no_bettors_count.saturating_add(1);
        }
    }
    Ok(())
}

/// The market after its admin `caller` declares `winning_outcome` at time
/// `now`, or why that is refused: only the admin may resolve, only once, never
/// a cancelled market, and not before the deadline.
pub open spec fn settle_result(
    m: Market,
    caller: Key,
    winning_outcome: bool,
    now: i64,
) -> Result<Market, PredictionMarketError> {
    if caller@ != m.admin@ {
        Err(PredictionMarketError::UnauthorizedAdmin)
    } else if m.is_settled {
        Err(PredictionMarketError::MarketAlreadySettled)
    } else if m.is_cancelled {
        Err(PredictionMarketError::MarketCancelled)
    } else if !m.expired_at(now) {
        Err(PredictionMarketError::MarketNotExpired)
    } else {
        Ok(Market { is_settled: true, winning_outcome: Some(winning_outcome), ..m })
    }
}

/// The market after its admin `caller` cancels it, or why that is refused:
/// only the admin may cancel, and only a market neither settled nor
/// cancelled. Cancelling needs no deadline to have passed.
pub open spec fn cancel_result(m: Market, caller: Key) -> Result<Market, PredictionMarketError> {
    if caller@ != m.admin@ {
        Err(PredictionMarketError::UnauthorizedAdmin)
    } else if m.is_settled {
        Err(PredictionMarketError::MarketAlreadySettled)
    } else if m.is_cancelled {
        Err(PredictionMarketError::MarketAlreadyCancelled)
    } else {
        Ok(Market { is_cancelled: true, ..m })
    }
}

/// Resolves the market in favour of `winning_outcome`. A refusal changes
/// nothing.
pub fn settle_market(
    market: &mut Market,
    caller: Key,
    winning_outcome: bool,
    now: i64,
) -> (r: Result<(), PredictionMarketError>)
    ensures
        match settle_result(*old(market), caller, winning_outcome, now) {
            Ok(m) => r is Ok && *final(market) == m,
            Err(e) => r == Err::<(), PredictionMarketError>(e) && *final(market) == *old(market),
        },
        old(market).wf() ==> final(market).wf(),
{
    if !same_key(&caller, &market.admin) {
        return Err(PredictionMarketError::UnauthorizedAdmin);
    }
    if market.is_settled {
        return Err(PredictionMarketError::MarketAlreadySettled);
    }
    if market.is_cancelled {
        return Err(PredictionMarketError::MarketCancelled);
    }
    if !market.is_expired(now) {
        return Err(PredictionMarketError::MarketNotExpired);
    }
    market.is_settled = true;
    market.winning_outcome = Some(winning_outcome);
    Ok(())
}

/// Cancels the market. A refusal changes nothing.
pub fn cancel_market(market: &mut Market, caller: Key) -> (r: Result<(), PredictionMarketError>)
    ensures
        match cancel_result(*old(market), caller) {
            Ok(m) => r is Ok && *final(market) == m,
            Err(e) => r == Err::<(), PredictionMarketError>(e) && *final(market) == *old(market),
        },
        old(market).wf() ==> final(market).wf(),
{
    if !same_key(&caller, &market.admin) {
        return Err(PredictionMarketError::UnauthorizedAdmin);
    }
    if market.is_settled {
        return Err(PredictionMarketError::MarketAlreadySettled);
    }
    if market.is_cancelled {
        return Err(PredictionMarketError::MarketAlreadyCancelled);
    }
    market.is_cancelled = true;
    Ok(())
}

/// What `caller` may withdraw with `position` from the market at
/// `market_key`, or why nothing: the market must be settled, the position
/// must be the caller's in this market and not yet claimed, it must hold a
/// stake on the winning side, and that stake must pay something.
pub open spec fn withdrawal_result(
    m: Market,
    p: UserPosition,
    market_key: Key,
    caller: Key,
) -> Result<u64, PredictionMarketError> {
    if !m.is_settled {
        Err(PredictionMarketError::MarketNotSettled)
    } else if p.market@ != market_key@ || p.user@ != caller@ {
        Err(PredictionMarketError::InvalidUserPosition)
    } else if p.has_claimed {
        Err(PredictionMarketError::AlreadyClaimed)
    } else {
        let side = m.winning_outcome->Some_0;
        let stake = p.stake_on(side);
        if stake == 0 {
            Err(PredictionMarketError::NoWinningBet)
        } else if m.payout(stake, side) == 0 {
            Err(PredictionMarketError::NoWinningsToWithdraw)
        } else {
            Ok(m.payout(stake, side))
        }
    }
}

/// Works out what `caller` is owed, before any tokens move.
pub fn winnings_due(
    market: &Market,
    user_position: &UserPosition,
    market_key: Key,
    caller: Key,
) -> (r: Result<u64, PredictionMarketError>)
    requires
        market.wf(),
    ensures
        r == withdrawal_result(*market, *user_position, market_key, caller),
{
    if !market.is_settled {
        return Err(PredictionMarketError::MarketNotSettled);
    }
    if !same_key(&user_position.market, &market_key) || !same_key(&user_position.user, &caller) {
        return Err(PredictionMarketError::InvalidUserPosition);
    }
    if user_position.has_claimed {
        return Err(PredictionMarketError::AlreadyClaimed);
    }
    let winning_outcome = match market.winning_outcome {
        Some(w) => w,
        None => {
            return Err(PredictionMarketError::MarketNotSettled);
        },
    };
    let user_bet_on_winning_side = user_position.get_bet_amount_for_outcome(winning_outcome);
    if user_bet_on_winning_side == 0 {
        return Err(PredictionMarketError::NoWinningBet);
    }
    let payout = market.calculate_payout(user_bet_on_winning_side, winning_outcome);
    if payout == 0 {
        return Err(PredictionMarketError::NoWinningsToWithdraw);
    }
    Ok(payout)
}

/// Settles `caller`'s position once the winnings have been paid out: returns
/// the amount owed and marks the position claimed. A refusal changes nothing.
pub fn withdraw_winnings(
    market: &Market,
    user_position: &mut UserPosition,
    market_key: Key,
    caller: Key,
) -> (r: Result<u64, PredictionMarketError>)
    requires
        market.wf(),
    ensures
        r == withdrawal_result(*market, *old(user_position), market_key, caller),
        r is Ok ==> *final(user_position) == (UserPosition { has_claimed: true, ..*old(user_position) }),
        r is Err ==> *final(user_position) == *old(user_position),
{
    let payout = winnings_due(market, user_position, market_key, caller)?;
    user_position.has_claimed = true;
    Ok(payout)
}

} // verus!
