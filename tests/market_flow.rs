use anchor_lang::solana_program::hash::hash;
use prediction_market::errors::PredictionMarketError;
use prediction_market::instructions::{
    cancel_market, initialize_market, initialize_market_with_digest, place_bet, settle_market,
    validate_bet, winnings_due, withdraw_winnings,
};
use prediction_market::keys::{is_zero, same_key, zero_key};
use prediction_market::market::Market;
use prediction_market::position::UserPosition;

const ADMIN: [u8; 32] = [1u8; 32];
const MINT: [u8; 32] = [2u8; 32];
const MARKET_KEY: [u8; 32] = [3u8; 32];
const ALICE: [u8; 32] = [4u8; 32];
const BOB: [u8; 32] = [5u8; 32];
const CAROL: [u8; 32] = [6u8; 32];
const START: i64 = 1_700_000_000;

fn digest(q: &str) -> [u8; 32] {
    hash(q.as_bytes()).to_bytes()
}

fn new_market(min_bet: u64, duration: i64) -> Market {
    let q = "Will it rain tomorrow?";
    initialize_market(ADMIN, MINT, 254, digest(q), q.to_string(), duration, min_bet, START).unwrap()
}

fn bet(m: &mut Market, p: &mut UserPosition, user: [u8; 32], outcome: bool, amount: u64, now: i64)
    -> Result<(), PredictionMarketError> {
    place_bet(m, p, MARKET_KEY, user, 7, outcome, amount, now)
}

#[test]
fn created_market_is_open_and_empty() {
    let m = new_market(10, 3600);
    assert!(!m.is_settled);
    assert!(!m.is_cancelled);
    assert_eq!(m.total_yes_amount, 0);
    assert_eq!(m.total_no_amount, 0);
    assert_eq!(m.created_at, START);
    assert_eq!(m.expires_at, START + 3600);
    assert_eq!(m.winning_outcome, None);
    assert_eq!(m.admin, ADMIN);
    assert_eq!(m.mint, MINT);
    assert_eq!(m.question, "Will it rain tomorrow?");
    assert!(m.is_active(START));
    assert!(!m.is_expired(START + 3599));
    assert!(m.is_expired(START + 3600));
}

#[test]
fn create_checks_question_hash_with_sha256() {
    let q = "abc";
    // SHA-256 of "abc".
    let expected: [u8; 32] = [
        0xba, 0x78, 0x16, 0xbf, 0x8f, 0x01, 0xcf, 0xea, 0x41, 0x41, 0x40, 0xde, 0x5d, 0xae, 0x22,
        0x23, 0xb0, 0x03, 0x61, 0xa3, 0x96, 0x17, 0x7a, 0x9c, 0xb4, 0x10, 0xff, 0x61, 0xf2, 0x00,
        0x15, 0xad,
    ];
    let ok = initialize_market(ADMIN, MINT, 1, expected, q.to_string(), 60, 1, START);
    assert!(ok.is_ok());
    // The raw bytes of the question are not its digest.
    let mut raw = [0u8; 32];
    raw[..3].copy_from_slice(q.as_bytes());
    let err = initialize_market(ADMIN, MINT, 1, raw, q.to_string(), 60, 1, START);
    assert_eq!(err.unwrap_err(), PredictionMarketError::InvalidQuestionHash);
}

#[test]
fn create_rejects_bad_parameters() {
    let long = "x".repeat(281);
    let r = initialize_market(ADMIN, MINT, 1, digest(&long), long.clone(), 60, 1, START);
    assert_eq!(r.unwrap_err(), PredictionMarketError::QuestionTooLong);
    let fits = "x".repeat(280);
    assert!(initialize_market(ADMIN, MINT, 1, digest(&fits), fits.clone(), 60, 1, START).is_ok());
    let q = "q";
    let r = initialize_market(ADMIN, MINT, 1, digest(q), q.to_string(), 0, 1, START);
    assert_eq!(r.unwrap_err(), PredictionMarketError::InvalidDuration);
    let r = initialize_market(ADMIN, MINT, 1, digest(q), q.to_string(), -5, 1, START);
    assert_eq!(r.unwrap_err(), PredictionMarketError::InvalidDuration);
    let r = initialize_market(ADMIN, MINT, 1, digest(q), q.to_string(), 60, 0, START);
    assert_eq!(r.unwrap_err(), PredictionMarketError::InvalidMinBetAmount);
    let r = initialize_market_with_digest([9u8; 32], ADMIN, MINT, 1, [8u8; 32], q.to_string(), 60, 1, START);
    assert_eq!(r.unwrap_err(), PredictionMarketError::InvalidQuestionHash);
}

#[test]
fn expiry_saturates_at_the_largest_time() {
    let q = "q";
    let m = initialize_market(ADMIN, MINT, 1, digest(q), q.to_string(), 100, 1, i64::MAX - 10).unwrap();
    assert_eq!(m.expires_at, i64::MAX);
}

#[test]
fn stakes_add_up_on_market_and_position() {
    let mut m = new_market(10, 3600);
    let mut pa = UserPosition::empty();
    let mut pb = UserPosition::empty();
    bet(&mut m, &mut pa, ALICE, true, 100, START + 1).unwrap();
    bet(&mut m, &mut pa, ALICE, true, 50, START + 2).unwrap();
    bet(&mut m, &mut pa, ALICE, false, 20, START + 3).unwrap();
    bet(&mut m, &mut pb, BOB, false, 30, START + 4).unwrap();
    assert_eq!(m.total_yes_amount, 150);
    assert_eq!(m.total_no_amount, 50);
    assert_eq!(m.total_pool(), 200);
    assert_eq!(m.yes_bettors_count, 1);
    assert_eq!(m.no_bettors_count, 2);
    assert_eq!(pa.total_bet_amount(), 170);
    assert_eq!(pa.get_bet_amount_for_outcome(true), 150);
    assert_eq!(pa.get_bet_amount_for_outcome(false), 20);
    assert_eq!(pa.market, MARKET_KEY);
    assert_eq!(pa.user, ALICE);
    assert_eq!(pa.bump, 7);
    assert!(!pa.has_claimed);
    assert_eq!(pb.total_bet_amount(), 30);
}

#[test]
fn stakes_saturate_instead_of_wrapping() {
    let mut m = new_market(1, 3600);
    let mut pa = UserPosition::empty();
    bet(&mut m, &mut pa, ALICE, true, u64::MAX - 1, START).unwrap();
    bet(&mut m, &mut pa, ALICE, true, 5, START).unwrap();
    assert_eq!(m.total_yes_amount, u64::MAX);
    assert_eq!(pa.yes_amount, u64::MAX);
    bet(&mut m, &mut pa, ALICE, false, 5, START).unwrap();
    assert_eq!(m.total_pool(), u64::MAX);
    assert_eq!(pa.total_bet_amount(), u64::MAX);
}

#[test]
fn stake_refused_when_inactive_or_too_low() {
    let mut m = new_market(10, 3600);
    let mut p = UserPosition::empty();
    assert_eq!(bet(&mut m, &mut p, ALICE, true, 9, START).unwrap_err(), PredictionMarketError::BetAmountTooLow);
    assert_eq!(validate_bet(&m, 9, START).unwrap_err(), PredictionMarketError::BetAmountTooLow);
    assert!(validate_bet(&m, 10, START).is_ok());
    // After the deadline, even a stake below the minimum is refused as inactive.
    assert_eq!(bet(&mut m, &mut p, ALICE, true, 1, START + 3600).unwrap_err(), PredictionMarketError::MarketNotActive);
    assert_eq!(bet(&mut m, &mut p, ALICE, true, 100, START + 3600).unwrap_err(), PredictionMarketError::MarketNotActive);
    assert_eq!(m.total_yes_amount, 0);
    assert!(is_zero(&p.market));
    assert_eq!(p.yes_amount, 0);
    let mut c = new_market(10, 3600);
    cancel_market(&mut c, ADMIN).unwrap();
    assert_eq!(bet(&mut c, &mut p, ALICE, true, 100, START).unwrap_err(), PredictionMarketError::MarketNotActive);
    let mut s = new_market(10, 3600);
    settle_market(&mut s, ADMIN, true, START + 3600).unwrap();
    assert_eq!(bet(&mut s, &mut p, ALICE, true, 100, START).unwrap_err(), PredictionMarketError::MarketNotActive);
}

#[test]
fn resolve_rules() {
    let mut m = new_market(10, 3600);
    assert_eq!(settle_market(&mut m, ALICE, true, START + 4000).unwrap_err(), PredictionMarketError::UnauthorizedAdmin);
    assert_eq!(settle_market(&mut m, ADMIN, true, START + 3599).unwrap_err(), PredictionMarketError::MarketNotExpired);
    assert!(!m.is_settled);
    settle_market(&mut m, ADMIN, false, START + 3600).unwrap();
    assert!(m.is_settled);
    assert_eq!(m.winning_outcome, Some(false));
    assert_eq!(settle_market(&mut m, ADMIN, true, START + 5000).unwrap_err(), PredictionMarketError::MarketAlreadySettled);
    assert_eq!(m.winning_outcome, Some(false));
    assert_eq!(cancel_market(&mut m, ADMIN).unwrap_err(), PredictionMarketError::MarketAlreadySettled);
}

#[test]
fn cancel_rules() {
    let mut m = new_market(10, 3600);
    assert_eq!(cancel_market(&mut m, BOB).unwrap_err(), PredictionMarketError::UnauthorizedAdmin);
    cancel_market(&mut m, ADMIN).unwrap();
    assert!(m.is_cancelled);
    assert_eq!(m.winning_outcome, None);
    assert_eq!(cancel_market(&mut m, ADMIN).unwrap_err(), PredictionMarketError::MarketAlreadyCancelled);
    assert_eq!(settle_market(&mut m, ADMIN, true, START + 4000).unwrap_err(), PredictionMarketError::MarketCancelled);
}

#[test]
fn yes_wins_whole_pool() {
    let mut m = new_market(10, 3600);
    let mut pa = UserPosition::empty();
    let mut pb = UserPosition::empty();
    bet(&mut m, &mut pa, ALICE, true, 100, START + 10).unwrap();
    bet(&mut m, &mut pb, BOB, false, 300, START + 20).unwrap();
    settle_market(&mut m, ADMIN, true, START + 3600).unwrap();
    assert_eq!(m.calculate_payout(100, true), 400);
    assert_eq!(m.calculate_payout(300, false), 0);
    assert_eq!(winnings_due(&m, &pa, MARKET_KEY, ALICE), Ok(400));
    assert_eq!(withdraw_winnings(&m, &mut pa, MARKET_KEY, ALICE), Ok(400));
    assert!(pa.has_claimed);
    // B staked nothing on the winning side.
    assert_eq!(withdraw_winnings(&m, &mut pb, MARKET_KEY, BOB).unwrap_err(), PredictionMarketError::NoWinningBet);
    assert!(!pb.has_claimed);
}

#[test]
fn zero_payout_is_no_winnings_to_withdraw() {
    // A stake on the winning side that pays nothing: the position's stake is
    // larger than what the market records, so the 64-bit share is zero.
    let mut m = new_market(1, 3600);
    let mut pa = UserPosition::empty();
    bet(&mut m, &mut pa, ALICE, true, 1, START).unwrap();
    settle_market(&mut m, ADMIN, true, START + 3600).unwrap();
    pa.yes_amount = 1u64 << 63;
    m.total_yes_amount = 1;
    m.total_no_amount = 1;
    // (2^63 * 2) / 1 = 2^64, which reduces to zero in 64 bits.
    assert_eq!(m.calculate_payout(1u64 << 63, true), 0);
    assert_eq!(withdraw_winnings(&m, &mut pa, MARKET_KEY, ALICE).unwrap_err(), PredictionMarketError::NoWinningsToWithdraw);
}

#[test]
fn nobody_on_winning_side_gets_no_winning_bet() {
    let mut m = new_market(10, 3600);
    let mut pa = UserPosition::empty();
    let mut pb = UserPosition::empty();
    bet(&mut m, &mut pa, ALICE, false, 100, START).unwrap();
    bet(&mut m, &mut pb, BOB, false, 300, START).unwrap();
    settle_market(&mut m, ADMIN, true, START + 3600).unwrap();
    assert_eq!(withdraw_winnings(&m, &mut pa, MARKET_KEY, ALICE).unwrap_err(), PredictionMarketError::NoWinningBet);
    assert_eq!(withdraw_winnings(&m, &mut pb, MARKET_KEY, BOB).unwrap_err(), PredictionMarketError::NoWinningBet);
}

#[test]
fn claim_rules() {
    let mut m = new_market(10, 3600);
    let mut pa = UserPosition::empty();
    bet(&mut m, &mut pa, ALICE, true, 100, START).unwrap();
    assert_eq!(withdraw_winnings(&m, &mut pa, MARKET_KEY, ALICE).unwrap_err(), PredictionMarketError::MarketNotSettled);
    settle_market(&mut m, ADMIN, true, START + 3600).unwrap();
    assert_eq!(withdraw_winnings(&m, &mut pa, MARKET_KEY, CAROL).unwrap_err(), PredictionMarketError::InvalidUserPosition);
    assert_eq!(withdraw_winnings(&m, &mut pa, [9u8; 32], ALICE).unwrap_err(), PredictionMarketError::InvalidUserPosition);
    let mut blank = UserPosition::empty();
    assert_eq!(withdraw_winnings(&m, &mut blank, MARKET_KEY, ALICE).unwrap_err(), PredictionMarketError::InvalidUserPosition);
    assert_eq!(withdraw_winnings(&m, &mut pa, MARKET_KEY, ALICE), Ok(100));
    assert_eq!(withdraw_winnings(&m, &mut pa, MARKET_KEY, ALICE).unwrap_err(), PredictionMarketError::AlreadyClaimed);
}

#[test]
fn two_winners_share_pool_with_rounding_down() {
    let mut m = new_market(1, 3600);
    let (mut pa, mut pb, mut pc) = (UserPosition::empty(), UserPosition::empty(), UserPosition::empty());
    bet(&mut m, &mut pa, ALICE, true, 1, START).unwrap();
    bet(&mut m, &mut pb, BOB, true, 2, START).unwrap();
    bet(&mut m, &mut pc, CAROL, false, 2, START).unwrap();
    settle_market(&mut m, ADMIN, true, START + 3600).unwrap();
    let a = withdraw_winnings(&m, &mut pa, MARKET_KEY, ALICE).unwrap();
    let b = withdraw_winnings(&m, &mut pb, MARKET_KEY, BOB).unwrap();
    // floor(1 * 5 / 3) = 1 and floor(2 * 5 / 3) = 3: one unit of 5 is lost.
    assert_eq!(a, 1);
    assert_eq!(b, 3);
    assert_eq!(a + b, 4);
}

#[test]
fn sole_winner_takes_pool() {
    let mut m = new_market(1, 3600);
    let (mut pa, mut pb) = (UserPosition::empty(), UserPosition::empty());
    bet(&mut m, &mut pa, ALICE, false, 77, START).unwrap();
    bet(&mut m, &mut pb, BOB, true, 23, START).unwrap();
    settle_market(&mut m, ADMIN, false, START + 3600).unwrap();
    assert_eq!(withdraw_winnings(&m, &mut pa, MARKET_KEY, ALICE), Ok(100));
}

#[test]
fn payout_product_wider_than_64_bits() {
    let mut m = new_market(1, 3600);
    let (mut pa, mut pb, mut pc) = (UserPosition::empty(), UserPosition::empty(), UserPosition::empty());
    let big = 1u64 << 62;
    bet(&mut m, &mut pa, ALICE, true, big, START).unwrap();
    bet(&mut m, &mut pb, BOB, true, big, START).unwrap();
    bet(&mut m, &mut pc, CAROL, false, big, START).unwrap();
    settle_market(&mut m, ADMIN, true, START + 3600).unwrap();
    // big * 3big overflows 64 bits; the share is 3big / 2.
    assert_eq!(withdraw_winnings(&m, &mut pa, MARKET_KEY, ALICE), Ok(3 * (big / 2)));
}

#[test]
fn payout_fallbacks() {
    let mut m = new_market(1, 3600);
    settle_market(&mut m, ADMIN, true, START + 3600).unwrap();
    // Empty pool: the stake itself.
    assert_eq!(m.calculate_payout(42, true), 42);
    m.total_no_amount = 10;
    // Empty winning side: the stake itself.
    assert_eq!(m.calculate_payout(42, true), 42);
    // The losing side pays nothing.
    assert_eq!(m.calculate_payout(42, false), 0);
}

#[test]
fn keys_compare_bytewise() {
    assert!(same_key(&ADMIN, &[1u8; 32]));
    let mut k = ADMIN;
    k[31] = 0;
    assert!(!same_key(&ADMIN, &k));
    assert!(is_zero(&zero_key()));
    assert!(!is_zero(&k));
}

#[test]
fn errors_have_messages() {
    assert_eq!(PredictionMarketError::MarketNotActive.message(), "Market is not active");
    assert_eq!(PredictionMarketError::InvalidQuestionHash.message(), "Invalid Question Hash");
    assert_eq!(PredictionMarketError::NoWinningsToWithdraw.message(), "No winnings to withdraw");
}
