use vstd::prelude::*;

verus! {

/// Every way an operation on a market or a position can be refused.
#[derive(Debug, Clone, Copy, PartialEq, Eq, Structural)]
pub enum PredictionMarketError {
    QuestionTooLong,
    InvalidDuration,
    InvalidMinBetAmount,
    MarketNotActive,
    BetAmountTooLow,
    MarketNotExpired,
    MarketAlreadySettled,
    MarketNotSettled,
    MarketCancelled,
    MarketAlreadyCancelled,
    UnauthorizedAdmin,
    InvalidUserPosition,
    AlreadyClaimed,
    NoWinningBet,
    NoWinningsToWithdraw,
    InsufficientFunds,
    ArithmeticOverflow,
    InvalidMarketAddress,
    InvalidQuestionHash,
}

impl PredictionMarketError {
    /// The human-readable message of the error.
    pub fn message(&self) -> (r: &'static str) {
        match self {
            PredictionMarketError::QuestionTooLong => "Question is too long",
            PredictionMarketError::InvalidDuration => "Invalid duration specified",
            PredictionMarketError::InvalidMinBetAmount => "Invalid minimum bet amount",
            PredictionMarketError::MarketNotActive => "Market is not active",
            PredictionMarketError::BetAmountTooLow => "Bet amount is below minimum",
            PredictionMarketError::MarketNotExpired => "Market is not expired yet",
            PredictionMarketError::MarketAlreadySettled => "Market is already settled",
            PredictionMarketError::MarketNotSettled => "Market is not settled yet",
            PredictionMarketError::MarketCancelled => "Market is cancelled",
            PredictionMarketError::MarketAlreadyCancelled => "Market is already cancelled",
            PredictionMarketError::UnauthorizedAdmin => "Unauthorized admin",
            PredictionMarketError::InvalidUserPosition => "Invalid user position",
            PredictionMarketError::AlreadyClaimed => "Winnings already claimed",
            PredictionMarketError::NoWinningBet => "No winning bet found",
            PredictionMarketError::NoWinningsToWithdraw => "No winnings to withdraw",
            PredictionMarketError::InsufficientFunds => "Insufficient funds",
            PredictionMarketError::ArithmeticOverflow => "Arithmetic overflow",
            PredictionMarketError::InvalidMarketAddress => "Invalid market address",
            PredictionMarketError::InvalidQuestionHash => "Invalid Question Hash",
        }
    }
}

} // verus!
