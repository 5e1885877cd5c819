//! Errors of the accounting core.
use vstd::prelude::*;

verus! {

/// Every failure the accounting core can report.
#[derive(Debug, Clone, Copy, PartialEq, Eq, Structural)]
pub enum ErrorCode {
    // Fund management
    FundNotInitialized,
    FundPaused,
    UnauthorizedAccess,
    FundAlreadyInitialized,
    // Deposits and withdrawals
    DepositTooSmall,
    DepositTooLarge,
    WithdrawAmountZero,
    InsufficientFundTokens,
    InsufficientLiquidity,
    InsufficientFunds,
    // NAV and calculations
    InvalidNAV,
    NAVTooLow,
    NAVTooHigh,
    NAVUpdateTooFrequent,
    NoSharesOutstanding,
    // Arithmetic and validation
    MathOverflow,
    InvalidAmount,
    InvalidAllocation,
    FeeTooHigh,
    // Fixed income assets
    InvalidAssetType,
    InvalidMaturityDate,
    InvalidCreditRating,
    InvalidYieldRate,
    InvalidFixedIncomeAssetData,
    AssetAlreadyMatured,
    // Portfolio management
    ConcentrationLimitExceeded,
    InsufficientDiversification,
    LiquidityRatioBelowMinimum,
    LiquidityTooLow,
    LiquidityTooHigh,
    InvalidLiquidityRatio,
    InvestmentAmountExceedsLimit,
    PortfolioConcentrationExceeded,
    // Token and account
    InvalidTokenMint,
    InvalidTokenAccount,
    UserAccountNotFound,
    UserAccountAlreadyExists,
    // Time and state
    InvalidTimeframe,
    OperationTooFrequent,
    InconsistentFundState,
    InvalidAccountData,
    // Asset management
    AssetPurchaseFailed,
    AssetSaleFailed,
    StaleAssetValuation,
    // Risk management
    RiskExposureExceeded,
    CreditExposureExceeded,
    DurationRiskExceeded,
}

} // verus!
