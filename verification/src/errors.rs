//! Reasons for which an instruction is rejected.

use vstd::prelude::*;

verus! {

/// Why the engine refused an instruction.
///
/// Every rejection happens before any state is changed.
#[derive(Clone, Copy, Debug, PartialEq, Eq, Structural)]
pub enum StablecoinError {
    /// Invalid collateral ratio specified.
    InvalidCollateralRatio,
    /// Collateral ratio below minimum required.
    CollateralRatioTooLow,
    /// The USDC Mint is incorrect.
    InvalidUSDCMint,
    /// Invalid fee rate specified.
    InvalidFeeRate,
    /// Factory is already initialized.
    FactoryAlreadyInitialized,
    /// Factory is currently paused.
    FactoryPaused,
    /// Invalid admin authority.
    InvalidAdminAuthority,
    /// Operation exceeds maximum allowed value.
    ExceedsMaximumValue,
    /// Unauthorized access.
    Unauthorized,
    /// Invalid stablecoin name length.
    InvalidNameLength,
    /// Invalid payout account.
    InvalidPayoutAccount,
    /// No collateral to collect from.
    NoCollateralToCollectFrom,
    /// Failed to deserialize payout.
    PayoutDeserializationError,
    /// Yield collect is too frequent.
    YieldCollectionTooFrequent,
    /// Invalid stablecoin symbol length.
    InvalidSymbolLength,
    /// Does not meet requirements.
    StaleError,
    /// Stablecoin is already paused.
    AlreadyPaused,
    /// Stablecoin is not paused.
    NotPaused,
    /// Bond mint mismatch.
    BondMintMismatch,
    /// Rebase is too early.
    RebaseTooEarly,
    /// Maximum number of stablecoins reached.
    MaxStablecoinsReached,
    /// Invalid oracle configuration.
    InvalidOracleConfig,
    /// Oracle price is too stale.
    StaleOraclePrice,
    /// Oracle price is not valid.
    InvalidOraclePrice,
    /// Oracle confidence is too low.
    LowOracleConfidence,
    /// Invalid target currency.
    InvalidTargetCurrency,
    /// Insufficient collateral provided.
    InsufficientCollateral,
    /// Invalid symbol format.
    InvalidSymbolFormat,
    /// Collateral ratio exceeds maximum allowed.
    CollateralRatioTooHigh,
    /// PDA bump not found.
    BumpNotFound,
    /// Math overflow occurred.
    MathOverflow,
    /// Invalid oracle staleness configuration.
    InvalidOracleStaleness,
    /// Invalid oracle confidence interval.
    InvalidOracleConfidence,
    /// Invalid oracle update count.
    InvalidOracleUpdateCount,
    /// Invalid price deviation threshold.
    InvalidPriceDeviation,
    /// Insufficient oracle updates.
    InsufficientOracleUpdates,
    /// Price deviation exceeds maximum allowed.
    ExcessivePriceDeviation,
    /// Invalid KYC account.
    InvalidKycAccount,
    /// Fee is too large.
    FeeTooLarge,
    /// Maximum amount of users reached.
    TooManyUsers,
    /// Dividing by zero is not allowed.
    DivideByZero,
    /// The timestamp is invalid.
    InvalidTimestamp,
    /// No oracle account identified.
    MissingOracleAccount,
    /// Not enough stablecoins.
    InsufficientStablecoinBalance,
    /// Stablecoin paused.
    StablecoinPaused,
    /// Redeem amount is too small.
    RedeemAmountTooSmall,
    /// User has insufficient share.
    InsufficientUserShare,
    /// TUser share was not found.
    UserShareNotFound,
    /// Invalid mint amount.
    InvalidMintAmount,
    /// Invalid price.
    InvalidPrice,
    /// No yield to distribute.
    NoYieldToDistribute,
    /// No user position.
    NoUserPosition,
    /// No total supply.
    NoTotalSupply,
    /// Excessive slippage.
    ExcessiveSlippage,
    /// Supply cap exceeded.
    SupplyCapExceeded,
    /// Bond is not supported.
    UnsupportedBond,
    /// Only admin can perform this action.
    UnauthorizedAdmin,
    /// Only authority can perform this action.
    UnauthorizedAccess,
    /// Maximum number of supported bonds reached.
    TooManyBonds,
    /// Not the owner of token account.
    InvalidTokenAccountOwner,
    /// Bond is invalid.
    InvalidBondMint,
    /// Bond is already supported.
    BondAlreadyExists,
    /// Yield collector already exists.
    CollectorAlreadyExists,
    /// Yield collectors has reached limit.
    MaxCollectorsReached,
    /// Invalid bond account.
    InvalidBondAccount,
    /// Invalid payment feed.
    InvalidPaymentFeed,
    /// Bond is currently disabled.
    BondDisabled,
    /// Bond has active collateral and cannot be removed.
    ActiveCollateralExists,
    /// Bond not found.
    BondNotFound,
    /// Deposit amount below minimum required.
    DepositTooSmall,
    /// Name is invalid.
    InvalidName,
    /// Symbol is invalid.
    InvalidSymbol,
}

impl StablecoinError {
    /// The message that goes with this error.
    pub fn message(&self) -> (r: &'static str)
        ensures
            r@ == self.message_text(),
    {
        match self {
            StablecoinError::InvalidCollateralRatio => "Invalid collateral ratio specified",
            StablecoinError::CollateralRatioTooLow => "Collateral ratio below minimum required",
            StablecoinError::InvalidUSDCMint => "The USDC Mint is incorrect",
            StablecoinError::InvalidFeeRate => "Invalid fee rate specified",
            StablecoinError::FactoryAlreadyInitialized => "Factory is already initialized",
            StablecoinError::FactoryPaused => "Factory is currently paused",
            StablecoinError::InvalidAdminAuthority => "Invalid admin authority",
            StablecoinError::ExceedsMaximumValue => "Operation exceeds maximum allowed value",
            StablecoinError::Unauthorized => "Unauthorized access",
            StablecoinError::InvalidNameLength => "Invalid stablecoin name length",
            StablecoinError::InvalidPayoutAccount => "Invalid payout account",
            StablecoinError::NoCollateralToCollectFrom => "No collateral to collect from",
            StablecoinError::PayoutDeserializationError => "Failed to deserialize payout",
            StablecoinError::YieldCollectionTooFrequent => "Yield collect is too frequent",
            StablecoinError::InvalidSymbolLength => "Invalid stablecoin symbol length",
            StablecoinError::StaleError => "Does not meet requirements",
            StablecoinError::AlreadyPaused => "Stablecoin is already paused",
            StablecoinError::NotPaused => "Stablecoin is not paused",
            StablecoinError::BondMintMismatch => "Bond mint mismatch",
            StablecoinError::RebaseTooEarly => "Rebase is too early",
            StablecoinError::MaxStablecoinsReached => "Maximum number of stablecoins reached",
            StablecoinError::InvalidOracleConfig => "Invalid oracle configuration",
            StablecoinError::StaleOraclePrice => "Oracle price is too stale",
            StablecoinError::InvalidOraclePrice => "Oracle price is not valid",
            StablecoinError::LowOracleConfidence => "Oracle confidence is too low",
            StablecoinError::InvalidTargetCurrency => "Invalid target currency",
            StablecoinError::InsufficientCollateral => "Insufficient collateral provided",
            StablecoinError::InvalidSymbolFormat => "Invalid symbol format",
            StablecoinError::CollateralRatioTooHigh => "Collateral ratio exceeds maximum allowed",
            StablecoinError::BumpNotFound => "PDA bump not found",
            StablecoinError::MathOverflow => "Math overflow occurred",
            StablecoinError::InvalidOracleStaleness => "Invalid oracle staleness configuration",
            StablecoinError::InvalidOracleConfidence => "Invalid oracle confidence interval",
            StablecoinError::InvalidOracleUpdateCount => "Invalid oracle update count",
            StablecoinError::InvalidPriceDeviation => "Invalid price deviation threshold",
            StablecoinError::InsufficientOracleUpdates => "Insufficient oracle updates",
            StablecoinError::ExcessivePriceDeviation => "Price deviation exceeds maximum allowed",
            StablecoinError::InvalidKycAccount => "Invalid KYC account",
            StablecoinError::FeeTooLarge => "Fee is too large",
            StablecoinError::TooManyUsers => "Maximum amount of users reached",
            StablecoinError::DivideByZero => "Dividing by zero is not allowed",
            StablecoinError::InvalidTimestamp => "The timestamp is invalid",
            StablecoinError::MissingOracleAccount => "No oracle account identified",
            StablecoinError::InsufficientStablecoinBalance => "Not enough stablecoins",
            StablecoinError::StablecoinPaused => "Stablecoin paused",
            StablecoinError::RedeemAmountTooSmall => "Redeem amount is too small",
            StablecoinError::InsufficientUserShare => "User has insufficient share",
            StablecoinError::UserShareNotFound => "TUser share was not found",
            StablecoinError::InvalidMintAmount => "Invalid mint amount",
            StablecoinError::InvalidPrice => "Invalid price",
            StablecoinError::NoYieldToDistribute => "No yield to distribute",
            StablecoinError::NoUserPosition => "No user position",
            StablecoinError::NoTotalSupply => "No total supply",
            StablecoinError::ExcessiveSlippage => "Excessive slippage",
            StablecoinError::SupplyCapExceeded => "Supply cap exceeded",
            StablecoinError::UnsupportedBond => "Bond is not supported",
            StablecoinError::UnauthorizedAdmin => "Only admin can perform this action",
            StablecoinError::UnauthorizedAccess => "Only authority can perform this action",
            StablecoinError::TooManyBonds => "Maximum number of supported bonds reached",
            StablecoinError::InvalidTokenAccountOwner => "Not the owner of token account",
            StablecoinError::InvalidBondMint => "Bond is invalid",
            StablecoinError::BondAlreadyExists => "Bond is already supported",
            StablecoinError::CollectorAlreadyExists => "Yield collector already exists",
            StablecoinError::MaxCollectorsReached => "Yield collectors has reached limit",
            StablecoinError::InvalidBondAccount => "Invalid bond account",
            StablecoinError::InvalidPaymentFeed => "Invalid payment feed",
            StablecoinError::BondDisabled => "Bond is currently disabled",
            StablecoinError::ActiveCollateralExists => "Bond has active collateral and cannot be removed",
            StablecoinError::BondNotFound => "Bond not found",
            StablecoinError::DepositTooSmall => "Deposit amount below minimum required",
            StablecoinError::InvalidName => "Name is invalid",
            StablecoinError::InvalidSymbol => "Symbol is invalid",
        }
    }

    /// The text of the message that goes with this error.
    pub open spec fn message_text(&self) -> Seq<char> {
        match self {
            StablecoinError::InvalidCollateralRatio => "Invalid collateral ratio specified"@,
            StablecoinError::CollateralRatioTooLow => "Collateral ratio below minimum required"@,
            StablecoinError::InvalidUSDCMint => "The USDC Mint is incorrect"@,
            StablecoinError::InvalidFeeRate => "Invalid fee rate specified"@,
            StablecoinError::FactoryAlreadyInitialized => "Factory is already initialized"@,
            StablecoinError::FactoryPaused => "Factory is currently paused"@,
            StablecoinError::InvalidAdminAuthority => "Invalid admin authority"@,
            StablecoinError::ExceedsMaximumValue => "Operation exceeds maximum allowed value"@,
            StablecoinError::Unauthorized => "Unauthorized access"@,
            StablecoinError::InvalidNameLength => "Invalid stablecoin name length"@,
            StablecoinError::InvalidPayoutAccount => "Invalid payout account"@,
            StablecoinError::NoCollateralToCollectFrom => "No collateral to collect from"@,
            StablecoinError::PayoutDeserializationError => "Failed to deserialize payout"@,
            StablecoinError::YieldCollectionTooFrequent => "Yield collect is too frequent"@,
            StablecoinError::InvalidSymbolLength => "Invalid stablecoin symbol length"@,
            StablecoinError::StaleError => "Does not meet requirements"@,
            StablecoinError::AlreadyPaused => "Stablecoin is already paused"@,
            StablecoinError::NotPaused => "Stablecoin is not paused"@,
            StablecoinError::BondMintMismatch => "Bond mint mismatch"@,
            StablecoinError::RebaseTooEarly => "Rebase is too early"@,
            StablecoinError::MaxStablecoinsReached => "Maximum number of stablecoins reached"@,
            StablecoinError::InvalidOracleConfig => "Invalid oracle configuration"@,
            StablecoinError::StaleOraclePrice => "Oracle price is too stale"@,
            StablecoinError::InvalidOraclePrice => "Oracle price is not valid"@,
            StablecoinError::LowOracleConfidence => "Oracle confidence is too low"@,
            StablecoinError::InvalidTargetCurrency => "Invalid target currency"@,
            StablecoinError::InsufficientCollateral => "Insufficient collateral provided"@,
            StablecoinError::InvalidSymbolFormat => "Invalid symbol format"@,
            StablecoinError::CollateralRatioTooHigh => "Collateral ratio exceeds maximum allowed"@,
            StablecoinError::BumpNotFound => "PDA bump not found"@,
            StablecoinError::MathOverflow => "Math overflow occurred"@,
            StablecoinError::InvalidOracleStaleness => "Invalid oracle staleness configuration"@,
            StablecoinError::InvalidOracleConfidence => "Invalid oracle confidence interval"@,
            StablecoinError::InvalidOracleUpdateCount => "Invalid oracle update count"@,
            StablecoinError::InvalidPriceDeviation => "Invalid price deviation threshold"@,
            StablecoinError::InsufficientOracleUpdates => "Insufficient oracle updates"@,
            StablecoinError::ExcessivePriceDeviation => "Price deviation exceeds maximum allowed"@,
            StablecoinError::InvalidKycAccount => "Invalid KYC account"@,
            StablecoinError::FeeTooLarge => "Fee is too large"@,
            StablecoinError::TooManyUsers => "Maximum amount of users reached"@,
            StablecoinError::DivideByZero => "Dividing by zero is not allowed"@,
            StablecoinError::InvalidTimestamp => "The timestamp is invalid"@,
            StablecoinError::MissingOracleAccount => "No oracle account identified"@,
            StablecoinError::InsufficientStablecoinBalance => "Not enough stablecoins"@,
            StablecoinError::StablecoinPaused => "Stablecoin paused"@,
            StablecoinError::RedeemAmountTooSmall => "Redeem amount is too small"@,
            StablecoinError::InsufficientUserShare => "User has insufficient share"@,
            StablecoinError::UserShareNotFound => "TUser share was not found"@,
            StablecoinError::InvalidMintAmount => "Invalid mint amount"@,
            StablecoinError::InvalidPrice => "Invalid price"@,
            StablecoinError::NoYieldToDistribute => "No yield to distribute"@,
            StablecoinError::NoUserPosition => "No user position"@,
            StablecoinError::NoTotalSupply => "No total supply"@,
            StablecoinError::ExcessiveSlippage => "Excessive slippage"@,
            StablecoinError::SupplyCapExceeded => "Supply cap exceeded"@,
            StablecoinError::UnsupportedBond => "Bond is not supported"@,
            StablecoinError::UnauthorizedAdmin => "Only admin can perform this action"@,
            StablecoinError::UnauthorizedAccess => "Only authority can perform this action"@,
            StablecoinError::TooManyBonds => "Maximum number of supported bonds reached"@,
            StablecoinError::InvalidTokenAccountOwner => "Not the owner of token account"@,
            StablecoinError::InvalidBondMint => "Bond is invalid"@,
            StablecoinError::BondAlreadyExists => "Bond is already supported"@,
            StablecoinError::CollectorAlreadyExists => "Yield collector already exists"@,
            StablecoinError::MaxCollectorsReached => "Yield collectors has reached limit"@,
            StablecoinError::InvalidBondAccount => "Invalid bond account"@,
            StablecoinError::InvalidPaymentFeed => "Invalid payment feed"@,
            StablecoinError::BondDisabled => "Bond is currently disabled"@,
            StablecoinError::ActiveCollateralExists => "Bond has active collateral and cannot be removed"@,
            StablecoinError::BondNotFound => "Bond not found"@,
            StablecoinError::DepositTooSmall => "Deposit amount below minimum required"@,
            StablecoinError::InvalidName => "Name is invalid"@,
            StablecoinError::InvalidSymbol => "Symbol is invalid"@,
        }
    }
}

/// Why an instruction failed: a rule of the engine was broken, or the data of
/// an account of the bond program could not be read as the record it should hold.
#[derive(Clone, Copy, Debug, PartialEq, Eq, Structural)]
pub enum InstructionError {
    /// A rule of the engine was broken.
    Rule(StablecoinError),
    /// The bytes of a bond or payment feed account do not decode.
    AccountData,
}

} // verus!
