use crate::dynamic_fee::DynamicFeeError;
use anchor_lang::prelude::ProgramError;
use vstd::prelude::*;

verus! {

/// Why a pool operation was refused.
#[derive(Clone, Copy, Debug, PartialEq, Eq, Structural)]
pub enum AmmError {
    DefaultError,
    OfferExpired,
    PoolLocked,
    SlippageExceeded,
    Overflow,
    Underflow,
    InvalidToken,
    LiquidityLessThanMinimum,
    NoLiquidityInPool,
    BumpError,
    CurveError,
    InvalidFee,
    InvalidAuthority,
    NoAuthoritySet,
    InvalidAmount,
    TransferHookNotFound,
    TransferFeeNotFound,
    IdenticalMints,
    InvalidTokenProgram,
    UnsupportedExtension,
    MathOverflow,
    InsufficientFunds,
}

impl AmmError {
    /// The message shown to a caller for this error.
    pub fn message(&self) -> (text: &'static str)
        ensures
            text@ == self.spec_message(),
    {
        match self {
            AmmError::DefaultError => "DefaultError",
            AmmError::OfferExpired => "Offer expired.",
            AmmError::PoolLocked => "This pool is locked.",
            AmmError::SlippageExceeded => "Slippage exceeded.",
            AmmError::Overflow => "Overflow detected.",
            AmmError::Underflow => "Underflow detected.",
            AmmError::InvalidToken => "Invalid token.",
            AmmError::LiquidityLessThanMinimum => "Actual liquidity is less than minimum.",
            AmmError::NoLiquidityInPool => "No liquidity in pool.",
            AmmError::BumpError => "Bump error.",
            AmmError::CurveError => "Curve error.",
            AmmError::InvalidFee => "Fee is greater than 100%. This is not a very good deal.",
            AmmError::InvalidAuthority => "Invalid update authority.",
            AmmError::NoAuthoritySet => "No update authority set.",
            AmmError::InvalidAmount => "Invalid amount.",
            AmmError::TransferHookNotFound => "Transfer hook extension not found.",
            AmmError::TransferFeeNotFound => "Transfer fee extension not found.",
            AmmError::IdenticalMints => "Identical mints not allowed",
            AmmError::InvalidTokenProgram => "Invalid token program",
            AmmError::UnsupportedExtension => "Unsupported token extension",
            AmmError::MathOverflow => "Math Overflow",
            AmmError::InsufficientFunds => "Insufficient funds",
        }
    }

    /// The characters of [`AmmError::message`].
    pub open spec fn spec_message(&self) -> Seq<char> {
        match self {
            AmmError::DefaultError => "DefaultError"@,
            AmmError::OfferExpired => "Offer expired."@,
            AmmError::PoolLocked => "This pool is locked."@,
            AmmError::SlippageExceeded => "Slippage exceeded."@,
            AmmError::Overflow => "Overflow detected."@,
            AmmError::Underflow => "Underflow detected."@,
            AmmError::InvalidToken => "Invalid token."@,
            AmmError::LiquidityLessThanMinimum => "Actual liquidity is less than minimum."@,
            AmmError::NoLiquidityInPool => "No liquidity in pool."@,
            AmmError::BumpError => "Bump error."@,
            AmmError::CurveError => "Curve error."@,
            AmmError::InvalidFee => "Fee is greater than 100%. This is not a very good deal."@,
            AmmError::InvalidAuthority => "Invalid update authority."@,
            AmmError::NoAuthoritySet => "No update authority set."@,
            AmmError::InvalidAmount => "Invalid amount."@,
            AmmError::TransferHookNotFound => "Transfer hook extension not found."@,
            AmmError::TransferFeeNotFound => "Transfer fee extension not found."@,
            AmmError::IdenticalMints => "Identical mints not allowed"@,
            AmmError::InvalidTokenProgram => "Invalid token program"@,
            AmmError::UnsupportedExtension => "Unsupported token extension"@,
            AmmError::MathOverflow => "Math Overflow"@,
            AmmError::InsufficientFunds => "Insufficient funds"@,
        }
    }
}

/// Why an operation failed.
#[derive(Debug, PartialEq)]
pub enum Error {
    /// A rule of the pool refused it.
    Amm(AmmError),
    /// The fee controller refused it.
    DynamicFee(DynamicFeeError),
    /// The program asked to read an account's or an instruction's bytes reported an error.
    Program(ProgramError),
    /// The instruction is none that the fee controller runs.
    InvalidInstructionData,
    /// The text of a well-known address stands for no address.
    InvalidAddress,
}

/// Whether `result` is the outcome that `expected` stands for: the same value, the same
/// refusal by a rule of the pool, or, for `Err(None)`, the error of the program that could
/// not read a token type's account.
pub open spec fn outcome_is<T>(result: Result<T, Error>, expected: Result<T, Option<AmmError>>) -> bool {
    match expected {
        Ok(value) => result == Ok::<T, Error>(value),
        Err(Some(e)) => result == Err::<T, Error>(Error::Amm(e)),
        Err(None) => result matches Err(Error::Program(_)),
    }
}

} // verus!
