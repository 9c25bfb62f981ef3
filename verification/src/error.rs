//! The failure conditions of the engine.  Every error aborts the whole
//! instruction; the only non-error negative outcome is a venue reporting
//! itself ineligible, which is signalled as an empty quote, not as an error.
use vstd::prelude::*;

verus! {

/// Why an instruction was rejected.  The first block mirrors the engine's own
/// custom conditions; the last four stand for conditions the host runtime
/// reports itself (arithmetic overflow, malformed sysvar or account payloads,
/// a short account list, an underivable address).
#[derive(Clone, Copy, PartialEq, Eq, Structural, Debug)]
pub enum Error {
    IntermediaryInvalidAuthority,
    IntermediaryInvalidManager,
    IntermediaryInvalidTemporaryWSolTokenAccount,
    IntermediaryInvalidTrader,
    IntermediaryInvalidWSolTokenAccount,
    IntermediaryIsNotInitialized,
    InvalidAccountConfigurationFlags,
    InvalidAccountData,
    InvalidAccountLamports,
    InvalidAccountPubkey,
    InvalidLogic,
    NotImplemented,
    RepeatableDex,
    EqualMints,
    ZeroAmountIn,
    ZeroDexesPresented,
    InvalidSwapConditions,
    InvalidTokenMint,
    TokenAccountInsufficientAmount,
    TokenAccountInvalidAmount,
    ExpectedAccount,
    InvalidOpenOrders,
    InvalidMarket,
    InvalidOwner,
    InvalidStatus,
    InvalidAmmAccountOwner,
    CheckedSubOverflow,
    CheckedAddOverflow,
    InvalidSplTokenProgram,
    InvalidUserToken,
    InvalidFee,
    WrongEventQueueAccount,
    ArithmeticOverflow,
    InvalidArgument,
    NotEnoughAccountKeys,
    InvalidSeeds,
}

/// [`Error::custom_code`] as a value.
pub open spec fn spec_custom_code(e: Error) -> Option<u32> {
    match e {
        Error::IntermediaryInvalidAuthority => Some(0u32),
        Error::IntermediaryInvalidManager => Some(1u32),
        Error::IntermediaryInvalidTemporaryWSolTokenAccount => Some(2u32),
        Error::IntermediaryInvalidTrader => Some(3u32),
        Error::IntermediaryInvalidWSolTokenAccount => Some(4u32),
        Error::IntermediaryIsNotInitialized => Some(5u32),
        Error::InvalidAccountConfigurationFlags => Some(6u32),
        Error::InvalidAccountData => Some(7u32),
        Error::InvalidAccountLamports => Some(8u32),
        Error::InvalidAccountPubkey => Some(9u32),
        Error::InvalidLogic => Some(10u32),
        Error::NotImplemented => Some(11u32),
        Error::RepeatableDex => Some(12u32),
        Error::EqualMints => Some(13u32),
        Error::ZeroAmountIn => Some(14u32),
        Error::ZeroDexesPresented => Some(15u32),
        Error::InvalidSwapConditions => Some(16u32),
        Error::InvalidTokenMint => Some(17u32),
        Error::TokenAccountInsufficientAmount => Some(18u32),
        Error::TokenAccountInvalidAmount => Some(19u32),
        Error::ExpectedAccount => Some(20u32),
        Error::InvalidOpenOrders => Some(21u32),
        Error::InvalidMarket => Some(22u32),
        Error::InvalidOwner => Some(23u32),
        Error::InvalidStatus => Some(24u32),
        Error::InvalidAmmAccountOwner => Some(25u32),
        Error::CheckedSubOverflow => Some(26u32),
        Error::CheckedAddOverflow => Some(27u32),
        Error::InvalidSplTokenProgram => Some(28u32),
        Error::InvalidUserToken => Some(29u32),
        Error::InvalidFee => Some(30u32),
        Error::WrongEventQueueAccount => Some(31u32),
        Error::ArithmeticOverflow => None,
        Error::InvalidArgument => None,
        Error::NotEnoughAccountKeys => None,
        Error::InvalidSeeds => None,
    }
}

/// [`Error::to_str`] as a value: each condition's own name.
pub open spec fn spec_error_name(e: Error) -> Seq<char> {
    match e {
        Error::IntermediaryInvalidAuthority => "IntermediaryInvalidAuthority"@,
        Error::IntermediaryInvalidManager => "IntermediaryInvalidManager"@,
        Error::IntermediaryInvalidTemporaryWSolTokenAccount => "IntermediaryInvalidTemporaryWSolTokenAccount"@,
        Error::IntermediaryInvalidTrader => "IntermediaryInvalidTrader"@,
        Error::IntermediaryInvalidWSolTokenAccount => "IntermediaryInvalidWSolTokenAccount"@,
        Error::IntermediaryIsNotInitialized => "IntermediaryIsNotInitialized"@,
        Error::InvalidAccountConfigurationFlags => "InvalidAccountConfigurationFlags"@,
        Error::InvalidAccountData => "InvalidAccountData"@,
        Error::InvalidAccountLamports => "InvalidAccountLamports"@,
        Error::InvalidAccountPubkey => "InvalidAccountPubkey"@,
        Error::InvalidLogic => "InvalidLogic"@,
        Error::NotImplemented => "NotImplemented"@,
        Error::RepeatableDex => "RepeatableDex"@,
        Error::EqualMints => "EqualMints"@,
        Error::ZeroAmountIn => "ZeroAmountIn"@,
        Error::ZeroDexesPresented => "ZeroDexesPresented"@,
        Error::InvalidSwapConditions => "InvalidSwapConditions"@,
        Error::InvalidTokenMint => "InvalidTokenMint"@,
        Error::TokenAccountInsufficientAmount => "TokenAccountInsufficientAmount"@,
        Error::TokenAccountInvalidAmount => "TokenAccountInvalidAmount"@,
        Error::ExpectedAccount => "ExpectedAccount"@,
        Error::InvalidOpenOrders => "InvalidOpenOrders"@,
        Error::InvalidMarket => "InvalidMarket"@,
        Error::InvalidOwner => "InvalidOwner"@,
        Error::InvalidStatus => "InvalidStatus"@,
        Error::InvalidAmmAccountOwner => "InvalidAmmAccountOwner"@,
        Error::CheckedSubOverflow => "CheckedSubOverflow"@,
        Error::CheckedAddOverflow => "CheckedAddOverflow"@,
        Error::InvalidSplTokenProgram => "InvalidSplTokenProgram"@,
        Error::InvalidUserToken => "InvalidUserToken"@,
        Error::InvalidFee => "InvalidFee"@,
        Error::WrongEventQueueAccount => "WrongEventQueueAccount"@,
        Error::ArithmeticOverflow => "ArithmeticOverflow"@,
        Error::InvalidArgument => "InvalidArgument"@,
        Error::NotEnoughAccountKeys => "NotEnoughAccountKeys"@,
        Error::InvalidSeeds => "InvalidSeeds"@,
    }
}

impl Error {
    /// The numeric code under which the engine's own conditions are reported.
    /// The four host-level conditions have no custom code and return `None`;
    /// the embedding maps them to the runtime's native error values.
    pub fn custom_code(&self) -> (r: Option<u32>)
        ensures
            r == spec_custom_code(*self),
    {
        match *self {
            Error::IntermediaryInvalidAuthority => Some(0u32),
            Error::IntermediaryInvalidManager => Some(1u32),
            Error::IntermediaryInvalidTemporaryWSolTokenAccount => Some(2u32),
            Error::IntermediaryInvalidTrader => Some(3u32),
            Error::IntermediaryInvalidWSolTokenAccount => Some(4u32),
            Error::IntermediaryIsNotInitialized => Some(5u32),
            Error::InvalidAccountConfigurationFlags => Some(6u32),
            Error::InvalidAccountData => Some(7u32),
            Error::InvalidAccountLamports => Some(8u32),
            Error::InvalidAccountPubkey => Some(9u32),
            Error::InvalidLogic => Some(10u32),
            Error::NotImplemented => Some(11u32),
            Error::RepeatableDex => Some(12u32),
            Error::EqualMints => Some(13u32),
            Error::ZeroAmountIn => Some(14u32),
            Error::ZeroDexesPresented => Some(15u32),
            Error::InvalidSwapConditions => Some(16u32),
            Error::InvalidTokenMint => Some(17u32),
            Error::TokenAccountInsufficientAmount => Some(18u32),
            Error::TokenAccountInvalidAmount => Some(19u32),
            Error::ExpectedAccount => Some(20u32),
            Error::InvalidOpenOrders => Some(21u32),
            Error::InvalidMarket => Some(22u32),
            Error::InvalidOwner => Some(23u32),
            Error::InvalidStatus => Some(24u32),
            Error::InvalidAmmAccountOwner => Some(25u32),
            Error::CheckedSubOverflow => Some(26u32),
            Error::CheckedAddOverflow => Some(27u32),
            Error::InvalidSplTokenProgram => Some(28u32),
            Error::InvalidUserToken => Some(29u32),
            Error::InvalidFee => Some(30u32),
            Error::WrongEventQueueAccount => Some(31u32),
            Error::ArithmeticOverflow => None,
            Error::InvalidArgument => None,
            Error::NotEnoughAccountKeys => None,
            Error::InvalidSeeds => None,
        }
    }

    /// The condition's name, for log lines.
    pub fn to_str(&self) -> (r: &'static str)
        ensures
            r@ == spec_error_name(*self),
    {
        match *self {
            Error::IntermediaryInvalidAuthority => "IntermediaryInvalidAuthority",
            Error::IntermediaryInvalidManager => "IntermediaryInvalidManager",
            Error::IntermediaryInvalidTemporaryWSolTokenAccount => "IntermediaryInvalidTemporaryWSolTokenAccount",
            Error::IntermediaryInvalidTrader => "IntermediaryInvalidTrader",
            Error::IntermediaryInvalidWSolTokenAccount => "IntermediaryInvalidWSolTokenAccount",
            Error::IntermediaryIsNotInitialized => "IntermediaryIsNotInitialized",
            Error::InvalidAccountConfigurationFlags => "InvalidAccountConfigurationFlags",
            Error::InvalidAccountData => "InvalidAccountData",
            Error::InvalidAccountLamports => "InvalidAccountLamports",
            Error::InvalidAccountPubkey => "InvalidAccountPubkey",
            Error::InvalidLogic => "InvalidLogic",
            Error::NotImplemented => "NotImplemented",
            Error::RepeatableDex => "RepeatableDex",
            Error::EqualMints => "EqualMints",
            Error::ZeroAmountIn => "ZeroAmountIn",
            Error::ZeroDexesPresented => "ZeroDexesPresented",
            Error::InvalidSwapConditions => "InvalidSwapConditions",
            Error::InvalidTokenMint => "InvalidTokenMint",
            Error::TokenAccountInsufficientAmount => "TokenAccountInsufficientAmount",
            Error::TokenAccountInvalidAmount => "TokenAccountInvalidAmount",
            Error::ExpectedAccount => "ExpectedAccount",
            Error::InvalidOpenOrders => "InvalidOpenOrders",
            Error::InvalidMarket => "InvalidMarket",
            Error::InvalidOwner => "InvalidOwner",
            Error::InvalidStatus => "InvalidStatus",
            Error::InvalidAmmAccountOwner => "InvalidAmmAccountOwner",
            Error::CheckedSubOverflow => "CheckedSubOverflow",
            Error::CheckedAddOverflow => "CheckedAddOverflow",
            Error::InvalidSplTokenProgram => "InvalidSplTokenProgram",
            Error::InvalidUserToken => "InvalidUserToken",
            Error::InvalidFee => "InvalidFee",
            Error::WrongEventQueueAccount => "WrongEventQueueAccount",
            Error::ArithmeticOverflow => "ArithmeticOverflow",
            Error::InvalidArgument => "InvalidArgument",
            Error::NotEnoughAccountKeys => "NotEnoughAccountKeys",
            Error::InvalidSeeds => "InvalidSeeds",
        }
    }
}

} // verus!
