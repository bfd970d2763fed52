//! The program's account, its events and its errors.

use vstd::prelude::*;

use crate::key::Key;

verus! {

/// The single configuration account of the program: who owns it, what a
/// service costs, in which token it is paid and where the payment goes.
#[derive(Clone, Copy, Debug)]
pub struct BaseAccount {
    pub owner: Key,
    pub pimping_fee: u64,
    pub fee_receiver: Key,
    pub fee_token: Key,
    pub bump: u8,
}

/// Emitted when a paid order for an NFT profile picture is placed.
#[derive(Clone, Copy, Debug)]
pub struct OrderPlaced {
    pub user: Key,
    pub nft_address: Key,
    pub is_nft: bool,
}

/// Emitted when a paid order for a plain picture is placed.
#[derive(Clone, Copy, Debug)]
pub struct JpegOrderPlaced {
    pub user: Key,
    pub is_nft: bool,
}

/// Emitted to report the configuration held by the base account.
#[derive(Clone, Copy, Debug)]
pub struct BaseAccountInfo {
    pub base_account: Key,
    pub pimping_fee: u64,
    pub fee_token: Key,
    pub fee_receiver: Key,
}

/// The program's own error codes.
#[derive(Clone, Copy, Debug, PartialEq, Eq, Structural)]
pub enum ErrorCode {
    Unauthorized,
    InsufficientFunds,
    Overflow,
}

impl ErrorCode {
    /// The variant's name.
    pub fn name(&self) -> (s: &'static str)
        ensures
            *self == ErrorCode::Unauthorized ==> s@ == "Unauthorized"@,
            *self == ErrorCode::InsufficientFunds ==> s@ == "InsufficientFunds"@,
            *self == ErrorCode::Overflow ==> s@ == "Overflow"@,
    {
        proof {
            reveal_strlit("Unauthorized");
            reveal_strlit("InsufficientFunds");
            reveal_strlit("Overflow");
        }
        match self {
            ErrorCode::Unauthorized => "Unauthorized",
            ErrorCode::InsufficientFunds => "InsufficientFunds",
            ErrorCode::Overflow => "Overflow",
        }
    }

    /// The message reported for the error: the text given for
    /// `Unauthorized`, the variant's name for the others.
    pub fn message(&self) -> (s: &'static str)
        ensures
            *self == ErrorCode::Unauthorized ==> s@ == "You are not authorized to perform this action."@,
            *self == ErrorCode::InsufficientFunds ==> s@ == "InsufficientFunds"@,
            *self == ErrorCode::Overflow ==> s@ == "Overflow"@,
    {
        proof {
            reveal_strlit("You are not authorized to perform this action.");
            reveal_strlit("InsufficientFunds");
            reveal_strlit("Overflow");
        }
        match self {
            ErrorCode::Unauthorized => "You are not authorized to perform this action.",
            ErrorCode::InsufficientFunds => "InsufficientFunds",
            ErrorCode::Overflow => "Overflow",
        }
    }
}

/// Why a request was turned down.
#[derive(Clone, Copy, Debug, PartialEq, Eq, Structural)]
pub enum Refusal {
    /// The signer is not the owner recorded in the base account.
    NotAuthorized,
    /// The fee token account given does not match the recorded fee token.
    InvalidFeeToken,
    /// The token account to be paid is not the recorded fee receiver.
    InvalidPaymentReceiver,
    /// The token program given is not the SPL token program.
    IncorrectProgramId,
    /// One of the program's own error codes.
    Program(ErrorCode),
}

impl Refusal {
    /// The text the program reports when it turns a request down.
    pub fn message(&self) -> (s: &'static str)
        ensures
            *self == Refusal::NotAuthorized ==> s@ == "Not authorized"@,
            *self == Refusal::InvalidFeeToken ==> s@ == "invalid fee token"@,
            *self == Refusal::InvalidPaymentReceiver ==> s@ == "Not valid payment reciever"@,
            *self == Refusal::IncorrectProgramId ==> s@ == "The account did not have the expected program id"@,
            *self == Refusal::Program(ErrorCode::Unauthorized) ==> s@ == "You are not authorized to perform this action."@,
            *self == Refusal::Program(ErrorCode::InsufficientFunds) ==> s@ == "InsufficientFunds"@,
            *self == Refusal::Program(ErrorCode::Overflow) ==> s@ == "Overflow"@,
    {
        proof {
            reveal_strlit("Not authorized");
            reveal_strlit("invalid fee token");
            reveal_strlit("Not valid payment reciever");
            reveal_strlit("The account did not have the expected program id");
        }
        match self {
            Refusal::NotAuthorized => "Not authorized",
            Refusal::InvalidFeeToken => "invalid fee token",
            Refusal::InvalidPaymentReceiver => "Not valid payment reciever",
            Refusal::IncorrectProgramId => "The account did not have the expected program id",
            Refusal::Program(code) => code.message(),
        }
    }
}

} // verus!
