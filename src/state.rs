use vstd::prelude::*;

use crate::key::Pubkey;

verus! {

/// Where an escrow stands in its life. `Active` is the only initial state; the
/// other three are terminal.
#[derive(Clone, Copy, Debug, PartialEq, Eq, Structural)]
pub enum EscrowState {
    Active,
    Completed,
    Refunded,
    Cancelled,
}

/// The ways an operation on an escrow can fail. Each leaves every record and
/// balance as it was.
#[derive(Clone, Copy, Debug, PartialEq, Eq, Structural)]
pub enum ErrorCode {
    InvalidAmount,
    InvalidState,
    Unauthorized,
    InvalidSeller,
    InsufficientFunds,
    InvalidAddress,
}

/// The sentence that describes an error.
pub open spec fn message_of(e: ErrorCode) -> Seq<char> {
    match e {
        ErrorCode::InvalidAmount => "Invalid amount: must be greater than 0"@,
        ErrorCode::InvalidState => "Invalid state: operation not allowed in current escrow state"@,
        ErrorCode::Unauthorized => "Unauthorized: only the buyer can perform this action"@,
        ErrorCode::InvalidSeller => "Invalid seller: seller address does not match escrow"@,
        ErrorCode::InsufficientFunds => "Insufficient funds: escrow does not have enough lamports"@,
        ErrorCode::InvalidAddress => "Invalid address: escrow address does not derive from its buyer"@,
    }
}

impl ErrorCode {
    /// A sentence that describes the error.
    pub fn message(&self) -> (r: &'static str)
        ensures
            r@ == message_of(*self),
    {
        match self {
            ErrorCode::InvalidAmount => "Invalid amount: must be greater than 0",
            ErrorCode::InvalidState => "Invalid state: operation not allowed in current escrow state",
            ErrorCode::Unauthorized => "Unauthorized: only the buyer can perform this action",
            ErrorCode::InvalidSeller => "Invalid seller: seller address does not match escrow",
            ErrorCode::InsufficientFunds => "Insufficient funds: escrow does not have enough lamports",
            ErrorCode::InvalidAddress => "Invalid address: escrow address does not derive from its buyer",
        }
    }
}

/// The record kept for one escrow.
#[derive(Clone, Copy, Debug, PartialEq, Eq)]
pub struct EscrowAccount {
    /// Who funded it.
    pub buyer: Pubkey,
    /// Who is paid on release.
    pub seller: Pubkey,
    /// What was moved into custody at creation.
    pub amount: u64,
    pub state: EscrowState,
    /// The bump that, with the buyer's key, derives the escrow's address.
    pub bump: u8,
}

/// An account that holds base currency.
#[derive(Clone, Copy, Debug, PartialEq, Eq)]
pub struct Wallet {
    pub key: Pubkey,
    pub lamports: u64,
}

/// An escrow as it stands in the ledger: its address, the balance held there,
/// and its record.
#[derive(Clone, Copy, Debug, PartialEq, Eq)]
pub struct EscrowVault {
    pub key: Pubkey,
    pub lamports: u64,
    pub data: EscrowAccount,
}

} // verus!
