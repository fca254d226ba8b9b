use vstd::prelude::*;

verus! {

/// Why an operation on a fund was refused. Every refusal leaves all state as it was.
#[derive(Clone, Copy, Debug, PartialEq, Eq, Structural)]
pub enum FundError {
    /// A fee setting is above its policy maximum.
    InvalidFee,
    /// A holding or a position is smaller than the operation needs.
    InsufficientFunds,
    /// A quantity is zero or above what the operation allows.
    InvalidAmount,
    /// A share count is zero, or a batch holds no shares.
    InvalidShares,
    /// An asset is not the one the operation expects.
    InvalidMint,
    /// A checked addition, subtraction or narrowing would leave its range.
    MathOverflow,
    /// A swap delivered less than its guaranteed minimum.
    SlippageExceeded,
    /// The withdrawal record is not in a state that allows the operation.
    InvalidWithdrawalStatus,
    /// Arguments that are malformed or belong to another fund, investor or asset.
    InvalidInput,
    /// The forwarded external call itself failed.
    InvocationFailed,
}

/// Why a direct lamport movement out of a fund was refused.
#[derive(Clone, Copy, Debug, PartialEq, Eq, Structural)]
pub enum ErrorCode {
    /// The source holds fewer lamports than the amount.
    InsufficientFunds,
    /// The destination balance would overflow.
    MathOverflow,
}

} // verus!
