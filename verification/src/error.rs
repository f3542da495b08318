use vstd::prelude::*;

verus! {

/// Why an operation of the engine was refused. Every refusal leaves the
/// state exactly as it was.
#[derive(Clone, Copy, Debug, PartialEq, Eq, Structural)]
pub enum TokenError {
    InsufficientBalance,
    InsufficientAllowance,
    Unauthorized,
    ExpiredAllowance,
    ContractPaused,
    RateLimitExceeded,
    InvalidAmount,
}

} // verus!
