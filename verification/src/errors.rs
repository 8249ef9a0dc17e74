//! The reasons for which the core refuses a call.

use vstd::prelude::*;

verus! {

/// A call whose parameters or caller are not acceptable.
#[derive(Clone, Copy, Debug, PartialEq, Eq, Structural)]
pub enum ParamError {
    /// The caller of an administrative call is not the owner.
    AdminUnauthorized,
    /// The fee rate is above one percent.
    FeeTooHigh,
    /// The destination domain is not below the number of domains.
    InvalidDomain,
}

/// A transfer that policy forbids.
#[derive(Clone, Copy, Debug, PartialEq, Eq, Structural)]
pub enum TransferError {
    /// The service is paused.
    Paused,
    /// The clock has passed the deadline of the request.
    DeadlineExpired,
    /// The stablecoin fee is larger than the amount sent.
    FeeExceedsAmount,
    /// The gas drop is above the ceiling that applies.
    GasDropLimitExceeded,
}

/// A signature proof that does not cover the request.
#[derive(Clone, Copy, Debug, PartialEq, Eq, Structural)]
pub enum SignatureVerificationError {
    /// The preceding operation is not a bare signature verification.
    NotSigVerified,
    /// The payload is too short to hold the offsets.
    LessDataThanExpected,
    /// The offsets do not describe the one accepted layout, or the payload
    /// ends before the key and the signature that they announce.
    InvalidSignatureData,
    /// The key of the proof is not the configured signer key.
    InvalidSignature,
    /// The message of the proof is not the serialization of the request.
    InvalidMessageData,
}

/// A failure of the ledger or of the bridging protocol.
#[derive(Clone, Copy, Debug, PartialEq, Eq, Structural)]
pub enum HostError {
    /// The batch holds no readable operation before the current one.
    InstructionUnavailable,
    /// The payer of a fund movement holds less than the amount.
    InsufficientFunds,
    /// The payee of a fund movement cannot hold the amount on top of its balance.
    BalanceOverflow,
    /// The bridging protocol refused the burn call.
    BridgeRejected,
}

/// Every reason for which a transfer is refused.
#[derive(Clone, Copy, Debug, PartialEq, Eq, Structural)]
pub enum Error {
    Param(ParamError),
    Transfer(TransferError),
    Signature(SignatureVerificationError),
    Host(HostError),
}

} // verus!
