//! The record of a transfer.

use vstd::prelude::*;
use crate::state::Pubkey;

verus! {

/// The tag that records of this protocol version carry in place of a bridge
/// nonce.
pub const CCTP_V2_NONCE_TAG: i64 = -2;

/// What is published of a transfer once it has been made.
#[derive(Clone, Copy, Debug, PartialEq, Eq)]
pub struct TransferEvent {
    pub destination_domain: u32,
    /// The number of this transfer: the nonce of the service after it.
    pub nonce: u64,
    pub recipient: [u8; 32],
    /// The identity from which the transfer originates.
    pub solana_owner: [u8; 32],
    /// The requester.
    pub user: Pubkey,
    /// The net amount handed to the bridge.
    pub amount: u64,
    pub gas_drop_amount: u64,
    pub cctp_nonce: i64,
    pub fee_is_native: bool,
    /// The account that holds the message of the bridge.
    pub cctp_message: Pubkey,
}

} // verus!
