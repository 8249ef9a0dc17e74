//! Transfer authorization and execution core of a stablecoin bridging service.
//!
//! A transfer request is accepted only when a signature proof, carried by the
//! operation that precedes it in the same batch, covers exactly the parameters
//! of the request. The core computes the fee, enforces the configured limits,
//! moves the funds of the request as one all-or-nothing step, hands the net
//! amount to the bridging protocol and records the transfer.

pub mod admin;
pub mod bytes;
pub mod cctp;
pub mod ed25519;
pub mod errors;
pub mod events;
pub mod fee;
pub mod ledger;
pub mod state;
pub mod transfer;
