//! The long-lived state of the service and the record decoded from a proof.

use vstd::prelude::*;

verus! {

/// An identity on the ledger: thirty-two opaque bytes.
pub type Pubkey = [u8; 32];

/// Number of destination domains. A domain is valid when it is below this.
pub const DOMAIN_COUNT: u32 = 32;

/// The domain of the ledger on which the service runs.
pub const LOCAL_DOMAIN: u32 = 5;

/// The highest fee rate, in basis points, that the owner may set.
pub const MAX_FEE_BP: u64 = 100;

/// The policy of the service. Only the owner changes it, and only a
/// successful transfer advances `nonce`.
#[derive(Clone, Copy, Debug, PartialEq, Eq)]
pub struct Config {
    /// The identity allowed to change the policy.
    pub owner: Pubkey,
    /// While set, every transfer is refused.
    pub paused: bool,
    /// Fee rate in basis points.
    pub fee_bp: u64,
    /// The key whose signature authorizes a transfer.
    pub signer_key: [u8; 32],
    pub fee_collector_sol: Pubkey,
    pub fee_collector_usdc: Pubkey,
    pub gas_drop_collector_sol: Pubkey,
    pub gas_drop_collector_usdc: Pubkey,
    /// Ceiling on a gas drop paid in stablecoin; zero means no limit.
    pub max_usdc_gas_drop: u64,
    /// Ceiling on a gas drop paid in native currency, for each destination
    /// domain; zero means no limit.
    pub max_native_gas_drop: [u64; 32],
    /// Number of transfers made so far.
    pub nonce: u64,
}

impl Config {
    /// The fee rate is at most one percent.
    pub open spec fn wf(&self) -> bool {
        self.fee_bp <= MAX_FEE_BP
    }

    /// The ceiling on a native gas drop towards `destination_domain`.
    pub open spec fn native_ceiling(&self, destination_domain: u32) -> u64
        recommends
            destination_domain < DOMAIN_COUNT,
    {
        self.max_native_gas_drop@[destination_domain as int]
    }

    /// The ceiling that applies to a gas drop of the given mode.
    pub open spec fn gas_drop_ceiling(&self, destination_domain: u32, fee_is_native: bool) -> u64
        recommends
            destination_domain < DOMAIN_COUNT,
    {
        if fee_is_native {
            self.native_ceiling(destination_domain)
        } else {
            self.max_usdc_gas_drop
        }
    }

    /// A policy with the given owner and signer key, not paused, without fee
    /// and without ceilings, that has made no transfer.
    pub fn new(owner: Pubkey, signer_key: [u8; 32]) -> (config: Config)
        ensures
            config.wf(),
            config.owner == owner,
            config.signer_key == signer_key,
            !config.paused,
            config.fee_bp == 0,
            config.fee_collector_sol == owner,
            config.fee_collector_usdc == owner,
            config.gas_drop_collector_sol == owner,
            config.gas_drop_collector_usdc == owner,
            config.max_usdc_gas_drop == 0,
            forall|d: int| 0 <= d < 32 ==> config.max_native_gas_drop@[d] == 0,
            config.nonce == 0,
    {
        Config {
            owner,
            paused: false,
            fee_bp: 0,
            signer_key,
            fee_collector_sol: owner,
            fee_collector_usdc: owner,
            gas_drop_collector_sol: owner,
            gas_drop_collector_usdc: owner,
            max_usdc_gas_drop: 0,
            max_native_gas_drop: [0u64; 32],
            nonce: 0,
        }
    }
}

/// The identity under which the service holds funds in custody and calls the
/// bridging protocol. It has no key pair: it is derived from fixed seeds, and
/// `bump` is the tag that completes them.
#[derive(Clone, Copy, Debug, PartialEq, Eq)]
pub struct Custodian {
    pub bump: u8,
}

/// The seven fields at the head of a signature proof: where the signature,
/// the public key and the message lie, and in which operation.
#[derive(Clone, Copy, Debug, PartialEq, Eq)]
pub struct Ed25519SignatureOffsets {
    pub signature_offset: u16,
    pub signature_instruction_index: u16,
    pub public_key_offset: u16,
    pub public_key_instruction_index: u16,
    pub message_data_offset: u16,
    pub message_data_size: u16,
    pub message_instruction_index: u16,
}

} // verus!
