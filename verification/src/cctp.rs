//! The burn call of the bridging protocol: its accounts, its parameters and
//! the bytes in which it is sent.

use vstd::prelude::*;
use crate::bytes::{push_bytes, push_u32_le, push_u64_le, u32_le_bytes, u64_le_bytes};
use crate::state::{Custodian, Pubkey};

verus! {

/// An account named in a call to another program, with what the call may do
/// with it.
#[derive(Clone, Copy, Debug, PartialEq, Eq)]
pub struct AccountMeta {
    pub pubkey: Pubkey,
    pub is_signer: bool,
    pub is_writable: bool,
}

impl AccountMeta {
    /// An account that the call may write to.
    pub fn new(pubkey: Pubkey, is_signer: bool) -> (meta: AccountMeta)
        ensures
            meta == (AccountMeta { pubkey, is_signer, is_writable: true }),
    {
        AccountMeta { pubkey, is_signer, is_writable: true }
    }

    /// An account that the call may only read.
    pub fn new_readonly(pubkey: Pubkey, is_signer: bool) -> (meta: AccountMeta)
        ensures
            meta == (AccountMeta { pubkey, is_signer, is_writable: false }),
    {
        AccountMeta { pubkey, is_signer, is_writable: false }
    }
}

/// The accounts of a burn call.
#[derive(Clone, Copy, Debug, PartialEq, Eq)]
pub struct DepositForBurn {
    /// Signer. Owns the account that is burned from.
    pub owner: Pubkey,
    /// Signer, writable. Pays for the message account.
    pub event_rent_payer: Pubkey,
    pub sender_authority_pda: Pubkey,
    /// Writable. The account that is burned from.
    pub burn_token_account: Pubkey,
    /// Writable.
    pub denylist_account: Pubkey,
    /// Writable.
    pub message_transmitter: Pubkey,
    pub token_messenger: Pubkey,
    pub remote_token_messenger: Pubkey,
    pub token_minter: Pubkey,
    /// Writable.
    pub local_token: Pubkey,
    /// Writable. The mint of the burned stablecoin.
    pub burn_token_mint: Pubkey,
    /// Signer, writable. The account that will hold the bridge message.
    pub message_sent_event_data: Pubkey,
    pub message_transmitter_program: Pubkey,
    pub token_messenger_minter_program: Pubkey,
    pub token_program: Pubkey,
    pub system_program: Pubkey,
    pub event_authority: Pubkey,
}

/// An account of a call that signs and is only read.
pub open spec fn signer(pubkey: Pubkey) -> AccountMeta {
    AccountMeta { pubkey, is_signer: true, is_writable: false }
}

/// An account of a call that signs and is written to.
pub open spec fn writable_signer(pubkey: Pubkey) -> AccountMeta {
    AccountMeta { pubkey, is_signer: true, is_writable: true }
}

/// An account of a call that is written to.
pub open spec fn writable(pubkey: Pubkey) -> AccountMeta {
    AccountMeta { pubkey, is_signer: false, is_writable: true }
}

/// An account of a call that is only read.
pub open spec fn readonly(pubkey: Pubkey) -> AccountMeta {
    AccountMeta { pubkey, is_signer: false, is_writable: false }
}

impl DepositForBurn {
    /// The accounts in the order of the burn call, each with its rights. The
    /// program of the bridge closes the list a second time, as the program
    /// that its event is addressed to.
    pub open spec fn account_metas(&self) -> Seq<AccountMeta> {
        seq![
            signer(self.owner),
            writable_signer(self.event_rent_payer),
            readonly(self.sender_authority_pda),
            writable(self.burn_token_account),
            writable(self.denylist_account),
            writable(self.message_transmitter),
            readonly(self.token_messenger),
            readonly(self.remote_token_messenger),
            readonly(self.token_minter),
            writable(self.local_token),
            writable(self.burn_token_mint),
            writable_signer(self.message_sent_event_data),
            readonly(self.message_transmitter_program),
            readonly(self.token_messenger_minter_program),
            readonly(self.token_program),
            readonly(self.system_program),
            readonly(self.event_authority),
            readonly(self.token_messenger_minter_program),
        ]
    }

    /// The accounts in the order in which they are handed to the call.
    pub open spec fn account_keys(&self) -> Seq<Pubkey> {
        seq![
            self.owner,
            self.event_rent_payer,
            self.sender_authority_pda,
            self.burn_token_account,
            self.denylist_account,
            self.message_transmitter,
            self.token_messenger,
            self.remote_token_messenger,
            self.token_minter,
            self.local_token,
            self.burn_token_mint,
            self.message_sent_event_data,
            self.message_transmitter_program,
            self.token_messenger_minter_program,
            self.token_program,
            self.system_program,
            self.event_authority,
        ]
    }

    /// Lists the accounts of the burn call with their rights. The rights are
    /// fixed by the bridging protocol, so `_is_signer` changes nothing.
    pub fn to_account_metas(&self, _is_signer: Option<bool>) -> (metas: Vec<AccountMeta>)
        ensures
            metas@ == self.account_metas(),
    {
        let mut metas: Vec<AccountMeta> = Vec::new();
        metas.push(AccountMeta::new_readonly(self.owner, true));
        metas.push(AccountMeta::new(self.event_rent_payer, true));
        metas.push(AccountMeta::new_readonly(self.sender_authority_pda, false));
        metas.push(AccountMeta::new(self.burn_token_account, false));
        metas.push(AccountMeta::new(self.denylist_account, false));
        metas.push(AccountMeta::new(self.message_transmitter, false));
        metas.push(AccountMeta::new_readonly(self.token_messenger, false));
        metas.push(AccountMeta::new_readonly(self.remote_token_messenger, false));
        metas.push(AccountMeta::new_readonly(self.token_minter, false));
        metas.push(AccountMeta::new(self.local_token, false));
        metas.push(AccountMeta::new(self.burn_token_mint, false));
        metas.push(AccountMeta::new(self.message_sent_event_data, true));
        metas.push(AccountMeta::new_readonly(self.message_transmitter_program, false));
        metas.push(AccountMeta::new_readonly(self.token_messenger_minter_program, false));
        metas.push(AccountMeta::new_readonly(self.token_program, false));
        metas.push(AccountMeta::new_readonly(self.system_program, false));
        metas.push(AccountMeta::new_readonly(self.event_authority, false));
        metas.push(AccountMeta::new_readonly(self.token_messenger_minter_program, false));
        assert(metas@ =~= self.account_metas());
        metas
    }

    /// Lists the accounts that are handed to the burn call.
    pub fn to_account_infos(&self) -> (keys: Vec<Pubkey>)
        ensures
            keys@ == self.account_keys(),
    {
        let mut keys: Vec<Pubkey> = Vec::new();
        keys.push(self.owner);
        keys.push(self.event_rent_payer);
        keys.push(self.sender_authority_pda);
        keys.push(self.burn_token_account);
        keys.push(self.denylist_account);
        keys.push(self.message_transmitter);
        keys.push(self.token_messenger);
        keys.push(self.remote_token_messenger);
        keys.push(self.token_minter);
        keys.push(self.local_token);
        keys.push(self.burn_token_mint);
        keys.push(self.message_sent_event_data);
        keys.push(self.message_transmitter_program);
        keys.push(self.token_messenger_minter_program);
        keys.push(self.token_program);
        keys.push(self.system_program);
        keys.push(self.event_authority);
        assert(keys@ =~= self.account_keys());
        keys
    }
}

/// The parameters of a burn call.
#[derive(Clone, Copy, Debug, PartialEq, Eq)]
pub struct DepositForBurnParams {
    /// The amount that is burned.
    pub amount: u64,
    /// The domain on which the amount is minted.
    pub destination_domain: u32,
    /// Who receives the amount there: an address of that network.
    pub mint_recipient: [u8; 32],
    /// Who may complete the transfer there; all zero for anyone.
    pub destination_caller: [u8; 32],
    pub max_fee: u64,
    pub min_finality_threshold: u32,
}

/// The destination caller that restricts nothing: thirty-two zero bytes.
pub open spec fn any_caller() -> [u8; 32] {
    vstd::array::spec_array_fill_for_copy_type::<u8, 32>(0u8)
}

/// The eight bytes by which the bridging protocol recognizes a burn call.
pub open spec fn burn_selector() -> Seq<u8> {
    seq![215u8, 60u8, 61u8, 46u8, 114u8, 55u8, 128u8, 176u8]
}

impl DepositForBurnParams {
    /// The parameters as they are sent: each field in turn, integers in
    /// little-endian order, nothing in between.
    pub open spec fn wire(&self) -> Seq<u8> {
        u64_le_bytes(self.amount) + u32_le_bytes(self.destination_domain) + self.mint_recipient@
            + self.destination_caller@ + u64_le_bytes(self.max_fee) + u32_le_bytes(
            self.min_finality_threshold,
        )
    }

    /// The payload of the burn call: the selector, then the parameters.
    pub fn instruction_data(&self) -> (data: Vec<u8>)
        ensures
            data@ == burn_selector() + self.wire(),
    {
        let mut data: Vec<u8> = Vec::new();
        data.push(215);
        data.push(60);
        data.push(61);
        data.push(46);
        data.push(114);
        data.push(55);
        data.push(128);
        data.push(176);
        assert(data@ =~= burn_selector());
        push_u64_le(&mut data, self.amount);
        push_u32_le(&mut data, self.destination_domain);
        push_bytes(&mut data, self.mint_recipient.as_slice());
        push_bytes(&mut data, self.destination_caller.as_slice());
        push_u64_le(&mut data, self.max_fee);
        push_u32_le(&mut data, self.min_finality_threshold);
        assert(data@ =~= burn_selector() + self.wire());
        data
    }
}

/// The burn call as the ledger takes it: the program that is called, the
/// accounts with their rights, and the payload.
#[derive(Clone, Debug, PartialEq, Eq)]
pub struct BurnInstruction {
    pub program_id: Pubkey,
    pub accounts: Vec<AccountMeta>,
    pub data: Vec<u8>,
}

/// Builds the burn call from its accounts and parameters. It is addressed to
/// the program that the accounts name as the bridge.
pub fn deposit_for_burn(accounts: &DepositForBurn, params: &DepositForBurnParams) -> (call:
    BurnInstruction)
    ensures
        call.program_id == accounts.token_messenger_minter_program,
        call.accounts@ == accounts.account_metas(),
        call.data@ == burn_selector() + params.wire(),
{
    BurnInstruction {
        program_id: accounts.token_messenger_minter_program,
        accounts: accounts.to_account_metas(None),
        data: params.instruction_data(),
    }
}

/// The fixed seed of the custodian's identity.
pub open spec fn custodian_seed() -> Seq<u8> {
    seq![101u8, 109u8, 105u8, 116u8, 116u8, 101u8, 114u8]
}

/// The fixed seed of the custody holding area.
pub open spec fn custody_seed() -> Seq<u8> {
    seq![95u8, 95u8, 99u8, 117u8, 115u8, 116u8, 111u8, 100u8, 121u8]
}

impl Custodian {
    /// The fixed seed of the custodian's identity: the word `emitter`.
    pub fn seed_prefix() -> (seed: Vec<u8>)
        ensures
            seed@ == custodian_seed(),
    {
        let mut seed: Vec<u8> = Vec::new();
        seed.push(101);
        seed.push(109);
        seed.push(105);
        seed.push(116);
        seed.push(116);
        seed.push(101);
        seed.push(114);
        assert(seed@ =~= custodian_seed());
        seed
    }

    /// The fixed seed of the custody holding area: the word `__custody`.
    pub fn ata_seed_prefix() -> (seed: Vec<u8>)
        ensures
            seed@ == custody_seed(),
    {
        let mut seed: Vec<u8> = Vec::new();
        seed.push(95);
        seed.push(95);
        seed.push(99);
        seed.push(117);
        seed.push(115);
        seed.push(116);
        seed.push(111);
        seed.push(100);
        seed.push(121);
        assert(seed@ =~= custody_seed());
        seed
    }

    /// The seeds with which the service signs as the custodian: the fixed
    /// seed, then the derivation tag.
    pub fn signer_seeds(&self) -> (seeds: Vec<Vec<u8>>)
        ensures
            seeds@.len() == 2,
            seeds@[0]@ == custodian_seed(),
            seeds@[1]@ == seq![self.bump],
    {
        let mut tag: Vec<u8> = Vec::new();
        tag.push(self.bump);
        assert(tag@ =~= seq![self.bump]);
        let mut seeds: Vec<Vec<u8>> = Vec::new();
        seeds.push(Custodian::seed_prefix());
        seeds.push(tag);
        seeds
    }
}

} // verus!
