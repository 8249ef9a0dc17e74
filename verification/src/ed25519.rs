//! Verification that the signature proof of a batch covers a given message
//! under a given key.
//!
//! The signature itself is checked by the ledger's own signature program,
//! which runs as the operation before the transfer. What is decided here is
//! that this operation is such a check, that it is laid out in the one
//! accepted way, and that its key and message are the expected ones.

use vstd::prelude::*;
use anchor_lang::prelude::AccountInfo;
use anchor_lang::solana_program::ed25519_program;
use anchor_lang::solana_program::sysvar::instructions::get_instruction_relative;
use crate::bytes::{range_equals, read_u16_le, u16_from_le};
use crate::errors::{Error, HostError, SignatureVerificationError};
use crate::state::{Ed25519SignatureOffsets, Pubkey};

verus! {

/// Length of a public key in a proof.
pub const PUBKEY_SERIALIZED_SIZE: usize = 32;

/// Length of a signature in a proof.
pub const SIGNATURE_SERIALIZED_SIZE: usize = 64;

/// Length of the seven offsets at the head of a proof.
pub const SIGNATURE_OFFSETS_SERIALIZED_SIZE: usize = 14;

/// Where the head of a proof starts; the offsets follow a prefix of two bytes.
pub const SIGNATURE_OFFSETS_START: usize = 0;

/// Where the offsets end and the public key starts.
pub const PUBLIC_KEY_START: usize = 16;

/// Where the public key ends and the signature starts.
pub const SIGNATURE_START: usize = 48;

/// Where the signature ends and the message starts.
pub const MESSAGE_START: usize = 112;

/// Position of the proof in the batch, counted from the running operation.
pub const PROOF_POSITION: i64 = -1;

/// The account of the ledger that lists the operations of the running batch:
/// its address and its content.
#[derive(Clone, Debug, PartialEq, Eq)]
pub struct InstructionsAccount {
    pub key: Pubkey,
    pub data: Vec<u8>,
}

/// The operation before the running one, as far as the verifier reads it:
/// the program it addresses, whether that is the ledger's signature program,
/// the number of accounts it refers to, and its payload.
#[derive(Clone, Debug, PartialEq, Eq)]
pub struct Sibling {
    pub program_id: Pubkey,
    pub from_signature_program: bool,
    pub num_accounts: usize,
    pub data: Vec<u8>,
}

/// The operation that `get_instruction_relative` reads from the content
/// `data` of the account at `key`, at the position `index` counted from the
/// running operation: its program, the number of its accounts and its
/// payload; or `None` where it reports an error.
pub uninterp spec fn relative_instruction(index: int, key: Seq<u8>, data: Seq<u8>) -> Option<
    (Seq<u8>, nat, Seq<u8>),
>;

/// Whether `program_id` is the address of the ledger's signature program,
/// as `ed25519_program::check_id` tells.
pub uninterp spec fn is_ed25519_program_id(program_id: Seq<u8>) -> bool;

/// Calls `solana_program::sysvar::instructions::get_instruction_relative` on
/// an account made of `key` and a copy of `data`, and hands back the program,
/// the number of accounts and the payload of the operation found. Nothing of
/// the call is proved: the contract only names its result, which depends on
/// the three arguments alone. An error of the call becomes `None`. The call
/// reads the last two bytes of the content without looking at its length,
/// hence the bound.
#[verifier::external_body]
fn load_relative_instruction(index: i64, key: &Pubkey, data: &Vec<u8>) -> (r: Option<
    (Pubkey, usize, Vec<u8>),
>)
    requires
        data@.len() >= 2,
    ensures
        r matches Some(ix) ==> relative_instruction(index as int, key@, data@) == Some(
            (ix.0@, ix.1 as nat, ix.2@),
        ),
        r is None ==> relative_instruction(index as int, key@, data@) is None,
{
    let address = anchor_lang::prelude::Pubkey::new_from_array(*key);
    let holder = anchor_lang::prelude::Pubkey::new_from_array([0u8; 32]);
    let mut lamports: u64 = 0;
    let mut content = data.clone();
    let account =
        AccountInfo::new(&address, false, false, &mut lamports, &mut content, &holder, false, 0);
    match get_instruction_relative(index, &account) {
        Ok(ix) => Some((ix.program_id.to_bytes(), ix.accounts.len(), ix.data)),
        Err(_) => None,
    }
}

/// Calls `solana_program::ed25519_program::check_id` on `program_id`, which
/// compares it with the address of the ledger's signature program. Nothing
/// of the call is proved: the contract only names its result.
#[verifier::external_body]
fn is_ed25519_program(program_id: &Pubkey) -> (r: bool)
    ensures
        r == is_ed25519_program_id(program_id@),
{
    ed25519_program::check_id(&anchor_lang::prelude::Pubkey::new_from_array(*program_id))
}

/// The seven offsets that a payload of at least sixteen bytes holds after
/// its prefix of two bytes, each in little-endian order.
pub open spec fn decoded_offsets(data: Seq<u8>) -> Ed25519SignatureOffsets
    recommends
        data.len() >= 16,
{
    Ed25519SignatureOffsets {
        signature_offset: u16_from_le(data[2], data[3]) as u16,
        signature_instruction_index: u16_from_le(data[4], data[5]) as u16,
        public_key_offset: u16_from_le(data[6], data[7]) as u16,
        public_key_instruction_index: u16_from_le(data[8], data[9]) as u16,
        message_data_offset: u16_from_le(data[10], data[11]) as u16,
        message_data_size: u16_from_le(data[12], data[13]) as u16,
        message_instruction_index: u16_from_le(data[14], data[15]) as u16,
    }
}

impl Ed25519SignatureOffsets {
    /// The one accepted layout: the public key right after the offsets, the
    /// signature right after the key, the message right after the signature.
    pub open spec fn well_placed(&self) -> bool {
        &&& self.public_key_offset as int == SIGNATURE_OFFSETS_START
            + SIGNATURE_OFFSETS_SERIALIZED_SIZE + 2
        &&& self.signature_offset as int == self.public_key_offset + PUBKEY_SERIALIZED_SIZE
        &&& self.message_data_offset as int == self.signature_offset + SIGNATURE_SERIALIZED_SIZE
    }

    /// Signature, key and message are all taken from the same operation.
    pub open spec fn one_slot(&self) -> bool {
        &&& self.signature_instruction_index == self.public_key_instruction_index
        &&& self.signature_instruction_index == self.message_instruction_index
    }

    /// Tells whether the offsets describe the one accepted layout.
    pub fn is_well_placed(&self) -> (ok: bool)
        ensures
            ok == self.well_placed(),
    {
        self.public_key_offset == 16 && self.signature_offset == 48 && self.message_data_offset
            == 112
    }

    /// Tells whether the three parts are taken from the same operation.
    pub fn is_one_slot(&self) -> (ok: bool)
        ensures
            ok == self.one_slot(),
    {
        self.signature_instruction_index == self.public_key_instruction_index
            && self.signature_instruction_index == self.message_instruction_index
    }
}

/// Decodes the offsets at the head of a payload, or nothing where the
/// payload is too short to hold them.
pub fn decode_offsets(data: &[u8]) -> (r: Option<Ed25519SignatureOffsets>)
    ensures
        r == if data@.len() < 16 {
            None::<Ed25519SignatureOffsets>
        } else {
            Some(decoded_offsets(data@))
        },
{
    if data.len() < PUBLIC_KEY_START {
        return None;
    }
    Some(
        Ed25519SignatureOffsets {
            signature_offset: read_u16_le(data, 2),
            signature_instruction_index: read_u16_le(data, 4),
            public_key_offset: read_u16_le(data, 6),
            public_key_instruction_index: read_u16_le(data, 8),
            message_data_offset: read_u16_le(data, 10),
            message_data_size: read_u16_le(data, 12),
            message_instruction_index: read_u16_le(data, 14),
        },
    )
}

/// The public key that a payload of at least forty-eight bytes carries.
pub open spec fn proof_public_key(data: Seq<u8>) -> Seq<u8>
    recommends
        data.len() >= 48,
{
    data.subrange(16, 48)
}

/// Whether a payload reaches as far as the message that its offsets
/// announce.
pub open spec fn holds_message(data: Seq<u8>) -> bool
    recommends
        data.len() >= 16,
{
    data.len() >= 112 + decoded_offsets(data).message_data_size
}

/// The message that a payload carries: as many bytes after the signature as
/// its offsets announce. These are the bytes that the signature is checked
/// against; what may follow them is not part of the proof.
pub open spec fn proof_message(data: Seq<u8>) -> Seq<u8>
    recommends
        data.len() >= 16,
        holds_message(data),
{
    data.subrange(112, 112 + decoded_offsets(data).message_data_size)
}

/// The verdict on a proof. `from_signature_program` says whether the
/// operation addresses the ledger's signature program, `num_accounts` how
/// many accounts it refers to, `data` is its payload; `msg` and `pub_key` are
/// the message and the key that the proof has to cover. The checks are made
/// in this order, and the first that fails gives the error.
pub open spec fn proof_verdict(
    from_signature_program: bool,
    num_accounts: nat,
    data: Seq<u8>,
    msg: Seq<u8>,
    pub_key: Seq<u8>,
) -> Result<(), SignatureVerificationError> {
    if !from_signature_program || num_accounts != 0 {
        Err(SignatureVerificationError::NotSigVerified)
    } else if data.len() < 16 {
        Err(SignatureVerificationError::LessDataThanExpected)
    } else if !decoded_offsets(data).well_placed() || !decoded_offsets(data).one_slot() {
        Err(SignatureVerificationError::InvalidSignatureData)
    } else if data.len() < 48 {
        Err(SignatureVerificationError::InvalidSignatureData)
    } else if proof_public_key(data) != pub_key {
        Err(SignatureVerificationError::InvalidSignature)
    } else if data.len() < 112 {
        Err(SignatureVerificationError::InvalidSignatureData)
    } else if !holds_message(data) || proof_message(data) != msg {
        Err(SignatureVerificationError::InvalidMessageData)
    } else {
        Ok(())
    }
}

impl Sibling {
    /// The verdict on this operation as a proof that `pub_key` signed `msg`.
    pub open spec fn verdict(&self, msg: Seq<u8>, pub_key: Seq<u8>) -> Result<
        (),
        SignatureVerificationError,
    > {
        proof_verdict(
            self.from_signature_program,
            self.num_accounts as nat,
            self.data@,
            msg,
            pub_key,
        )
    }
}

/// The verdict where the operation before the running one may be missing.
pub open spec fn sibling_verdict(sibling: Option<Sibling>, msg: Seq<u8>, pub_key: Seq<u8>) -> Result<
    (),
    Error,
> {
    match sibling {
        None => Err(Error::Host(HostError::InstructionUnavailable)),
        Some(s) => match s.verdict(msg, pub_key) {
            Ok(()) => Ok(()),
            Err(e) => Err(Error::Signature(e)),
        },
    }
}

/// The verdict on the operation that precedes the running one in the batch
/// listed by the account at `key` with content `data`.
pub open spec fn batch_verdict(key: Seq<u8>, data: Seq<u8>, msg: Seq<u8>, pub_key: Seq<u8>) -> Result<
    (),
    Error,
> {
    if data.len() < 2 {
        Err(Error::Host(HostError::InstructionUnavailable))
    } else {
        match relative_instruction(PROOF_POSITION as int, key, data) {
            None => Err(Error::Host(HostError::InstructionUnavailable)),
            Some((program_id, num_accounts, payload)) => match proof_verdict(
                is_ed25519_program_id(program_id),
                num_accounts,
                payload,
                msg,
                pub_key,
            ) {
                Ok(()) => Ok(()),
                Err(e) => Err(Error::Signature(e)),
            },
        }
    }
}

/// `sibling` is what the batch listed by the account at `key` with content
/// `data` holds before the running operation.
pub open spec fn is_sibling_of(sibling: Option<Sibling>, key: Seq<u8>, data: Seq<u8>) -> bool {
    match sibling {
        None => data.len() < 2 || relative_instruction(PROOF_POSITION as int, key, data) is None,
        Some(s) => {
            &&& data.len() >= 2
            &&& relative_instruction(PROOF_POSITION as int, key, data) == Some(
                (s.program_id@, s.num_accounts as nat, s.data@),
            )
            &&& s.from_signature_program == is_ed25519_program_id(s.program_id@)
        },
    }
}

/// The verdict on what was read from a batch is the verdict on the batch.
pub proof fn lemma_sibling_verdict(
    sibling: Option<Sibling>,
    key: Seq<u8>,
    data: Seq<u8>,
    msg: Seq<u8>,
    pub_key: Seq<u8>,
)
    requires
        is_sibling_of(sibling, key, data),
    ensures
        sibling_verdict(sibling, msg, pub_key) == batch_verdict(key, data, msg, pub_key),
{
}

/// Decides whether the operation `sibling` proves that `pub_key` signed
/// `msg`.
pub fn check_proof(sibling: &Sibling, msg: &[u8], pub_key: &[u8]) -> (r: Result<
    (),
    SignatureVerificationError,
>)
    ensures
        r == sibling.verdict(msg@, pub_key@),
{
    if !sibling.from_signature_program || sibling.num_accounts != 0 {
        return Err(SignatureVerificationError::NotSigVerified);
    }
    let data: &[u8] = sibling.data.as_slice();
    let offsets: Ed25519SignatureOffsets = match decode_offsets(data) {
        Some(offsets) => offsets,
        None => {
            return Err(SignatureVerificationError::LessDataThanExpected);
        },
    };
    if !offsets.is_well_placed() || !offsets.is_one_slot() {
        return Err(SignatureVerificationError::InvalidSignatureData);
    }
    if data.len() < SIGNATURE_START {
        return Err(SignatureVerificationError::InvalidSignatureData);
    }
    if !range_equals(data, PUBLIC_KEY_START, SIGNATURE_START, pub_key) {
        return Err(SignatureVerificationError::InvalidSignature);
    }
    if data.len() < MESSAGE_START {
        return Err(SignatureVerificationError::InvalidSignatureData);
    }
    let message_end: usize = MESSAGE_START + offsets.message_data_size as usize;
    if data.len() < message_end || !range_equals(data, MESSAGE_START, message_end, msg) {
        return Err(SignatureVerificationError::InvalidMessageData);
    }
    Ok(())
}

/// Decides whether the operation before the running one, where there is
/// one, proves that `pub_key` signed `msg`.
pub fn check_sibling(sibling: &Option<Sibling>, msg: &[u8], pub_key: &[u8]) -> (r: Result<
    (),
    Error,
>)
    ensures
        r == sibling_verdict(*sibling, msg@, pub_key@),
{
    match sibling {
        None => Err(Error::Host(HostError::InstructionUnavailable)),
        Some(s) => match check_proof(s, msg, pub_key) {
            Ok(()) => Ok(()),
            Err(e) => Err(Error::Signature(e)),
        },
    }
}

/// Reads the operation before the running one from the account that lists
/// the batch. Nothing is returned where the account is not that list, where
/// the running operation is the first, or where the list cannot be read.
pub fn read_sibling(instructions: &InstructionsAccount) -> (sibling: Option<Sibling>)
    ensures
        is_sibling_of(sibling, instructions.key@, instructions.data@),
{
    if instructions.data.len() < 2 {
        return None;
    }
    match load_relative_instruction(PROOF_POSITION, &instructions.key, &instructions.data) {
        Some((program_id, num_accounts, data)) => {
            let from_signature_program: bool = is_ed25519_program(&program_id);
            Some(Sibling { program_id, from_signature_program, num_accounts, data })
        },
        None => None,
    }
}

/// Decides whether the operation before the running one proves that
/// `pub_key` signed `msg`. The operation is read from `instructions`; where
/// none can be read the call fails with `InstructionUnavailable`.
pub fn verify_ed25519_ix(instructions: &InstructionsAccount, msg: &[u8], pub_key: &[u8]) -> (r:
    Result<(), Error>)
    ensures
        r == batch_verdict(instructions.key@, instructions.data@, msg@, pub_key@),
{
    let sibling: Option<Sibling> = read_sibling(instructions);
    proof {
        lemma_sibling_verdict(sibling, instructions.key@, instructions.data@, msg@, pub_key@);
    }
    check_sibling(&sibling, msg, pub_key)
}

/// A proof that is a bare signature check in the accepted layout, and long
/// enough to hold its key.
pub open spec fn holds_key(sibling: Sibling) -> bool {
    &&& sibling.from_signature_program
    &&& sibling.num_accounts == 0
    &&& sibling.data@.len() >= 48
    &&& decoded_offsets(sibling.data@).well_placed()
    &&& decoded_offsets(sibling.data@).one_slot()
}

/// A proof made for another key is refused as an invalid signature,
/// whatever its message.
pub proof fn lemma_foreign_key_is_refused(sibling: Sibling, msg: Seq<u8>, pub_key: Seq<u8>)
    requires
        holds_key(sibling),
        proof_public_key(sibling.data@) != pub_key,
    ensures
        sibling.verdict(msg, pub_key) == Err::<(), SignatureVerificationError>(
            SignatureVerificationError::InvalidSignature,
        ),
{
}

/// A proof under the right key whose message differs from the expected one,
/// be it in a single bit or in its length, is refused as invalid message
/// data.
pub proof fn lemma_foreign_message_is_refused(sibling: Sibling, msg: Seq<u8>, pub_key: Seq<u8>)
    requires
        holds_key(sibling),
        proof_public_key(sibling.data@) == pub_key,
        sibling.data@.len() >= 112,
        !holds_message(sibling.data@) || proof_message(sibling.data@) != msg,
    ensures
        sibling.verdict(msg, pub_key) == Err::<(), SignatureVerificationError>(
            SignatureVerificationError::InvalidMessageData,
        ),
{
}

/// A proof is accepted exactly when it is a bare signature check in the
/// accepted layout that carries the expected key and, after the signature,
/// a message of the announced length that is the expected one.
pub proof fn lemma_accepted_proof(sibling: Sibling, msg: Seq<u8>, pub_key: Seq<u8>)
    ensures
        sibling.verdict(msg, pub_key) is Ok <==> {
            &&& holds_key(sibling)
            &&& proof_public_key(sibling.data@) == pub_key
            &&& decoded_offsets(sibling.data@).message_data_size == msg.len()
            &&& sibling.data@.len() >= 112 + msg.len()
            &&& sibling.data@.subrange(112, 112 + msg.len() as int) == msg
        },
{
    let data = sibling.data@;
    if data.len() >= 16 && holds_message(data) {
        assert(proof_message(data).len() == decoded_offsets(data).message_data_size);
    }
}

} // verus!
