#![allow(deprecated)]

use anchor_lang::prelude::Pubkey;
use anchor_lang::solana_program::ed25519_program;
use anchor_lang::solana_program::sysvar::instructions::{
    construct_instructions_data, BorrowedInstruction, ID,
};
use cashmere_cctp::cctp::DepositForBurnParams;
use cashmere_cctp::ed25519::{InstructionsAccount, Sibling};
use cashmere_cctp::errors::{
    Error, HostError, ParamError, SignatureVerificationError, TransferError,
};
use cashmere_cctp::events::TransferEvent;
use cashmere_cctp::ledger::{Balances, FundMovement, Payee};
use cashmere_cctp::state::{Config, Custodian};
use cashmere_cctp::transfer::{
    authorize_transfer, collect_funds, pre_transfer, record_transfer, settle_transfer,
    transfer_v2_ix, TransferCall, TransferParams, TransferPlan, TransferReceipt, TransferRequest,
    TransferTerms, TransferV2Context, CCTP_VERSION,
};

const NOW: i64 = 1_700_000_000;

fn signer() -> [u8; 32] {
    let mut key = [0u8; 32];
    for i in 0..32 {
        key[i] = 0x40 + i as u8;
    }
    key
}

fn requester() -> [u8; 32] {
    [0x21u8; 32]
}

fn policy() -> Config {
    let mut config = Config::new([0x11u8; 32], signer());
    config.fee_bp = 10;
    config.nonce = 41;
    config
}

fn books() -> Balances {
    Balances {
        owner_usdc: 5_000_000,
        owner_native: 2_000_000,
        fee_collector_usdc: 100,
        fee_collector_sol: 200,
        gas_drop_collector_usdc: 300,
        gas_drop_collector_sol: 400,
        custody: 0,
    }
}

fn request() -> TransferRequest {
    TransferRequest {
        usdc_amount: 1_000_000,
        destination_domain: 6,
        recipient: [0x31u8; 32],
        solana_owner: [0x32u8; 32],
        fee: 0,
        deadline: NOW as u64 + 60,
        gas_drop_amount: 0,
        fee_is_native: false,
        max_fee: 77,
        min_finality_threshold: 2_000,
    }
}

fn terms_of(request: &TransferRequest) -> TransferTerms {
    request.to_terms()
}

fn signed_message(terms: &TransferTerms, cctp_version: u8) -> Vec<u8> {
    borsh::to_vec(&(
        cctp_version,
        5u32,
        terms.destination_domain,
        terms.fee,
        terms.deadline,
        terms.fee_is_native,
    ))
    .unwrap()
}

fn payload(key: &[u8; 32], message: &[u8]) -> Vec<u8> {
    let mut data: Vec<u8> = vec![1, 0];
    data.extend_from_slice(&48u16.to_le_bytes());
    data.extend_from_slice(&u16::MAX.to_le_bytes());
    data.extend_from_slice(&16u16.to_le_bytes());
    data.extend_from_slice(&u16::MAX.to_le_bytes());
    data.extend_from_slice(&112u16.to_le_bytes());
    data.extend_from_slice(&(message.len() as u16).to_le_bytes());
    data.extend_from_slice(&u16::MAX.to_le_bytes());
    data.extend_from_slice(key);
    data.extend_from_slice(&[0x5au8; 64]);
    data.extend_from_slice(message);
    data
}

fn proof_for(terms: &TransferTerms, cctp_version: u8) -> Option<Sibling> {
    Some(Sibling {
        program_id: ed25519_program::ID.to_bytes(),
        from_signature_program: true,
        num_accounts: 0,
        data: payload(&signer(), &signed_message(terms, cctp_version)),
    })
}

fn batch_with(payload: &[u8]) -> InstructionsAccount {
    let this = Pubkey::new_from_array([0x77u8; 32]);
    let first = BorrowedInstruction {
        program_id: &ed25519_program::ID,
        accounts: vec![],
        data: payload,
    };
    let second = BorrowedInstruction { program_id: &this, accounts: vec![], data: &[] };
    let mut data = construct_instructions_data(&[first, second]);
    let n = data.len();
    data[n - 2..].copy_from_slice(&1u16.to_le_bytes());
    InstructionsAccount { key: ID.to_bytes(), data }
}

fn batch_for(terms: &TransferTerms) -> InstructionsAccount {
    batch_with(&payload(&signer(), &signed_message(terms, CCTP_VERSION)))
}

fn context(request: &TransferRequest) -> TransferV2Context {
    TransferV2Context {
        config: policy(),
        custodian: Custodian { bump: 255 },
        owner: requester(),
        message_sent_event_data: [0x55u8; 32],
        signature: batch_for(&terms_of(request)),
        balances: books(),
    }
}

fn call_of(request: TransferRequest) -> TransferCall {
    TransferCall {
        sibling: proof_for(&terms_of(&request), CCTP_VERSION),
        request,
        unix_timestamp: NOW,
        bridge_accepts: true,
    }
}

fn authorize(config: &Config, terms: &TransferTerms, now: i64) -> Result<TransferPlan, Error> {
    authorize_transfer(config, &proof_for(terms, CCTP_VERSION), now, terms, CCTP_VERSION)
}

fn run_transfer(
    ctx: &mut TransferV2Context,
    request: &TransferRequest,
    now: i64,
    bridge_accepts: bool,
) -> Result<TransferReceipt, Error> {
    transfer_v2_ix(
        ctx,
        request.usdc_amount,
        request.destination_domain,
        request.recipient,
        request.solana_owner,
        request.fee,
        request.deadline,
        request.gas_drop_amount,
        request.fee_is_native,
        request.max_fee,
        request.min_finality_threshold,
        now,
        bridge_accepts,
    )
}

#[test]
fn signed_message_is_fields_in_little_endian() {
    let params = TransferParams {
        cctp_version: 2,
        local_domain: 5,
        destination_domain: 0x0a0b_0c0d,
        fee: 0x0102_0304_0506_0708,
        deadline: 1_700_000_060,
        fee_is_native: true,
    };
    let mut expected: Vec<u8> = vec![2, 5, 0, 0, 0, 0x0d, 0x0c, 0x0b, 0x0a];
    expected.extend_from_slice(&[8, 7, 6, 5, 4, 3, 2, 1]);
    expected.extend_from_slice(&1_700_000_060u64.to_le_bytes());
    expected.push(1);
    assert_eq!(params.serialize(), expected);
    assert_eq!(params.serialize().len(), 26);
}

#[test]
fn signed_message_is_what_borsh_writes() {
    for (version, local, destination, fee, deadline, native) in [
        (0u8, 0u32, 0u32, 0u64, 0u64, false),
        (2, 5, 31, 1_500, 1_700_000_060, true),
        (u8::MAX, u32::MAX, u32::MAX, u64::MAX, u64::MAX, true),
        (1, 0x0102_0304, 0x8000_0001, 0x8877_6655_4433_2211, 0x00ff_00ff_00ff_00ff, false),
    ] {
        let params = TransferParams {
            cctp_version: version,
            local_domain: local,
            destination_domain: destination,
            fee,
            deadline,
            fee_is_native: native,
        };
        let expected = borsh::to_vec(&(version, local, destination, fee, deadline, native)).unwrap();
        assert_eq!(params.serialize(), expected);
    }
}

#[test]
fn different_terms_are_signed_differently() {
    let base = terms_of(&request());
    let mut seen = vec![signed_message(&base, 2)];
    let mut other = base;
    other.destination_domain = 7;
    seen.push(signed_message(&other, 2));
    let mut other = base;
    other.fee = 1;
    seen.push(signed_message(&other, 2));
    let mut other = base;
    other.deadline += 1;
    seen.push(signed_message(&other, 2));
    let mut other = base;
    other.fee_is_native = true;
    seen.push(signed_message(&other, 2));
    seen.push(signed_message(&base, 1));
    for i in 0..seen.len() {
        for j in 0..i {
            assert_ne!(seen[i], seen[j]);
        }
    }
}

#[test]
fn ten_basis_points_of_a_million() {
    let terms = terms_of(&request());
    let plan = authorize(&policy(), &terms, NOW).unwrap();
    assert_eq!(plan.usdc_fee_amount, 1000);
    assert_eq!(plan.amount, 999_000);
    assert_eq!(
        plan.movements,
        vec![
            FundMovement { payee: Payee::FeeCollectorUsdc, amount: 1000 },
            FundMovement { payee: Payee::Custody, amount: 999_000 },
        ]
    );
}

#[test]
fn server_fee_in_stablecoin_is_taken_with_percentage_fee() {
    let mut terms = terms_of(&request());
    terms.fee = 2_500;
    terms.gas_drop_amount = 40;
    let plan = authorize(&policy(), &terms, NOW).unwrap();
    assert_eq!(plan.usdc_fee_amount, 3_500);
    assert_eq!(plan.amount, 996_500);
    assert_eq!(
        plan.movements,
        vec![
            FundMovement { payee: Payee::FeeCollectorUsdc, amount: 3_500 },
            FundMovement { payee: Payee::GasDropCollectorUsdc, amount: 40 },
            FundMovement { payee: Payee::Custody, amount: 996_500 },
        ]
    );
}

#[test]
fn server_fee_in_native_currency_is_not_taken_in_stablecoin() {
    let mut terms = terms_of(&request());
    terms.fee = 2_500;
    terms.gas_drop_amount = 40;
    terms.fee_is_native = true;
    let plan = authorize(&policy(), &terms, NOW).unwrap();
    assert_eq!(plan.usdc_fee_amount, 1_000);
    assert_eq!(plan.amount, 999_000);
    assert_eq!(
        plan.movements,
        vec![
            FundMovement { payee: Payee::FeeCollectorUsdc, amount: 1_000 },
            FundMovement { payee: Payee::FeeCollectorSol, amount: 2_500 },
            FundMovement { payee: Payee::GasDropCollectorSol, amount: 40 },
            FundMovement { payee: Payee::Custody, amount: 999_000 },
        ]
    );
}

#[test]
fn domain_thirty_two_is_invalid() {
    let mut terms = terms_of(&request());
    terms.destination_domain = 32;
    assert_eq!(authorize(&policy(), &terms, NOW), Err(Error::Param(ParamError::InvalidDomain)));
    terms.destination_domain = u32::MAX;
    assert_eq!(authorize(&policy(), &terms, NOW), Err(Error::Param(ParamError::InvalidDomain)));
}

#[test]
fn domain_thirty_one_is_valid() {
    let mut terms = terms_of(&request());
    terms.destination_domain = 31;
    let plan = authorize(&policy(), &terms, NOW).unwrap();
    assert_eq!(plan.amount, 999_000);
    terms.destination_domain = 0;
    assert!(authorize(&policy(), &terms, NOW).is_ok());
}

#[test]
fn invalid_domain_is_reported_before_pause() {
    let mut config = policy();
    config.paused = true;
    let mut terms = terms_of(&request());
    terms.destination_domain = 32;
    assert_eq!(authorize(&config, &terms, NOW), Err(Error::Param(ParamError::InvalidDomain)));
}

#[test]
fn paused_service_refuses_every_request() {
    let mut config = policy();
    config.paused = true;
    let terms = terms_of(&request());
    assert_eq!(authorize(&config, &terms, NOW), Err(Error::Transfer(TransferError::Paused)));
    assert_eq!(
        authorize_transfer(&config, &None, NOW + 1_000, &terms, CCTP_VERSION),
        Err(Error::Transfer(TransferError::Paused))
    );
}

#[test]
fn paused_service_changes_no_balance() {
    let request = request();
    let mut ctx = context(&request);
    ctx.config.paused = true;
    let before = ctx.clone();
    assert_eq!(
        run_transfer(&mut ctx, &request, NOW, true),
        Err(Error::Transfer(TransferError::Paused))
    );
    assert_eq!(ctx, before);
}

#[test]
fn request_without_proof_is_refused() {
    let terms = terms_of(&request());
    assert_eq!(
        authorize_transfer(&policy(), &None, NOW, &terms, CCTP_VERSION),
        Err(Error::Host(HostError::InstructionUnavailable))
    );
}

#[test]
fn proof_for_other_terms_is_refused() {
    let terms = terms_of(&request());
    let mut signed = terms;
    signed.fee = 1;
    let proof = proof_for(&signed, CCTP_VERSION);
    assert_eq!(
        authorize_transfer(&policy(), &proof, NOW, &terms, CCTP_VERSION),
        Err(Error::Signature(SignatureVerificationError::InvalidMessageData))
    );
    let mut signed = terms;
    signed.deadline += 1;
    let proof = proof_for(&signed, CCTP_VERSION);
    assert_eq!(
        authorize_transfer(&policy(), &proof, NOW, &terms, CCTP_VERSION),
        Err(Error::Signature(SignatureVerificationError::InvalidMessageData))
    );
    let mut signed = terms;
    signed.destination_domain = 7;
    let proof = proof_for(&signed, CCTP_VERSION);
    assert_eq!(
        authorize_transfer(&policy(), &proof, NOW, &terms, CCTP_VERSION),
        Err(Error::Signature(SignatureVerificationError::InvalidMessageData))
    );
    let mut signed = terms;
    signed.fee_is_native = true;
    let proof = proof_for(&signed, CCTP_VERSION);
    assert_eq!(
        authorize_transfer(&policy(), &proof, NOW, &terms, CCTP_VERSION),
        Err(Error::Signature(SignatureVerificationError::InvalidMessageData))
    );
}

#[test]
fn proof_for_other_version_is_refused() {
    let terms = terms_of(&request());
    let proof = proof_for(&terms, 1);
    assert_eq!(
        authorize_transfer(&policy(), &proof, NOW, &terms, CCTP_VERSION),
        Err(Error::Signature(SignatureVerificationError::InvalidMessageData))
    );
    assert!(authorize_transfer(&policy(), &proof, NOW, &terms, 1).is_ok());
}

#[test]
fn proof_under_other_key_is_refused() {
    let terms = terms_of(&request());
    let mut config = policy();
    config.signer_key[31] ^= 1;
    assert_eq!(
        authorize(&config, &terms, NOW),
        Err(Error::Signature(SignatureVerificationError::InvalidSignature))
    );
}

#[test]
fn amount_and_gas_drop_are_not_part_of_the_proof() {
    let terms = terms_of(&request());
    let proof = proof_for(&terms, CCTP_VERSION);
    let mut other = terms;
    other.usdc_amount = 2_000_000;
    other.gas_drop_amount = 9;
    let plan = authorize_transfer(&policy(), &proof, NOW, &other, CCTP_VERSION).unwrap();
    assert_eq!(plan.usdc_fee_amount, 2_000);
    assert_eq!(plan.amount, 1_998_000);
}

#[test]
fn deadline_in_the_past_is_expired() {
    let terms = terms_of(&request());
    assert_eq!(
        authorize(&policy(), &terms, terms.deadline as i64 + 1),
        Err(Error::Transfer(TransferError::DeadlineExpired))
    );
    assert_eq!(
        authorize(&policy(), &terms, i64::MAX),
        Err(Error::Transfer(TransferError::DeadlineExpired))
    );
}

#[test]
fn deadline_reached_is_not_expired() {
    let terms = terms_of(&request());
    assert!(authorize(&policy(), &terms, terms.deadline as i64).is_ok());
    assert!(authorize(&policy(), &terms, 0).is_ok());
    assert!(authorize(&policy(), &terms, -1).is_ok());
    assert!(authorize(&policy(), &terms, i64::MIN).is_ok());
}

#[test]
fn deadline_beyond_the_clock_never_expires() {
    let mut terms = terms_of(&request());
    terms.deadline = u64::MAX;
    assert!(authorize(&policy(), &terms, i64::MAX).is_ok());
    terms.deadline = i64::MAX as u64;
    assert!(authorize(&policy(), &terms, i64::MAX).is_ok());
    terms.deadline = i64::MAX as u64 - 1;
    assert_eq!(
        authorize(&policy(), &terms, i64::MAX),
        Err(Error::Transfer(TransferError::DeadlineExpired))
    );
}

#[test]
fn fee_above_amount_is_refused() {
    let mut terms = terms_of(&request());
    terms.usdc_amount = 1_000;
    terms.fee = 1_000;
    assert_eq!(
        authorize(&policy(), &terms, NOW),
        Err(Error::Transfer(TransferError::FeeExceedsAmount))
    );
    terms.fee = 999;
    let plan = authorize(&policy(), &terms, NOW).unwrap();
    assert_eq!(plan.usdc_fee_amount, 1_000);
    assert_eq!(plan.amount, 0);
}

#[test]
fn fee_beyond_sixty_four_bits_is_refused() {
    let mut terms = terms_of(&request());
    terms.usdc_amount = u64::MAX;
    terms.fee = u64::MAX;
    let mut config = policy();
    config.fee_bp = 100;
    assert_eq!(
        authorize(&config, &terms, NOW),
        Err(Error::Transfer(TransferError::FeeExceedsAmount))
    );
    terms.fee_is_native = true;
    let plan = authorize(&config, &terms, NOW).unwrap();
    assert_eq!(plan.usdc_fee_amount, 184_467_440_737_095_516);
    assert_eq!(plan.amount, u64::MAX - 184_467_440_737_095_516);
}

#[test]
fn stablecoin_gas_drop_is_held_to_its_ceiling() {
    let mut config = policy();
    config.max_usdc_gas_drop = 500;
    config.max_native_gas_drop = [1u64; 32];
    let mut terms = terms_of(&request());
    terms.gas_drop_amount = 500;
    assert!(authorize(&config, &terms, NOW).is_ok());
    terms.gas_drop_amount = 501;
    assert_eq!(
        authorize(&config, &terms, NOW),
        Err(Error::Transfer(TransferError::GasDropLimitExceeded))
    );
    config.max_usdc_gas_drop = 0;
    assert!(authorize(&config, &terms, NOW).is_ok());
    terms.gas_drop_amount = u64::MAX;
    assert!(authorize(&config, &terms, NOW).is_ok());
}

#[test]
fn native_gas_drop_is_held_to_the_ceiling_of_its_domain() {
    let mut config = policy();
    config.max_usdc_gas_drop = 1;
    config.max_native_gas_drop[6] = 700;
    config.max_native_gas_drop[7] = 900;
    let mut terms = terms_of(&request());
    terms.fee_is_native = true;
    terms.gas_drop_amount = 700;
    assert!(authorize(&config, &terms, NOW).is_ok());
    terms.gas_drop_amount = 701;
    assert_eq!(
        authorize(&config, &terms, NOW),
        Err(Error::Transfer(TransferError::GasDropLimitExceeded))
    );
    terms.destination_domain = 7;
    assert!(authorize(&config, &terms, NOW).is_ok());
    terms.gas_drop_amount = 901;
    assert_eq!(
        authorize(&config, &terms, NOW),
        Err(Error::Transfer(TransferError::GasDropLimitExceeded))
    );
    terms.destination_domain = 8;
    assert!(authorize(&config, &terms, NOW).is_ok());
}

#[test]
fn conditions_are_examined_in_order() {
    let mut config = policy();
    config.max_usdc_gas_drop = 1;
    let mut terms = terms_of(&request());
    terms.gas_drop_amount = 2;
    terms.usdc_amount = 0;
    terms.fee = 1;
    let late = terms.deadline as i64 + 1;
    assert_eq!(
        authorize_transfer(&config, &None, late, &terms, CCTP_VERSION),
        Err(Error::Host(HostError::InstructionUnavailable))
    );
    assert_eq!(
        authorize(&config, &terms, late),
        Err(Error::Transfer(TransferError::DeadlineExpired))
    );
    assert_eq!(
        authorize(&config, &terms, NOW),
        Err(Error::Transfer(TransferError::FeeExceedsAmount))
    );
    terms.usdc_amount = 1;
    assert_eq!(
        authorize(&config, &terms, NOW),
        Err(Error::Transfer(TransferError::GasDropLimitExceeded))
    );
}

#[test]
fn collected_funds_reach_collectors_and_custody() {
    let mut terms = terms_of(&request());
    terms.fee = 2_500;
    terms.gas_drop_amount = 40;
    let mut balances = books();
    assert_eq!(
        collect_funds(
            &policy(),
            &proof_for(&terms, CCTP_VERSION),
            &mut balances,
            NOW,
            &terms,
            CCTP_VERSION
        ),
        Ok(996_500)
    );
    assert_eq!(
        balances,
        Balances {
            owner_usdc: 5_000_000 - 1_000_000 - 40,
            owner_native: 2_000_000,
            fee_collector_usdc: 100 + 3_500,
            fee_collector_sol: 200,
            gas_drop_collector_usdc: 300 + 40,
            gas_drop_collector_sol: 400,
            custody: 996_500,
        }
    );
}

#[test]
fn refused_request_collects_nothing() {
    let mut terms = terms_of(&request());
    terms.destination_domain = 32;
    let mut balances = books();
    assert_eq!(
        collect_funds(
            &policy(),
            &proof_for(&terms, CCTP_VERSION),
            &mut balances,
            NOW,
            &terms,
            CCTP_VERSION
        ),
        Err(Error::Param(ParamError::InvalidDomain))
    );
    assert_eq!(balances, books());
}

#[test]
fn requester_short_of_funds_pays_nothing() {
    let mut terms = terms_of(&request());
    terms.fee = 2_500;
    terms.gas_drop_amount = 40;
    let mut balances = books();
    balances.owner_usdc = 1_000_039;
    let before = balances;
    assert_eq!(
        collect_funds(
            &policy(),
            &proof_for(&terms, CCTP_VERSION),
            &mut balances,
            NOW,
            &terms,
            CCTP_VERSION
        ),
        Err(Error::Host(HostError::InsufficientFunds))
    );
    assert_eq!(balances, before);
    balances.owner_usdc = 1_000_040;
    assert_eq!(
        collect_funds(
            &policy(),
            &proof_for(&terms, CCTP_VERSION),
            &mut balances,
            NOW,
            &terms,
            CCTP_VERSION
        ),
        Ok(996_500)
    );
    assert_eq!(balances.owner_usdc, 0);
}

#[test]
fn pre_transfer_reads_the_proof_from_the_batch() {
    let mut terms = terms_of(&request());
    terms.fee = 3;
    terms.gas_drop_amount = 4;
    terms.fee_is_native = true;
    let mut balances = books();
    assert_eq!(
        pre_transfer(
            &policy(),
            &batch_for(&terms),
            &mut balances,
            terms.usdc_amount,
            terms.destination_domain,
            terms.fee,
            terms.deadline,
            terms.gas_drop_amount,
            terms.fee_is_native,
            CCTP_VERSION,
            NOW,
        ),
        Ok(999_000)
    );
    assert_eq!(
        balances,
        Balances {
            owner_usdc: 4_000_000,
            owner_native: 2_000_000 - 7,
            fee_collector_usdc: 1_100,
            fee_collector_sol: 203,
            gas_drop_collector_usdc: 300,
            gas_drop_collector_sol: 404,
            custody: 999_000,
        }
    );
}

#[test]
fn pre_transfer_without_proof_moves_nothing() {
    let terms = terms_of(&request());
    let mut batch = batch_for(&terms);
    let n = batch.data.len();
    batch.data[n - 2..].copy_from_slice(&0u16.to_le_bytes());
    let mut balances = books();
    assert_eq!(
        pre_transfer(
            &policy(),
            &batch,
            &mut balances,
            terms.usdc_amount,
            terms.destination_domain,
            terms.fee,
            terms.deadline,
            terms.gas_drop_amount,
            terms.fee_is_native,
            CCTP_VERSION,
            NOW,
        ),
        Err(Error::Host(HostError::InstructionUnavailable))
    );
    assert_eq!(balances, books());
    let mut other = terms;
    other.fee = 1;
    assert_eq!(
        pre_transfer(
            &policy(),
            &batch_for(&other),
            &mut balances,
            terms.usdc_amount,
            terms.destination_domain,
            terms.fee,
            terms.deadline,
            terms.gas_drop_amount,
            terms.fee_is_native,
            CCTP_VERSION,
            NOW,
        ),
        Err(Error::Signature(SignatureVerificationError::InvalidMessageData))
    );
    assert_eq!(balances, books());
}

#[test]
fn record_carries_the_nonce_after_the_count() {
    let mut config = policy();
    let request = request();
    let event = record_transfer(&mut config, &request, requester(), 999_000, [0x55u8; 32]);
    assert_eq!(config.nonce, 42);
    let mut expected = policy();
    expected.nonce = 42;
    assert_eq!(config, expected);
    assert_eq!(
        event,
        TransferEvent {
            destination_domain: 6,
            nonce: 42,
            recipient: [0x31u8; 32],
            solana_owner: [0x32u8; 32],
            user: requester(),
            amount: 999_000,
            gas_drop_amount: 0,
            cctp_nonce: -2,
            fee_is_native: false,
            cctp_message: [0x55u8; 32],
        }
    );
}

#[test]
fn burn_call_of_a_request() {
    assert_eq!(
        request().burn_params(999_000),
        DepositForBurnParams {
            amount: 999_000,
            destination_domain: 6,
            mint_recipient: [0x31u8; 32],
            destination_caller: [0u8; 32],
            max_fee: 77,
            min_finality_threshold: 2_000,
        }
    );
}

#[test]
fn transfer_takes_effect_as_a_whole() {
    let request = request();
    let mut ctx = context(&request);
    let receipt = run_transfer(&mut ctx, &request, NOW, true).unwrap();
    assert_eq!(
        receipt,
        TransferReceipt {
            event: TransferEvent {
                destination_domain: 6,
                nonce: 42,
                recipient: [0x31u8; 32],
                solana_owner: [0x32u8; 32],
                user: requester(),
                amount: 999_000,
                gas_drop_amount: 0,
                cctp_nonce: -2,
                fee_is_native: false,
                cctp_message: [0x55u8; 32],
            },
            burn: DepositForBurnParams {
                amount: 999_000,
                destination_domain: 6,
                mint_recipient: [0x31u8; 32],
                destination_caller: [0u8; 32],
                max_fee: 77,
                min_finality_threshold: 2_000,
            },
        }
    );
    let mut expected = context(&request);
    expected.config.nonce = 42;
    expected.balances.owner_usdc = 4_000_000;
    expected.balances.fee_collector_usdc = 1_100;
    assert_eq!(ctx, expected);
}

#[test]
fn transfer_in_native_mode_takes_effect_as_a_whole() {
    let mut request = request();
    request.fee = 3_000;
    request.gas_drop_amount = 500;
    request.fee_is_native = true;
    let mut ctx = context(&request);
    ctx.config.max_native_gas_drop[6] = 500;
    let receipt = run_transfer(&mut ctx, &request, NOW, true).unwrap();
    assert_eq!(receipt.event.amount, 999_000);
    assert_eq!(receipt.event.gas_drop_amount, 500);
    assert!(receipt.event.fee_is_native);
    assert_eq!(receipt.burn.amount, 999_000);
    assert_eq!(
        ctx.balances,
        Balances {
            owner_usdc: 4_000_000,
            owner_native: 2_000_000 - 3_500,
            fee_collector_usdc: 1_100,
            fee_collector_sol: 3_200,
            gas_drop_collector_usdc: 300,
            gas_drop_collector_sol: 900,
            custody: 0,
        }
    );
    assert_eq!(ctx.config.nonce, 42);
}

#[test]
fn refused_bridge_call_undoes_the_transfer() {
    let mut request = request();
    request.fee = 10;
    request.gas_drop_amount = 20;
    let mut ctx = context(&request);
    let before = ctx.clone();
    assert_eq!(
        run_transfer(&mut ctx, &request, NOW, false),
        Err(Error::Host(HostError::BridgeRejected))
    );
    assert_eq!(ctx, before);
}

#[test]
fn failed_movement_undoes_the_transfer() {
    let mut request = request();
    request.fee = 10;
    request.gas_drop_amount = 20;
    request.fee_is_native = true;
    let mut ctx = context(&request);
    ctx.balances.owner_native = 29;
    let before = ctx.clone();
    assert_eq!(
        run_transfer(&mut ctx, &request, NOW, true),
        Err(Error::Host(HostError::InsufficientFunds))
    );
    assert_eq!(ctx, before);
    ctx.balances.owner_native = 30;
    ctx.balances.gas_drop_collector_sol = u64::MAX - 19;
    let before = ctx.clone();
    assert_eq!(
        run_transfer(&mut ctx, &request, NOW, true),
        Err(Error::Host(HostError::BalanceOverflow))
    );
    assert_eq!(ctx, before);
}

#[test]
fn every_refusal_leaves_the_context_as_it_was() {
    let request = request();
    let fresh = context(&request);

    let mut ctx = fresh.clone();
    let mut other = request;
    other.destination_domain = 32;
    assert_eq!(
        run_transfer(&mut ctx, &other, NOW, true),
        Err(Error::Param(ParamError::InvalidDomain))
    );
    assert_eq!(ctx, fresh);

    let mut other = request;
    other.fee = 1;
    assert_eq!(
        run_transfer(&mut ctx, &other, NOW, true),
        Err(Error::Signature(SignatureVerificationError::InvalidMessageData))
    );
    assert_eq!(ctx, fresh);

    assert_eq!(
        run_transfer(&mut ctx, &request, request.deadline as i64 + 1, true),
        Err(Error::Transfer(TransferError::DeadlineExpired))
    );
    assert_eq!(ctx, fresh);

    let mut other = request;
    other.usdc_amount = 0;
    other.fee = 0;
    let mut small = fresh.clone();
    small.config.fee_bp = 0;
    small.config.max_usdc_gas_drop = 5;
    other.gas_drop_amount = 6;
    let before = small.clone();
    assert_eq!(
        run_transfer(&mut small, &other, NOW, true),
        Err(Error::Transfer(TransferError::GasDropLimitExceeded))
    );
    assert_eq!(small, before);

    let mut wrong_key = fresh.clone();
    wrong_key.config.signer_key = [0u8; 32];
    let before = wrong_key.clone();
    assert_eq!(
        run_transfer(&mut wrong_key, &request, NOW, true),
        Err(Error::Signature(SignatureVerificationError::InvalidSignature))
    );
    assert_eq!(wrong_key, before);
}

#[test]
fn nonce_counts_successful_transfers() {
    let request = request();
    let mut ctx = context(&request);
    let start = ctx.config.nonce;
    let mut successes: u64 = 0;
    for round in 0..6u64 {
        let accepted = round != 2 && round != 3;
        let result = run_transfer(&mut ctx, &request, NOW, accepted);
        if accepted {
            successes += 1;
            assert_eq!(result.unwrap().event.nonce, start + successes);
        } else {
            assert_eq!(result, Err(Error::Host(HostError::BridgeRejected)));
        }
        assert_eq!(ctx.config.nonce, start + successes);
    }
    assert_eq!(ctx.config.nonce, start + 4);
    assert_eq!(ctx.balances.owner_usdc, 5_000_000 - 4 * 1_000_000);
    assert_eq!(ctx.balances.fee_collector_usdc, 100 + 4 * 1_000);
    assert_eq!(ctx.balances.custody, 0);
    assert_eq!(run_transfer(&mut ctx, &request, NOW, true).unwrap().event.nonce, start + 5);
    assert_eq!(ctx.balances.owner_usdc, 0);
    assert_eq!(
        run_transfer(&mut ctx, &request, NOW, true),
        Err(Error::Host(HostError::InsufficientFunds))
    );
    assert_eq!(ctx.config.nonce, start + 5);
}

#[test]
fn settlement_with_given_sibling() {
    let mut request = request();
    request.fee = 250;
    request.gas_drop_amount = 50;
    let mut ctx = context(&request);
    ctx.signature = InstructionsAccount { key: [0u8; 32], data: vec![] };
    let receipt = settle_transfer(&mut ctx, &call_of(request)).unwrap();
    assert_eq!(receipt.event.nonce, 42);
    assert_eq!(receipt.event.amount, 1_000_000 - 1_250);
    assert_eq!(receipt.burn, request.burn_params(998_750));
    assert_eq!(
        ctx.balances,
        Balances {
            owner_usdc: 4_000_000 - 50,
            owner_native: 2_000_000,
            fee_collector_usdc: 100 + 1_250,
            fee_collector_sol: 200,
            gas_drop_collector_usdc: 350,
            gas_drop_collector_sol: 400,
            custody: 0,
        }
    );
    let mut call = call_of(request);
    call.sibling = None;
    let before = ctx.clone();
    assert_eq!(
        settle_transfer(&mut ctx, &call),
        Err(Error::Host(HostError::InstructionUnavailable))
    );
    assert_eq!(ctx, before);
}

#[test]
fn custody_holds_what_it_held_before() {
    let request = request();
    let mut ctx = context(&request);
    ctx.balances.custody = 123;
    assert!(settle_transfer(&mut ctx, &call_of(request)).is_ok());
    assert_eq!(ctx.balances.custody, 123);
}
