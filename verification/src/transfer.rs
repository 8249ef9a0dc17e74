//! The authorized transfer: the conditions that a request has to meet, the funds
//! that it moves, the hand-off to the bridge and the record that it leaves.

use vstd::prelude::*;
use crate::bytes::{
    bool_byte,
    lemma_u32_le_bytes_injective,
    lemma_u64_le_bytes_injective,
    push_u32_le,
    push_u64_le,
    u32_le_bytes,
    u64_le_bytes,
};
use crate::cctp::{any_caller, DepositForBurnParams};
use crate::ed25519::{
    batch_verdict,
    check_sibling,
    holds_key,
    holds_message,
    lemma_foreign_key_is_refused,
    lemma_foreign_message_is_refused,
    lemma_sibling_verdict,
    proof_message,
    proof_public_key,
    read_sibling,
    sibling_verdict,
    InstructionsAccount,
    Sibling,
};
use crate::errors::{Error, HostError, ParamError, SignatureVerificationError, TransferError};
use crate::events::{TransferEvent, CCTP_V2_NONCE_TAG};
use crate::fee::{calculate_fee, gas_drop_within, total_fee, within_ceiling};
use crate::ledger::{
    fund_movements,
    lemma_first_then_rest,
    plan_fund_movements,
    Balances,
    FundMovement,
    Payee,
};
use crate::state::{Config, Custodian, Pubkey, DOMAIN_COUNT, LOCAL_DOMAIN};

verus! {

/// The protocol version of the transfers made here.
pub const CCTP_VERSION: u8 = 2;

/// What the signer approves of a transfer.
#[derive(Clone, Copy, Debug, PartialEq, Eq)]
pub struct TransferParams {
    pub cctp_version: u8,
    pub local_domain: u32,
    pub destination_domain: u32,
    pub fee: u64,
    pub deadline: u64,
    pub fee_is_native: bool,
}

impl TransferParams {
    /// The bytes that are signed: each field in turn, integers in
    /// little-endian order, the flag as one byte, nothing in between.
    pub open spec fn wire(&self) -> Seq<u8> {
        seq![self.cctp_version] + u32_le_bytes(self.local_domain) + u32_le_bytes(
            self.destination_domain,
        ) + u64_le_bytes(self.fee) + u64_le_bytes(self.deadline) + seq![
            bool_byte(self.fee_is_native),
        ]
    }

    /// Writes the parameters as they are signed.
    pub fn serialize(&self) -> (bytes: Vec<u8>)
        ensures
            bytes@ == self.wire(),
    {
        let mut bytes: Vec<u8> = Vec::new();
        bytes.push(self.cctp_version);
        push_u32_le(&mut bytes, self.local_domain);
        push_u32_le(&mut bytes, self.destination_domain);
        push_u64_le(&mut bytes, self.fee);
        push_u64_le(&mut bytes, self.deadline);
        bytes.push(
            if self.fee_is_native {
                1
            } else {
                0
            },
        );
        assert(bytes@ =~= self.wire());
        bytes
    }
}

/// The part of a request that decides whether the transfer is made and what
/// it costs.
#[derive(Clone, Copy, Debug, PartialEq, Eq)]
pub struct TransferTerms {
    pub usdc_amount: u64,
    pub destination_domain: u32,
    /// The server-side fee, in the currency that `fee_is_native` selects.
    pub fee: u64,
    /// The second after which the request is no longer served.
    pub deadline: u64,
    pub gas_drop_amount: u64,
    /// Whether server-side fee and gas drop are paid in native currency.
    pub fee_is_native: bool,
}

impl TransferTerms {
    /// What the signer has to have approved for these terms.
    pub open spec fn params(&self, cctp_version: u8) -> TransferParams {
        TransferParams {
            cctp_version,
            local_domain: LOCAL_DOMAIN,
            destination_domain: self.destination_domain,
            fee: self.fee,
            deadline: self.deadline,
            fee_is_native: self.fee_is_native,
        }
    }

    /// The message that the proof has to carry for these terms.
    pub open spec fn message(&self, cctp_version: u8) -> Seq<u8> {
        self.params(cctp_version).wire()
    }

    /// The part of the server-side fee that is paid in stablecoin.
    pub open spec fn server_fee_in_usdc(&self) -> u64 {
        if self.fee_is_native {
            0
        } else {
            self.fee
        }
    }

    /// The whole fee that is paid in stablecoin under a policy.
    pub open spec fn usdc_fee(&self, config: Config) -> int {
        total_fee(self.usdc_amount, config.fee_bp, self.server_fee_in_usdc())
    }
}

/// The two amounts that an accepted request splits into.
#[derive(Clone, Copy, Debug, PartialEq, Eq)]
pub struct Amounts {
    /// The fee paid in stablecoin.
    pub usdc_fee_amount: u64,
    /// The net amount that goes to the bridge.
    pub amount: u64,
}

/// The clock has passed the deadline.
pub open spec fn expired(unix_timestamp: i64, deadline: u64) -> bool {
    unix_timestamp as int > deadline as int
}

/// Whether a transfer is admitted. `verdict` is the verdict on the signature proof
/// for the message of the terms under the signer key of the policy. The
/// conditions are examined in this order, and the first that is violated
/// gives the error: the domain, the pause, the proof, the deadline, the fee
/// against the amount, the gas drop against its ceiling.
pub open spec fn authorization(
    config: Config,
    verdict: Result<(), Error>,
    unix_timestamp: i64,
    terms: TransferTerms,
) -> Result<Amounts, Error> {
    if terms.destination_domain >= DOMAIN_COUNT {
        Err(Error::Param(ParamError::InvalidDomain))
    } else if config.paused {
        Err(Error::Transfer(TransferError::Paused))
    } else if verdict is Err {
        Err(verdict->Err_0)
    } else if expired(unix_timestamp, terms.deadline) {
        Err(Error::Transfer(TransferError::DeadlineExpired))
    } else if terms.usdc_amount < terms.usdc_fee(config) {
        Err(Error::Transfer(TransferError::FeeExceedsAmount))
    } else if !within_ceiling(
        terms.gas_drop_amount,
        config.gas_drop_ceiling(terms.destination_domain, terms.fee_is_native),
    ) {
        Err(Error::Transfer(TransferError::GasDropLimitExceeded))
    } else {
        Ok(
            Amounts {
                usdc_fee_amount: terms.usdc_fee(config) as u64,
                amount: (terms.usdc_amount - terms.usdc_fee(config)) as u64,
            },
        )
    }
}

/// The fund movements that accepted terms call for.
pub open spec fn movements_of(terms: TransferTerms, amounts: Amounts) -> Seq<FundMovement> {
    fund_movements(
        amounts.usdc_fee_amount,
        terms.fee,
        terms.gas_drop_amount,
        terms.fee_is_native,
        amounts.amount,
    )
}

/// What has to be done for an accepted request.
#[derive(Clone, Debug, PartialEq, Eq)]
pub struct TransferPlan {
    /// The fee paid in stablecoin.
    pub usdc_fee_amount: u64,
    /// The net amount that goes to the bridge.
    pub amount: u64,
    /// The fund movements, in the order in which they are made.
    pub movements: Vec<FundMovement>,
}

impl TransferPlan {
    /// The plan holds the given amounts and the movements that they call for.
    pub open spec fn follows(&self, terms: TransferTerms, amounts: Amounts) -> bool {
        &&& self.usdc_fee_amount == amounts.usdc_fee_amount
        &&& self.amount == amounts.amount
        &&& self.movements@ == movements_of(terms, amounts)
    }
}

/// Decides whether a transfer on the given terms is made, and plans it.
/// `sibling` is the operation before the running one, where there is one.
pub fn authorize_transfer(
    config: &Config,
    sibling: &Option<Sibling>,
    unix_timestamp: i64,
    terms: &TransferTerms,
    cctp_version: u8,
) -> (r: Result<TransferPlan, Error>)
    ensures
        match authorization(
            *config,
            sibling_verdict(*sibling, terms.message(cctp_version), config.signer_key@),
            unix_timestamp,
            *terms,
        ) {
            Ok(amounts) => r matches Ok(plan) && plan.follows(*terms, amounts),
            Err(e) => r matches Err(x) && x == e,
        },
{
    if terms.destination_domain >= DOMAIN_COUNT {
        return Err(Error::Param(ParamError::InvalidDomain));
    }
    if config.paused {
        return Err(Error::Transfer(TransferError::Paused));
    }
    let params = TransferParams {
        cctp_version,
        local_domain: LOCAL_DOMAIN,
        destination_domain: terms.destination_domain,
        fee: terms.fee,
        deadline: terms.deadline,
        fee_is_native: terms.fee_is_native,
    };
    let msg: Vec<u8> = params.serialize();
    match check_sibling(sibling, msg.as_slice(), config.signer_key.as_slice()) {
        Ok(()) => {},
        Err(e) => {
            return Err(e);
        },
    }
    if unix_timestamp >= 0 && unix_timestamp as u64 > terms.deadline {
        return Err(Error::Transfer(TransferError::DeadlineExpired));
    }
    let server_fee: u64 = if terms.fee_is_native {
        0
    } else {
        terms.fee
    };
    let usdc_fee: u128 = calculate_fee(terms.usdc_amount, config.fee_bp, server_fee);
    if (terms.usdc_amount as u128) < usdc_fee {
        return Err(Error::Transfer(TransferError::FeeExceedsAmount));
    }
    let ceiling: u64 = if terms.fee_is_native {
        config.max_native_gas_drop[terms.destination_domain as usize]
    } else {
        config.max_usdc_gas_drop
    };
    if !gas_drop_within(terms.gas_drop_amount, ceiling) {
        return Err(Error::Transfer(TransferError::GasDropLimitExceeded));
    }
    let usdc_fee_amount: u64 = usdc_fee as u64;
    let amount: u64 = terms.usdc_amount - usdc_fee_amount;
    let movements: Vec<FundMovement> = plan_fund_movements(
        usdc_fee_amount,
        terms.fee,
        terms.gas_drop_amount,
        terms.fee_is_native,
        amount,
    );
    Ok(TransferPlan { usdc_fee_amount, amount, movements })
}

/// Admission and fund movements together: the amounts and the balances
/// after an accepted request whose movements all succeed, or the first
/// failure.
pub open spec fn collection(
    config: Config,
    verdict: Result<(), Error>,
    balances: Balances,
    unix_timestamp: i64,
    terms: TransferTerms,
) -> Result<(Amounts, Balances), Error> {
    match authorization(config, verdict, unix_timestamp, terms) {
        Err(e) => Err(e),
        Ok(amounts) => match balances.after_all(movements_of(terms, amounts)) {
            Err(e) => Err(Error::Host(e)),
            Ok(moved) => Ok((amounts, moved)),
        },
    }
}

/// Admits a request and moves its funds: fee and gas drop to
/// their collectors, the net amount into custody. Returns the net amount. If
/// the request is refused or a movement fails, no balance changes.
pub fn collect_funds(
    config: &Config,
    sibling: &Option<Sibling>,
    balances: &mut Balances,
    unix_timestamp: i64,
    terms: &TransferTerms,
    cctp_version: u8,
) -> (r: Result<u64, Error>)
    ensures
        match collection(
            *config,
            sibling_verdict(*sibling, terms.message(cctp_version), config.signer_key@),
            *old(balances),
            unix_timestamp,
            *terms,
        ) {
            Ok((amounts, moved)) => r == Ok::<u64, Error>(amounts.amount) && *final(balances)
                == moved,
            Err(e) => r == Err::<u64, Error>(e) && *final(balances) == *old(balances),
        },
{
    let plan: TransferPlan = match authorize_transfer(
        config,
        sibling,
        unix_timestamp,
        terms,
        cctp_version,
    ) {
        Ok(plan) => plan,
        Err(e) => {
            return Err(e);
        },
    };
    match balances.execute(&plan.movements) {
        Ok(()) => Ok(plan.amount),
        Err(e) => Err(Error::Host(e)),
    }
}

/// Admits a request and moves its funds. The proof is read from
/// `signature`, the account that lists the running batch. Returns the net
/// amount, which is then in custody. If the request is refused or a movement
/// fails, no balance changes.
pub fn pre_transfer(
    config: &Config,
    signature: &InstructionsAccount,
    balances: &mut Balances,
    usdc_amount: u64,
    destination_domain: u32,
    fee: u64,
    deadline: u64,
    gas_drop_amount: u64,
    fee_is_native: bool,
    cctp_version: u8,
    unix_timestamp: i64,
) -> (r: Result<u64, Error>)
    ensures
        ({
            let terms = TransferTerms {
                usdc_amount,
                destination_domain,
                fee,
                deadline,
                gas_drop_amount,
                fee_is_native,
            };
            match collection(
                *config,
                batch_verdict(
                    signature.key@,
                    signature.data@,
                    terms.message(cctp_version),
                    config.signer_key@,
                ),
                *old(balances),
                unix_timestamp,
                terms,
            ) {
                Ok((amounts, moved)) => r == Ok::<u64, Error>(amounts.amount) && *final(balances)
                    == moved,
                Err(e) => r == Err::<u64, Error>(e) && *final(balances) == *old(balances),
            }
        }),
{
    let terms = TransferTerms {
        usdc_amount,
        destination_domain,
        fee,
        deadline,
        gas_drop_amount,
        fee_is_native,
    };
    let sibling: Option<Sibling> = read_sibling(signature);
    proof {
        lemma_sibling_verdict(
            sibling,
            signature.key@,
            signature.data@,
            terms.message(cctp_version),
            config.signer_key@,
        );
    }
    collect_funds(config, &sibling, balances, unix_timestamp, &terms, cctp_version)
}

/// A request for a transfer.
#[derive(Clone, Copy, Debug, PartialEq, Eq)]
pub struct TransferRequest {
    pub usdc_amount: u64,
    pub destination_domain: u32,
    /// Who receives the net amount: an address of the destination network.
    pub recipient: [u8; 32],
    /// The identity from which the transfer originates.
    pub solana_owner: [u8; 32],
    /// The server-side fee, in the currency that `fee_is_native` selects.
    pub fee: u64,
    /// The second after which the request is no longer served.
    pub deadline: u64,
    pub gas_drop_amount: u64,
    /// Whether server-side fee and gas drop are paid in native currency.
    pub fee_is_native: bool,
    /// Passed on to the bridge.
    pub max_fee: u64,
    /// Passed on to the bridge.
    pub min_finality_threshold: u32,
}

impl TransferRequest {
    /// The terms of the request.
    pub open spec fn terms(&self) -> TransferTerms {
        TransferTerms {
            usdc_amount: self.usdc_amount,
            destination_domain: self.destination_domain,
            fee: self.fee,
            deadline: self.deadline,
            gas_drop_amount: self.gas_drop_amount,
            fee_is_native: self.fee_is_native,
        }
    }

    /// The burn call that hands `amount` to the bridge for this request: to
    /// the recipient on the destination domain, open to any caller there,
    /// with the finality parameters of the request.
    pub open spec fn burn(&self, amount: u64) -> DepositForBurnParams {
        DepositForBurnParams {
            amount,
            destination_domain: self.destination_domain,
            mint_recipient: self.recipient,
            destination_caller: any_caller(),
            max_fee: self.max_fee,
            min_finality_threshold: self.min_finality_threshold,
        }
    }

    /// The record of this request as the transfer number `nonce`, made by
    /// `user` with the net amount `amount`, whose bridge message lies in
    /// `cctp_message`.
    pub open spec fn event(&self, nonce: u64, user: Pubkey, amount: u64, cctp_message: Pubkey) -> TransferEvent {
        TransferEvent {
            destination_domain: self.destination_domain,
            nonce,
            recipient: self.recipient,
            solana_owner: self.solana_owner,
            user,
            amount,
            gas_drop_amount: self.gas_drop_amount,
            cctp_nonce: CCTP_V2_NONCE_TAG,
            fee_is_native: self.fee_is_native,
            cctp_message,
        }
    }

    /// Extracts the terms of the request.
    pub fn to_terms(&self) -> (terms: TransferTerms)
        ensures
            terms == self.terms(),
    {
        TransferTerms {
            usdc_amount: self.usdc_amount,
            destination_domain: self.destination_domain,
            fee: self.fee,
            deadline: self.deadline,
            gas_drop_amount: self.gas_drop_amount,
            fee_is_native: self.fee_is_native,
        }
    }

    /// Builds the parameters of the burn call that hands `amount` to the
    /// bridge.
    pub fn burn_params(&self, amount: u64) -> (params: DepositForBurnParams)
        ensures
            params == self.burn(amount),
    {
        DepositForBurnParams {
            amount,
            destination_domain: self.destination_domain,
            mint_recipient: self.recipient,
            destination_caller: [0u8; 32],
            max_fee: self.max_fee,
            min_finality_threshold: self.min_finality_threshold,
        }
    }
}

/// Counts a transfer and writes its record. The record carries the nonce
/// after the count.
pub fn record_transfer(
    config: &mut Config,
    request: &TransferRequest,
    user: Pubkey,
    amount: u64,
    cctp_message: Pubkey,
) -> (event: TransferEvent)
    requires
        old(config).nonce < u64::MAX,
    ensures
        *final(config) == (Config { nonce: (old(config).nonce + 1) as u64, ..*old(config) }),
        event == request.event((old(config).nonce + 1) as u64, user, amount, cctp_message),
{
    config.nonce = config.nonce + 1;
    TransferEvent {
        destination_domain: request.destination_domain,
        nonce: config.nonce,
        recipient: request.recipient,
        solana_owner: request.solana_owner,
        user,
        amount,
        gas_drop_amount: request.gas_drop_amount,
        cctp_nonce: CCTP_V2_NONCE_TAG,
        fee_is_native: request.fee_is_native,
        cctp_message,
    }
}

/// What a transfer leaves behind: the call made to the bridge and the record.
#[derive(Clone, Copy, Debug, PartialEq, Eq)]
pub struct TransferReceipt {
    pub event: TransferEvent,
    pub burn: DepositForBurnParams,
}

/// What a transfer works on.
#[derive(Clone, Debug, PartialEq, Eq)]
pub struct TransferV2Context {
    pub config: Config,
    pub custodian: Custodian,
    /// The requester.
    pub owner: Pubkey,
    /// The account that will hold the message of the bridge.
    pub message_sent_event_data: Pubkey,
    /// The account that lists the running batch.
    pub signature: InstructionsAccount,
    pub balances: Balances,
}

/// One call of the transfer with what the ledger supplies to it: the
/// operation before the running one, the reading of the clock, and the
/// answer that the bridge gives to the burn call if the call is reached.
#[derive(Clone, Debug, PartialEq, Eq)]
pub struct TransferCall {
    pub sibling: Option<Sibling>,
    pub request: TransferRequest,
    pub unix_timestamp: i64,
    pub bridge_accepts: bool,
}

impl TransferV2Context {
    /// The transfer as a whole. A request that is admitted, whose fund
    /// movements succeed and whose burn call the bridge accepts is settled:
    /// the funds are moved, the net amount leaves custody through the
    /// bridge, the nonce advances by one and the record is written.
    /// Everything else is an error.
    pub open spec fn settled(
        &self,
        verdict: Result<(), Error>,
        request: TransferRequest,
        unix_timestamp: i64,
        bridge_accepts: bool,
    ) -> Result<(TransferV2Context, TransferReceipt), Error> {
        match collection(self.config, verdict, self.balances, unix_timestamp, request.terms()) {
            Err(e) => Err(e),
            Ok((amounts, moved)) => if !bridge_accepts {
                Err(Error::Host(HostError::BridgeRejected))
            } else {
                let nonce = (self.config.nonce + 1) as u64;
                Ok(
                    (
                        TransferV2Context {
                            config: Config { nonce, ..self.config },
                            balances: Balances {
                                custody: (moved.custody - amounts.amount) as u64,
                                ..moved
                            },
                            ..*self
                        },
                        TransferReceipt {
                            event: request.event(
                                nonce,
                                self.owner,
                                amounts.amount,
                                self.message_sent_event_data,
                            ),
                            burn: request.burn(amounts.amount),
                        },
                    ),
                )
            },
        }
    }

    /// The outcome of one call.
    pub open spec fn outcome(&self, call: TransferCall) -> Result<
        (TransferV2Context, TransferReceipt),
        Error,
    > {
        self.settled(
            sibling_verdict(
                call.sibling,
                call.request.terms().message(CCTP_VERSION),
                self.config.signer_key@,
            ),
            call.request,
            call.unix_timestamp,
            call.bridge_accepts,
        )
    }
}

/// Movements that end with the payment into custody leave at least that
/// payment in custody.
pub proof fn lemma_custody_is_funded(before: Balances, movements: Seq<FundMovement>)
    requires
        movements.len() > 0,
        movements.last().payee == Payee::Custody,
    ensures
        before.after_all(movements) matches Ok(moved) ==> moved.custody
            >= movements.last().amount,
    decreases movements.len(),
{
    if movements.len() > 1 {
        match before.after(movements[0]) {
            Ok(next) => {
                let rest = movements.subrange(1, movements.len() as int);
                assert(rest.last() == movements.last());
                lemma_custody_is_funded(next, rest);
            },
            Err(_) => {},
        }
    } else {
        match before.after(movements[0]) {
            Ok(next) => {
                let rest = movements.subrange(1, movements.len() as int);
                assert(rest.len() == 0);
                assert(next.after_all(rest) == Ok::<Balances, HostError>(next));
            },
            Err(_) => {},
        }
    }
}

/// Makes one transfer: admits the request, moves the funds, hands the net
/// amount to the bridge, counts the transfer and writes its record. Either
/// all of this takes effect or none of it: a call that fails leaves the
/// context as it was.
pub fn settle_transfer(ctx: &mut TransferV2Context, call: &TransferCall) -> (r: Result<
    TransferReceipt,
    Error,
>)
    requires
        old(ctx).config.nonce < u64::MAX,
    ensures
        match old(ctx).outcome(*call) {
            Ok((next, receipt)) => r == Ok::<TransferReceipt, Error>(receipt) && *final(ctx)
                == next,
            Err(e) => r == Err::<TransferReceipt, Error>(e) && *final(ctx) == *old(ctx),
        },
{
    let terms: TransferTerms = call.request.to_terms();
    let mut config: Config = ctx.config;
    let mut balances: Balances = ctx.balances;
    let amount: u64 = match collect_funds(
        &config,
        &call.sibling,
        &mut balances,
        call.unix_timestamp,
        &terms,
        CCTP_VERSION,
    ) {
        Ok(amount) => amount,
        Err(e) => {
            return Err(e);
        },
    };
    if !call.bridge_accepts {
        return Err(Error::Host(HostError::BridgeRejected));
    }
    proof {
        let verdict = sibling_verdict(
            call.sibling,
            terms.message(CCTP_VERSION),
            config.signer_key@,
        );
        let amounts = authorization(config, verdict, call.unix_timestamp, terms)->Ok_0;
        let movements = movements_of(terms, amounts);
        assert(movements.last().payee == Payee::Custody);
        lemma_custody_is_funded(ctx.balances, movements);
    }
    let burn: DepositForBurnParams = call.request.burn_params(amount);
    balances.custody = balances.custody - amount;
    let event: TransferEvent = record_transfer(
        &mut config,
        &call.request,
        ctx.owner,
        amount,
        ctx.message_sent_event_data,
    );
    ctx.config = config;
    ctx.balances = balances;
    Ok(TransferReceipt { event, burn })
}

/// Makes one transfer for the request given by its fields. The proof is read
/// from the account of the context that lists the running batch;
/// `unix_timestamp` is the reading of the clock, and `bridge_accepts` the
/// answer of the bridge to the burn call if the call is reached. Either the
/// whole transfer takes effect or the context stays as it was.
pub fn transfer_v2_ix(
    ctx: &mut TransferV2Context,
    usdc_amount: u64,
    destination_domain: u32,
    recipient: [u8; 32],
    solana_owner: [u8; 32],
    fee: u64,
    deadline: u64,
    gas_drop_amount: u64,
    fee_is_native: bool,
    max_fee: u64,
    min_finality_threshold: u32,
    unix_timestamp: i64,
    bridge_accepts: bool,
) -> (r: Result<TransferReceipt, Error>)
    requires
        old(ctx).config.nonce < u64::MAX,
    ensures
        ({
            let request = TransferRequest {
                usdc_amount,
                destination_domain,
                recipient,
                solana_owner,
                fee,
                deadline,
                gas_drop_amount,
                fee_is_native,
                max_fee,
                min_finality_threshold,
            };
            match old(ctx).settled(
                batch_verdict(
                    old(ctx).signature.key@,
                    old(ctx).signature.data@,
                    request.terms().message(CCTP_VERSION),
                    old(ctx).config.signer_key@,
                ),
                request,
                unix_timestamp,
                bridge_accepts,
            ) {
                Ok((next, receipt)) => r == Ok::<TransferReceipt, Error>(receipt) && *final(ctx)
                    == next,
                Err(e) => r == Err::<TransferReceipt, Error>(e) && *final(ctx) == *old(ctx),
            }
        }),
{
    let request = TransferRequest {
        usdc_amount,
        destination_domain,
        recipient,
        solana_owner,
        fee,
        deadline,
        gas_drop_amount,
        fee_is_native,
        max_fee,
        min_finality_threshold,
    };
    let sibling: Option<Sibling> = read_sibling(&ctx.signature);
    proof {
        lemma_sibling_verdict(
            sibling,
            ctx.signature.key@,
            ctx.signature.data@,
            request.terms().message(CCTP_VERSION),
            ctx.config.signer_key@,
        );
    }
    let call = TransferCall { sibling, request, unix_timestamp, bridge_accepts };
    settle_transfer(ctx, &call)
}

/// A request is accepted exactly when its domain is valid, the service is
/// not paused, the proof is valid, the deadline has not passed, the fee does
/// not exceed the amount and the gas drop is within its ceiling. Fee and net
/// amount of an accepted request add up to the amount sent.
pub proof fn lemma_accepted_exactly_when(
    config: Config,
    verdict: Result<(), Error>,
    unix_timestamp: i64,
    terms: TransferTerms,
)
    ensures
        authorization(config, verdict, unix_timestamp, terms) is Ok <==> {
            &&& terms.destination_domain < DOMAIN_COUNT
            &&& !config.paused
            &&& verdict is Ok
            &&& !expired(unix_timestamp, terms.deadline)
            &&& terms.usdc_fee(config) <= terms.usdc_amount
            &&& within_ceiling(
                terms.gas_drop_amount,
                config.gas_drop_ceiling(terms.destination_domain, terms.fee_is_native),
            )
        },
        authorization(config, verdict, unix_timestamp, terms) matches Ok(amounts) ==> {
            &&& amounts.usdc_fee_amount == terms.usdc_fee(config)
            &&& amounts.usdc_fee_amount + amounts.amount == terms.usdc_amount
        },
{
    crate::fee::lemma_fee_bounds(terms.usdc_amount, config.fee_bp, terms.server_fee_in_usdc());
}

/// A request for a domain that is not below the number of domains is refused
/// as an invalid domain, whatever else holds of it.
pub proof fn lemma_invalid_domain_is_refused(
    config: Config,
    verdict: Result<(), Error>,
    unix_timestamp: i64,
    terms: TransferTerms,
)
    requires
        terms.destination_domain >= DOMAIN_COUNT,
    ensures
        authorization(config, verdict, unix_timestamp, terms) == Err::<Amounts, Error>(
            Error::Param(ParamError::InvalidDomain),
        ),
{
}

/// While the service is paused, every request for a valid domain is refused
/// as paused.
pub proof fn lemma_paused_is_refused(
    config: Config,
    verdict: Result<(), Error>,
    unix_timestamp: i64,
    terms: TransferTerms,
)
    requires
        terms.destination_domain < DOMAIN_COUNT,
        config.paused,
    ensures
        authorization(config, verdict, unix_timestamp, terms) == Err::<Amounts, Error>(
            Error::Transfer(TransferError::Paused),
        ),
{
}

/// A request with a valid domain and a valid proof whose deadline has passed
/// is refused as expired, unless the service is paused.
pub proof fn lemma_expired_is_refused(
    config: Config,
    verdict: Result<(), Error>,
    unix_timestamp: i64,
    terms: TransferTerms,
)
    requires
        terms.destination_domain < DOMAIN_COUNT,
        !config.paused,
        verdict is Ok,
        unix_timestamp > terms.deadline,
    ensures
        authorization(config, verdict, unix_timestamp, terms) == Err::<Amounts, Error>(
            Error::Transfer(TransferError::DeadlineExpired),
        ),
{
}

/// A request that is in order but for its gas drop, which is above a ceiling
/// that is not zero, is refused as over the limit.
pub proof fn lemma_gas_drop_over_ceiling_is_refused(
    config: Config,
    verdict: Result<(), Error>,
    unix_timestamp: i64,
    terms: TransferTerms,
)
    requires
        terms.destination_domain < DOMAIN_COUNT,
        !config.paused,
        verdict is Ok,
        !expired(unix_timestamp, terms.deadline),
        terms.usdc_fee(config) <= terms.usdc_amount,
        config.gas_drop_ceiling(terms.destination_domain, terms.fee_is_native) != 0,
        terms.gas_drop_amount > config.gas_drop_ceiling(
            terms.destination_domain,
            terms.fee_is_native,
        ),
    ensures
        authorization(config, verdict, unix_timestamp, terms) == Err::<Amounts, Error>(
            Error::Transfer(TransferError::GasDropLimitExceeded),
        ),
{
}

/// What a settled transfer does to the books. The requester pays the amount
/// sent in stablecoin and, on top of it, server-side fee and gas drop in the
/// currency of the request; the fee collectors receive the fees, the gas
/// drop collector the gas drop; the net amount passes through custody to the
/// bridge, so custody holds what it held before; and the nonce advances by
/// one.
pub proof fn lemma_settlement_effect(
    ctx: TransferV2Context,
    verdict: Result<(), Error>,
    request: TransferRequest,
    unix_timestamp: i64,
    bridge_accepts: bool,
)
    requires
        ctx.config.nonce < u64::MAX,
    ensures
        ctx.settled(verdict, request, unix_timestamp, bridge_accepts) matches Ok((next, receipt))
            ==> {
            let fee = request.terms().usdc_fee(ctx.config);
            let gas = request.gas_drop_amount;
            &&& bridge_accepts
            &&& fee <= request.usdc_amount
            &&& receipt.burn.amount == request.usdc_amount - fee
            &&& receipt.event.amount == request.usdc_amount - fee
            &&& receipt.event.nonce == ctx.config.nonce + 1
            &&& next.config.nonce == ctx.config.nonce + 1
            &&& next.balances.custody == ctx.balances.custody
            &&& next.balances.fee_collector_usdc == ctx.balances.fee_collector_usdc + fee
            &&& request.fee_is_native ==> {
                &&& next.balances.owner_usdc == ctx.balances.owner_usdc - request.usdc_amount
                &&& next.balances.owner_native == ctx.balances.owner_native - request.fee - gas
                &&& next.balances.fee_collector_sol == ctx.balances.fee_collector_sol
                    + request.fee
                &&& next.balances.gas_drop_collector_sol == ctx.balances.gas_drop_collector_sol
                    + gas
                &&& next.balances.gas_drop_collector_usdc
                    == ctx.balances.gas_drop_collector_usdc
            }
            &&& !request.fee_is_native ==> {
                &&& next.balances.owner_usdc == ctx.balances.owner_usdc - request.usdc_amount
                    - gas
                &&& next.balances.owner_native == ctx.balances.owner_native
                &&& next.balances.fee_collector_sol == ctx.balances.fee_collector_sol
                &&& next.balances.gas_drop_collector_sol == ctx.balances.gas_drop_collector_sol
                &&& next.balances.gas_drop_collector_usdc
                    == ctx.balances.gas_drop_collector_usdc + gas
            }
        },
{
    let terms = request.terms();
    if ctx.settled(verdict, request, unix_timestamp, bridge_accepts) is Ok {
        lemma_accepted_exactly_when(ctx.config, verdict, unix_timestamp, terms);
        let amounts = authorization(ctx.config, verdict, unix_timestamp, terms)->Ok_0;
        let b0 = ctx.balances;
        let m_fee = FundMovement { payee: Payee::FeeCollectorUsdc, amount: amounts.usdc_fee_amount };
        let m_last = FundMovement { payee: Payee::Custody, amount: amounts.amount };
        let empty = Seq::<FundMovement>::empty();
        let b1 = b0.after(m_fee)->Ok_0;
        if request.fee_is_native {
            let m_server = FundMovement { payee: Payee::FeeCollectorSol, amount: request.fee };
            let b2 = b1.after(m_server)->Ok_0;
            if request.gas_drop_amount == 0 {
                assert(movements_of(terms, amounts) =~= seq![m_fee] + (seq![m_server] + (seq![
                    m_last,
                ] + empty)));
                lemma_first_then_rest(b0, m_fee, seq![m_server] + (seq![m_last] + empty));
                lemma_first_then_rest(b1, m_server, seq![m_last] + empty);
                lemma_first_then_rest(b2, m_last, empty);
            } else {
                let m_gas = FundMovement {
                    payee: Payee::GasDropCollectorSol,
                    amount: request.gas_drop_amount,
                };
                let b3 = b2.after(m_gas)->Ok_0;
                assert(movements_of(terms, amounts) =~= seq![m_fee] + (seq![m_server] + (seq![
                    m_gas,
                ] + (seq![m_last] + empty))));
                lemma_first_then_rest(
                    b0,
                    m_fee,
                    seq![m_server] + (seq![m_gas] + (seq![m_last] + empty)),
                );
                lemma_first_then_rest(b1, m_server, seq![m_gas] + (seq![m_last] + empty));
                lemma_first_then_rest(b2, m_gas, seq![m_last] + empty);
                lemma_first_then_rest(b3, m_last, empty);
            }
        } else {
            if request.gas_drop_amount == 0 {
                assert(movements_of(terms, amounts) =~= seq![m_fee] + (seq![m_last] + empty));
                lemma_first_then_rest(b0, m_fee, seq![m_last] + empty);
                lemma_first_then_rest(b1, m_last, empty);
            } else {
                let m_gas = FundMovement {
                    payee: Payee::GasDropCollectorUsdc,
                    amount: request.gas_drop_amount,
                };
                let b2 = b1.after(m_gas)->Ok_0;
                assert(movements_of(terms, amounts) =~= seq![m_fee] + (seq![m_gas] + (seq![
                    m_last,
                ] + empty)));
                lemma_first_then_rest(b0, m_fee, seq![m_gas] + (seq![m_last] + empty));
                lemma_first_then_rest(b1, m_gas, seq![m_last] + empty);
                lemma_first_then_rest(b2, m_last, empty);
            }
        }
    }
}

impl TransferV2Context {
    /// The context after one call: as settled, or unchanged where the call
    /// fails.
    pub open spec fn after_call(&self, call: TransferCall) -> TransferV2Context {
        match self.outcome(call) {
            Ok((next, _)) => next,
            Err(_) => *self,
        }
    }

    /// The context after a series of calls.
    pub open spec fn after_calls(&self, calls: Seq<TransferCall>) -> TransferV2Context
        decreases calls.len(),
    {
        if calls.len() == 0 {
            *self
        } else {
            self.after_call(calls[0]).after_calls(calls.subrange(1, calls.len() as int))
        }
    }

    /// How many calls of a series succeed.
    pub open spec fn successes(&self, calls: Seq<TransferCall>) -> nat
        decreases calls.len(),
    {
        if calls.len() == 0 {
            0
        } else {
            let first: nat = if self.outcome(calls[0]) is Ok {
                1
            } else {
                0
            };
            first + self.after_call(calls[0]).successes(calls.subrange(1, calls.len() as int))
        }
    }
}

/// A call that succeeds is recorded under the nonce before it plus one, and
/// leaves that nonce behind; a call that fails leaves the nonce as it was.
pub proof fn lemma_nonce_steps_by_one(ctx: TransferV2Context, call: TransferCall)
    requires
        ctx.config.nonce < u64::MAX,
    ensures
        ctx.outcome(call) matches Ok((next, receipt)) ==> receipt.event.nonce == ctx.config.nonce
            + 1 && next.config.nonce == ctx.config.nonce + 1,
        ctx.outcome(call) is Ok ==> ctx.after_call(call).config.nonce == ctx.config.nonce + 1,
        ctx.outcome(call) is Err ==> ctx.after_call(call) == ctx,
{
    lemma_settlement_effect(
        ctx,
        sibling_verdict(
            call.sibling,
            call.request.terms().message(CCTP_VERSION),
            ctx.config.signer_key@,
        ),
        call.request,
        call.unix_timestamp,
        call.bridge_accepts,
    );
}

/// After any series of calls the nonce is the nonce before plus the number
/// of calls that succeeded: it never falls, and it counts the transfers one
/// by one. After `n` calls that all succeed it is the nonce before plus `n`.
pub proof fn lemma_nonce_counts_transfers(ctx: TransferV2Context, calls: Seq<TransferCall>)
    requires
        ctx.config.nonce + calls.len() <= u64::MAX,
    ensures
        ctx.after_calls(calls).config.nonce == ctx.config.nonce + ctx.successes(calls),
        ctx.successes(calls) <= calls.len(),
    decreases calls.len(),
{
    if calls.len() > 0 {
        lemma_nonce_steps_by_one(ctx, calls[0]);
        lemma_nonce_counts_transfers(
            ctx.after_call(calls[0]),
            calls.subrange(1, calls.len() as int),
        );
    }
}

/// Parameters that are written as the same bytes are the same parameters:
/// a proof made for one transfer covers no other.
pub proof fn lemma_wire_is_injective(p: TransferParams, q: TransferParams)
    requires
        p.wire() == q.wire(),
    ensures
        p == q,
{
    let x = p.wire();
    let y = q.wire();
    assert(x.len() == 26);
    assert(x[0] == p.cctp_version && y[0] == q.cctp_version);
    assert(x.subrange(1, 5) =~= u32_le_bytes(p.local_domain));
    assert(y.subrange(1, 5) =~= u32_le_bytes(q.local_domain));
    assert(x.subrange(5, 9) =~= u32_le_bytes(p.destination_domain));
    assert(y.subrange(5, 9) =~= u32_le_bytes(q.destination_domain));
    assert(x.subrange(9, 17) =~= u64_le_bytes(p.fee));
    assert(y.subrange(9, 17) =~= u64_le_bytes(q.fee));
    assert(x.subrange(17, 25) =~= u64_le_bytes(p.deadline));
    assert(y.subrange(17, 25) =~= u64_le_bytes(q.deadline));
    assert(x[25] == bool_byte(p.fee_is_native) && y[25] == bool_byte(q.fee_is_native));
    lemma_u32_le_bytes_injective(p.local_domain, q.local_domain);
    lemma_u32_le_bytes_injective(p.destination_domain, q.destination_domain);
    lemma_u64_le_bytes_injective(p.fee, q.fee);
    lemma_u64_le_bytes_injective(p.deadline, q.deadline);
}

/// A request whose proof carries another key than the signer key of the
/// policy is refused as an invalid signature, provided that its domain is
/// valid and the service is not paused.
pub proof fn lemma_proof_under_other_key_is_refused(
    config: Config,
    sibling: Sibling,
    unix_timestamp: i64,
    terms: TransferTerms,
    cctp_version: u8,
)
    requires
        terms.destination_domain < DOMAIN_COUNT,
        !config.paused,
        holds_key(sibling),
        proof_public_key(sibling.data@) != config.signer_key@,
    ensures
        authorization(
            config,
            sibling_verdict(Some(sibling), terms.message(cctp_version), config.signer_key@),
            unix_timestamp,
            terms,
        ) == Err::<Amounts, Error>(Error::Signature(SignatureVerificationError::InvalidSignature)),
{
    lemma_foreign_key_is_refused(sibling, terms.message(cctp_version), config.signer_key@);
}

/// A request whose proof carries, under the signer key, a message that is
/// not the serialization of its terms is refused as invalid message data,
/// provided that its domain is valid and the service is not paused.
pub proof fn lemma_proof_of_other_message_is_refused(
    config: Config,
    sibling: Sibling,
    unix_timestamp: i64,
    terms: TransferTerms,
    cctp_version: u8,
)
    requires
        terms.destination_domain < DOMAIN_COUNT,
        !config.paused,
        holds_key(sibling),
        proof_public_key(sibling.data@) == config.signer_key@,
        sibling.data@.len() >= 112,
        !holds_message(sibling.data@) || proof_message(sibling.data@) != terms.message(
            cctp_version,
        ),
    ensures
        authorization(
            config,
            sibling_verdict(Some(sibling), terms.message(cctp_version), config.signer_key@),
            unix_timestamp,
            terms,
        ) == Err::<Amounts, Error>(
            Error::Signature(SignatureVerificationError::InvalidMessageData),
        ),
{
    lemma_foreign_message_is_refused(sibling, terms.message(cctp_version), config.signer_key@);
}

/// A proof that is accepted for two requests was made for the same
/// destination, fee, deadline and fee mode: what the signer approved cannot
/// be spent on other terms.
pub proof fn lemma_proof_covers_one_set_of_terms(
    sibling: Sibling,
    pub_key: Seq<u8>,
    first: TransferTerms,
    second: TransferTerms,
    cctp_version: u8,
)
    requires
        sibling.verdict(first.message(cctp_version), pub_key) is Ok,
        sibling.verdict(second.message(cctp_version), pub_key) is Ok,
    ensures
        first.destination_domain == second.destination_domain,
        first.fee == second.fee,
        first.deadline == second.deadline,
        first.fee_is_native == second.fee_is_native,
{
    lemma_wire_is_injective(first.params(cctp_version), second.params(cctp_version));
}

} // verus!
