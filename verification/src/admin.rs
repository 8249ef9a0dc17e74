//! Administrative calls: each one changes a part of the policy, and only for
//! the owner.

use vstd::prelude::*;
use crate::bytes::keys_equal;
use crate::errors::ParamError;
use crate::state::{Config, Pubkey, DOMAIN_COUNT, MAX_FEE_BP};

verus! {

/// What an administrative call works on: the policy and the caller.
#[derive(Clone, Copy, Debug, PartialEq, Eq)]
pub struct ConfigContext {
    pub config: Config,
    /// The identity that signed the call.
    pub owner: Pubkey,
}

/// What a change of owner works on: the policy and the caller.
#[derive(Clone, Copy, Debug, PartialEq, Eq)]
pub struct TransferOwnershipContext {
    pub config: Config,
    /// The identity that signed the call.
    pub owner: Pubkey,
}

impl ConfigContext {
    /// The caller is the owner of the policy.
    pub open spec fn authorized(&self) -> bool {
        self.owner@ == self.config.owner@
    }
}

impl TransferOwnershipContext {
    /// The caller is the owner of the policy.
    pub open spec fn authorized(&self) -> bool {
        self.owner@ == self.config.owner@
    }
}

/// Pauses or resumes the service.
pub fn set_paused_ix(ctx: &mut ConfigContext, paused: bool) -> (r: Result<(), ParamError>)
    ensures
        old(ctx).authorized() ==> r == Ok::<(), ParamError>(()) && *final(ctx) == (ConfigContext {
            config: (Config { paused, ..old(ctx).config }),
            ..*old(ctx)
        }),
        !old(ctx).authorized() ==> r == Err::<(), ParamError>(ParamError::AdminUnauthorized)
            && *final(ctx) == *old(ctx),
{
    if !keys_equal(&ctx.owner, &ctx.config.owner) {
        return Err(ParamError::AdminUnauthorized);
    }
    ctx.config.paused = paused;
    Ok(())
}

/// Sets the fee rate, in basis points. A rate above one percent is refused.
pub fn set_fee_bp_ix(ctx: &mut ConfigContext, fee_bp: u64) -> (r: Result<(), ParamError>)
    ensures
        !old(ctx).authorized() ==> r == Err::<(), ParamError>(ParamError::AdminUnauthorized)
            && *final(ctx) == *old(ctx),
        old(ctx).authorized() && fee_bp > MAX_FEE_BP ==> r == Err::<(), ParamError>(
            ParamError::FeeTooHigh,
        ) && *final(ctx) == *old(ctx),
        old(ctx).authorized() && fee_bp <= MAX_FEE_BP ==> r == Ok::<(), ParamError>(())
            && *final(ctx) == (ConfigContext {
            config: (Config { fee_bp, ..old(ctx).config }),
            ..*old(ctx)
        }),
        final(ctx).config.wf() == (old(ctx).config.wf() || r is Ok),
{
    if !keys_equal(&ctx.owner, &ctx.config.owner) {
        return Err(ParamError::AdminUnauthorized);
    }
    if fee_bp > MAX_FEE_BP {
        return Err(ParamError::FeeTooHigh);
    }
    ctx.config.fee_bp = fee_bp;
    Ok(())
}

/// Replaces the key whose signature authorizes transfers.
pub fn set_signer_key_ix(ctx: &mut ConfigContext, signer_key: [u8; 32]) -> (r: Result<
    (),
    ParamError,
>)
    ensures
        old(ctx).authorized() ==> r == Ok::<(), ParamError>(()) && *final(ctx) == (ConfigContext {
            config: (Config { signer_key, ..old(ctx).config }),
            ..*old(ctx)
        }),
        !old(ctx).authorized() ==> r == Err::<(), ParamError>(ParamError::AdminUnauthorized)
            && *final(ctx) == *old(ctx),
{
    if !keys_equal(&ctx.owner, &ctx.config.owner) {
        return Err(ParamError::AdminUnauthorized);
    }
    ctx.config.signer_key = signer_key;
    Ok(())
}

/// Names the two identities that receive fees.
pub fn set_fee_collector_ix(
    ctx: &mut ConfigContext,
    fee_collector_sol: Pubkey,
    fee_collector_usdc: Pubkey,
) -> (r: Result<(), ParamError>)
    ensures
        old(ctx).authorized() ==> r == Ok::<(), ParamError>(()) && *final(ctx) == (ConfigContext {
            config: (Config { fee_collector_sol, fee_collector_usdc, ..old(ctx).config }),
            ..*old(ctx)
        }),
        !old(ctx).authorized() ==> r == Err::<(), ParamError>(ParamError::AdminUnauthorized)
            && *final(ctx) == *old(ctx),
{
    if !keys_equal(&ctx.owner, &ctx.config.owner) {
        return Err(ParamError::AdminUnauthorized);
    }
    ctx.config.fee_collector_sol = fee_collector_sol;
    ctx.config.fee_collector_usdc = fee_collector_usdc;
    Ok(())
}

/// Names the two identities that receive gas drops.
pub fn set_gas_drop_collector_ix(
    ctx: &mut ConfigContext,
    gas_drop_collector_sol: Pubkey,
    gas_drop_collector_usdc: Pubkey,
) -> (r: Result<(), ParamError>)
    ensures
        old(ctx).authorized() ==> r == Ok::<(), ParamError>(()) && *final(ctx) == (ConfigContext {
            config: (Config {
                gas_drop_collector_sol,
                gas_drop_collector_usdc,
                ..old(ctx).config
            }),
            ..*old(ctx)
        }),
        !old(ctx).authorized() ==> r == Err::<(), ParamError>(ParamError::AdminUnauthorized)
            && *final(ctx) == *old(ctx),
{
    if !keys_equal(&ctx.owner, &ctx.config.owner) {
        return Err(ParamError::AdminUnauthorized);
    }
    ctx.config.gas_drop_collector_sol = gas_drop_collector_sol;
    ctx.config.gas_drop_collector_usdc = gas_drop_collector_usdc;
    Ok(())
}

/// Sets the ceiling on a gas drop paid in stablecoin; zero lifts it.
pub fn set_max_usdc_gas_drop_ix(ctx: &mut ConfigContext, max_gas: u64) -> (r: Result<
    (),
    ParamError,
>)
    ensures
        old(ctx).authorized() ==> r == Ok::<(), ParamError>(()) && *final(ctx) == (ConfigContext {
            config: (Config { max_usdc_gas_drop: max_gas, ..old(ctx).config }),
            ..*old(ctx)
        }),
        !old(ctx).authorized() ==> r == Err::<(), ParamError>(ParamError::AdminUnauthorized)
            && *final(ctx) == *old(ctx),
{
    if !keys_equal(&ctx.owner, &ctx.config.owner) {
        return Err(ParamError::AdminUnauthorized);
    }
    ctx.config.max_usdc_gas_drop = max_gas;
    Ok(())
}

/// Sets the ceiling on a native gas drop towards one destination domain;
/// zero lifts it. The domain is examined before the caller.
pub fn set_max_native_gas_drop_ix(
    ctx: &mut ConfigContext,
    destination_domain: u32,
    max_gas: u64,
) -> (r: Result<(), ParamError>)
    ensures
        destination_domain >= DOMAIN_COUNT ==> r == Err::<(), ParamError>(
            ParamError::InvalidDomain,
        ) && *final(ctx) == *old(ctx),
        destination_domain < DOMAIN_COUNT && !old(ctx).authorized() ==> r == Err::<
            (),
            ParamError,
        >(ParamError::AdminUnauthorized) && *final(ctx) == *old(ctx),
        destination_domain < DOMAIN_COUNT && old(ctx).authorized() ==> r == Ok::<(), ParamError>(
            (),
        ) && final(ctx).config.max_native_gas_drop@ == old(
            ctx,
        ).config.max_native_gas_drop@.update(destination_domain as int, max_gas) && *final(ctx)
            == (ConfigContext {
            config: (Config {
                max_native_gas_drop: final(ctx).config.max_native_gas_drop,
                ..old(ctx).config
            }),
            ..*old(ctx)
        }),
{
    if destination_domain >= DOMAIN_COUNT {
        return Err(ParamError::InvalidDomain);
    }
    if !keys_equal(&ctx.owner, &ctx.config.owner) {
        return Err(ParamError::AdminUnauthorized);
    }
    ctx.config.max_native_gas_drop[destination_domain as usize] = max_gas;
    Ok(())
}

/// Hands the policy over to a new owner.
pub fn transfer_ownership_ix(ctx: &mut TransferOwnershipContext, new_owner: Pubkey) -> (r: Result<
    (),
    ParamError,
>)
    ensures
        old(ctx).authorized() ==> r == Ok::<(), ParamError>(()) && *final(ctx) == (
        TransferOwnershipContext {
            config: (Config { owner: new_owner, ..old(ctx).config }),
            ..*old(ctx)
        }),
        !old(ctx).authorized() ==> r == Err::<(), ParamError>(ParamError::AdminUnauthorized)
            && *final(ctx) == *old(ctx),
{
    if !keys_equal(&ctx.owner, &ctx.config.owner) {
        return Err(ParamError::AdminUnauthorized);
    }
    ctx.config.owner = new_owner;
    Ok(())
}

} // verus!
