//! Fee computation and gas-drop ceilings.

use vstd::prelude::*;

verus! {

/// Number of basis points in the whole.
pub const BASIS_POINTS: u64 = 10000;

/// The percentage fee: `usdc_amount * fee_bp / 10000`, rounded down.
pub open spec fn percentage_fee(usdc_amount: u64, fee_bp: u64) -> int {
    (usdc_amount as int * fee_bp as int) / (BASIS_POINTS as int)
}

/// The fee taken in stablecoin: the percentage fee plus the server-side fee.
/// The caller passes `fee == 0` when the server-side fee is paid in native
/// currency.
pub open spec fn total_fee(usdc_amount: u64, fee_bp: u64, fee: u64) -> int {
    percentage_fee(usdc_amount, fee_bp) + fee as int
}

/// A gas drop is within a ceiling when the ceiling is zero (no limit) or the
/// amount does not exceed it.
pub open spec fn within_ceiling(gas_drop_amount: u64, ceiling: u64) -> bool {
    ceiling == 0 || gas_drop_amount <= ceiling
}

/// Computes the stablecoin fee of a transfer. The result is wide enough to
/// hold the fee for every input, so no input overflows.
pub fn calculate_fee(usdc_amount: u64, fee_bp: u64, fee: u64) -> (fee_amount: u128)
    ensures
        fee_amount as int == total_fee(usdc_amount, fee_bp, fee),
{
    assert(usdc_amount as int * fee_bp as int <= 0xffff_ffff_ffff_ffff * 0xffff_ffff_ffff_ffff)
        by (nonlinear_arith)
        requires
            0 <= usdc_amount as int <= 0xffff_ffff_ffff_ffff,
            0 <= fee_bp as int <= 0xffff_ffff_ffff_ffff,
    ;
    let product: u128 = (usdc_amount as u128) * (fee_bp as u128);
    let percentage: u128 = product / (BASIS_POINTS as u128);
    percentage + (fee as u128)
}

/// Tells whether a gas drop respects a ceiling, where zero means no limit.
pub fn gas_drop_within(gas_drop_amount: u64, ceiling: u64) -> (ok: bool)
    ensures
        ok == within_ceiling(gas_drop_amount, ceiling),
{
    ceiling == 0 || gas_drop_amount <= ceiling
}

/// The fee never falls when the amount grows.
pub proof fn lemma_fee_is_monotonic(smaller: u64, larger: u64, fee_bp: u64, fee: u64)
    requires
        smaller <= larger,
    ensures
        percentage_fee(smaller, fee_bp) <= percentage_fee(larger, fee_bp),
        total_fee(smaller, fee_bp, fee) <= total_fee(larger, fee_bp, fee),
{
    assert(smaller as int * fee_bp as int <= larger as int * fee_bp as int) by (nonlinear_arith)
        requires
            smaller <= larger,
            0 <= fee_bp,
    ;
    vstd::arithmetic::div_mod::lemma_div_is_ordered(
        smaller as int * fee_bp as int,
        larger as int * fee_bp as int,
        10000,
    );
}

/// The percentage fee is the exact share rounded down: it is never above
/// `usdc_amount * fee_bp / 10000` and less than one unit below it. So the
/// whole fee is at most that share plus the server-side fee, and under a
/// rate of at most one percent the percentage fee is at most a hundredth of
/// the amount.
pub proof fn lemma_fee_bounds(usdc_amount: u64, fee_bp: u64, fee: u64)
    ensures
        0 <= percentage_fee(usdc_amount, fee_bp),
        percentage_fee(usdc_amount, fee_bp) * 10000 <= usdc_amount * fee_bp,
        usdc_amount * fee_bp < (percentage_fee(usdc_amount, fee_bp) + 1) * 10000,
        total_fee(usdc_amount, fee_bp, fee) <= (usdc_amount * fee_bp) / 10000 + fee,
        fee_bp <= 100 ==> percentage_fee(usdc_amount, fee_bp) <= usdc_amount / 100,
        fee_bp <= 100 ==> percentage_fee(usdc_amount, fee_bp) <= usdc_amount,
{
    let product: int = usdc_amount as int * fee_bp as int;
    assert(0 <= product) by (nonlinear_arith)
        requires
            product == usdc_amount as int * fee_bp as int,
            0 <= usdc_amount,
            0 <= fee_bp,
    ;
    vstd::arithmetic::div_mod::lemma_fundamental_div_mod(product, 10000);
    vstd::arithmetic::div_mod::lemma_mod_bound(product, 10000);
    vstd::arithmetic::div_mod::lemma_div_pos_is_pos(product, 10000);
    if fee_bp <= 100 {
        assert(product <= usdc_amount as int * 100) by (nonlinear_arith)
            requires
                product == usdc_amount as int * fee_bp as int,
                0 <= usdc_amount,
                fee_bp <= 100,
        ;
        vstd::arithmetic::div_mod::lemma_div_is_ordered(product, usdc_amount as int * 100, 10000);
        assert((usdc_amount as int * 100) / 10000 == usdc_amount as int / 100) by {
            vstd::arithmetic::div_mod::lemma_div_denominator(usdc_amount as int * 100, 100, 100);
            vstd::arithmetic::div_mod::lemma_div_multiples_vanish(usdc_amount as int, 100);
        }
    }
}

/// A gas drop equal to its ceiling is within it, one above a ceiling that is
/// not zero is not, and under a ceiling of zero every gas drop is.
pub proof fn lemma_ceiling(gas_drop_amount: u64, ceiling: u64)
    ensures
        within_ceiling(ceiling, ceiling),
        within_ceiling(gas_drop_amount, 0),
        ceiling != 0 && gas_drop_amount == ceiling + 1 ==> !within_ceiling(
            gas_drop_amount,
            ceiling,
        ),
        ceiling != 0 ==> (within_ceiling(gas_drop_amount, ceiling) <==> gas_drop_amount
            <= ceiling),
{
}

} // verus!
