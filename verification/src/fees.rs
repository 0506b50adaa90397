//! The fee model: a basis-point fee charged on the collateral a trade puts
//! in (buys) or pays out (sells).

use vstd::prelude::*;

verus! {

/// Fee rate in basis points (parts per `BPS_DENOM`) charged on trades.
pub const FEE_BPS: u64 = 50;

/// Denominator of the basis-point scale.
pub const BPS_DENOM: u64 = 10_000;

/// The fee retained out of a gross amount: floor(gross * FEE_BPS / BPS_DENOM).
pub open spec fn spec_fee(gross: int) -> int {
    gross * (FEE_BPS as int) / (BPS_DENOM as int)
}

/// The fee never exceeds the gross amount it is charged on.
pub proof fn lemma_fee_bounds(gross: int)
    requires
        0 <= gross,
    ensures
        0 <= spec_fee(gross) <= gross,
{
    assert(0 <= gross * (FEE_BPS as int)) by (nonlinear_arith)
        requires 0 <= gross;
    assert(gross * (FEE_BPS as int) <= gross * (BPS_DENOM as int)) by (nonlinear_arith)
        requires 0 <= gross;
    vstd::arithmetic::div_mod::lemma_div_is_ordered(
        gross * (FEE_BPS as int),
        gross * (BPS_DENOM as int),
        BPS_DENOM as int,
    );
    vstd::arithmetic::div_mod::lemma_div_multiples_vanish(gross, BPS_DENOM as int);
    assert(gross * (BPS_DENOM as int) == (BPS_DENOM as int) * gross) by (nonlinear_arith);
    vstd::arithmetic::div_mod::lemma_div_pos_is_pos(gross * (FEE_BPS as int), BPS_DENOM as int);
}

/// Split a gross collateral input into the net amount that takes part in the
/// swap and the fee retained by the vault.
pub fn apply_fee_in(gross_in: u64) -> (r: (u64, u64))
    ensures
        r.1 == spec_fee(gross_in as int),
        r.0 + r.1 == gross_in,
{
    proof {
        lemma_fee_bounds(gross_in as int);
    }
    let fee_wide: u128 = (gross_in as u128) * (FEE_BPS as u128) / (BPS_DENOM as u128);
    let fee: u64 = fee_wide as u64;
    (gross_in - fee, fee)
}

/// Split a gross collateral output into the net amount paid to the seller
/// and the fee withheld, which the market re-credits to its reserves.
pub fn apply_fee_out(gross_out: u64) -> (r: (u64, u64))
    ensures
        r.1 == spec_fee(gross_out as int),
        r.0 + r.1 == gross_out,
{
    proof {
        lemma_fee_bounds(gross_out as int);
    }
    let fee_wide: u128 = (gross_out as u128) * (FEE_BPS as u128) / (BPS_DENOM as u128);
    let fee: u64 = fee_wide as u64;
    (gross_out - fee, fee)
}

} // verus!
