//! The CPMM swap engine: prices a buy or sell of either outcome by holding
//! the product of the two virtual reserves invariant, up to integer
//! rounding, and reports how both reserves move.
//!
//! Every swap has the same shape: one reserve (the grown side) takes in an
//! amount, and the other (the kept side) shrinks to `floor(k / grown_new)`
//! where `k` is the pre-trade reserve product; the difference is paid out.
//! All products are taken in 128-bit intermediates before the narrowing
//! checks, and every division floors.

use vstd::prelude::*;

use crate::errors::PredictionError;

verus! {

/// The kept reserve after the grown side of a constant-product pool takes
/// in `amt`: floor(kept * grown / (grown + amt)).
pub open spec fn spec_shrunk_pool(kept: int, grown: int, amt: int) -> int {
    kept * grown / (grown + amt)
}

/// What a swap pays out of the kept side.
pub open spec fn spec_swap_out(kept: int, grown: int, amt: int) -> int {
    kept - spec_shrunk_pool(kept, grown, amt)
}

/// The shrunk reserve stays between 0 and the kept reserve, and an input of
/// zero leaves it exactly in place.
pub proof fn lemma_shrunk_pool_bounds(kept: int, grown: int, amt: int)
    requires
        0 < kept,
        0 < grown,
        0 <= amt,
    ensures
        0 <= spec_shrunk_pool(kept, grown, amt) <= kept,
        amt == 0 ==> spec_shrunk_pool(kept, grown, amt) == kept,
        0 <= spec_swap_out(kept, grown, amt) <= kept,
{
    assert(0 <= kept * grown) by (nonlinear_arith)
        requires 0 < kept && 0 < grown;
    vstd::arithmetic::div_mod::lemma_div_pos_is_pos(kept * grown, grown + amt);
    vstd::arithmetic::div_mod::lemma_div_is_ordered_by_denominator(
        kept * grown,
        grown,
        grown + amt,
    );
    assert(kept * grown == grown * kept) by (nonlinear_arith);
    vstd::arithmetic::div_mod::lemma_div_multiples_vanish(kept, grown);
}

/// Buy YES shares: the NO reserve takes in the net collateral and the YES
/// reserve shrinks; the difference is the shares paid out.
///
/// Errors: `InvalidLiquidity` when either reserve is zero;
/// `MathOverflow` when the grown NO reserve no longer fits the 64-bit
/// working unit.
pub fn cpmm_buy_yes(yes_pool: u64, no_pool: u64, net_in: u64) -> (r: Result<
    (u64, u64, u64),
    PredictionError,
>)
    ensures
        yes_pool == 0 || no_pool == 0 ==> r == Err::<(u64, u64, u64), PredictionError>(
            PredictionError::InvalidLiquidity,
        ),
        yes_pool > 0 && no_pool > 0 && no_pool + net_in > u64::MAX ==> r == Err::<
            (u64, u64, u64),
            PredictionError,
        >(PredictionError::MathOverflow),
        yes_pool > 0 && no_pool > 0 && no_pool + net_in <= u64::MAX ==> r == Ok::<
            (u64, u64, u64),
            PredictionError,
        >(
            (
                spec_shrunk_pool(yes_pool as int, no_pool as int, net_in as int) as u64,
                (no_pool + net_in) as u64,
                spec_swap_out(yes_pool as int, no_pool as int, net_in as int) as u64,
            ),
        ),
{
    if yes_pool == 0 || no_pool == 0 {
        return Err(PredictionError::InvalidLiquidity);
    }
    let x: u128 = yes_pool as u128;
    let y: u128 = no_pool as u128;
    proof {
        assert((x as int) * (y as int) <= (u64::MAX as int) * (u64::MAX as int))
            by (nonlinear_arith)
            requires x <= u64::MAX as int && y <= u64::MAX as int && 0 <= x && 0 <= y;
        lemma_shrunk_pool_bounds(x as int, y as int, net_in as int);
    }
    let k: u128 = x * y;
    let y_new: u128 = y + (net_in as u128);
    let x_new: u128 = k / y_new;
    let out: u128 = x - x_new;
    if y_new > u64::MAX as u128 {
        return Err(PredictionError::MathOverflow);
    }
    Ok((x_new as u64, y_new as u64, out as u64))
}

/// Buy NO shares: the YES reserve takes in the net collateral and the NO
/// reserve shrinks; the difference is the shares paid out.
///
/// Errors: `InvalidLiquidity` when either reserve is zero;
/// `MathOverflow` when the grown YES reserve no longer fits the 64-bit
/// working unit.
pub fn cpmm_buy_no(yes_pool: u64, no_pool: u64, net_in: u64) -> (r: Result<
    (u64, u64, u64),
    PredictionError,
>)
    ensures
        yes_pool == 0 || no_pool == 0 ==> r == Err::<(u64, u64, u64), PredictionError>(
            PredictionError::InvalidLiquidity,
        ),
        yes_pool > 0 && no_pool > 0 && yes_pool + net_in > u64::MAX ==> r == Err::<
            (u64, u64, u64),
            PredictionError,
        >(PredictionError::MathOverflow),
        yes_pool > 0 && no_pool > 0 && yes_pool + net_in <= u64::MAX ==> r == Ok::<
            (u64, u64, u64),
            PredictionError,
        >(
            (
                (yes_pool + net_in) as u64,
                spec_shrunk_pool(no_pool as int, yes_pool as int, net_in as int) as u64,
                spec_swap_out(no_pool as int, yes_pool as int, net_in as int) as u64,
            ),
        ),
{
    if yes_pool == 0 || no_pool == 0 {
        return Err(PredictionError::InvalidLiquidity);
    }
    let x: u128 = no_pool as u128;
    let y: u128 = yes_pool as u128;
    proof {
        assert((x as int) * (y as int) <= (u64::MAX as int) * (u64::MAX as int))
            by (nonlinear_arith)
            requires x <= u64::MAX as int && y <= u64::MAX as int && 0 <= x && 0 <= y;
        lemma_shrunk_pool_bounds(x as int, y as int, net_in as int);
    }
    let k: u128 = x * y;
    let y_new: u128 = y + (net_in as u128);
    let x_new: u128 = k / y_new;
    let out: u128 = x - x_new;
    if y_new > u64::MAX as u128 {
        return Err(PredictionError::MathOverflow);
    }
    Ok((y_new as u64, x_new as u64, out as u64))
}

/// Sell YES shares: the YES reserve takes the shares back and the NO
/// reserve shrinks; the difference is the gross collateral paid out.
///
/// Errors: `InvalidLiquidity` when either reserve is zero;
/// `MathOverflow` when the grown YES reserve no longer fits the 64-bit
/// working unit.
pub fn cpmm_sell_yes(yes_pool: u64, no_pool: u64, shares_in: u64) -> (r: Result<
    (u64, u64, u64),
    PredictionError,
>)
    ensures
        yes_pool == 0 || no_pool == 0 ==> r == Err::<(u64, u64, u64), PredictionError>(
            PredictionError::InvalidLiquidity,
        ),
        yes_pool > 0 && no_pool > 0 && yes_pool + shares_in > u64::MAX ==> r == Err::<
            (u64, u64, u64),
            PredictionError,
        >(PredictionError::MathOverflow),
        yes_pool > 0 && no_pool > 0 && yes_pool + shares_in <= u64::MAX ==> r == Ok::<
            (u64, u64, u64),
            PredictionError,
        >(
            (
                (yes_pool + shares_in) as u64,
                spec_shrunk_pool(no_pool as int, yes_pool as int, shares_in as int) as u64,
                spec_swap_out(no_pool as int, yes_pool as int, shares_in as int) as u64,
            ),
        ),
{
    if yes_pool == 0 || no_pool == 0 {
        return Err(PredictionError::InvalidLiquidity);
    }
    let x: u128 = yes_pool as u128;
    let y: u128 = no_pool as u128;
    proof {
        assert((y as int) * (x as int) <= (u64::MAX as int) * (u64::MAX as int))
            by (nonlinear_arith)
            requires x <= u64::MAX as int && y <= u64::MAX as int && 0 <= x && 0 <= y;
        assert((x as int) * (y as int) == (y as int) * (x as int)) by (nonlinear_arith);
        lemma_shrunk_pool_bounds(y as int, x as int, shares_in as int);
    }
    let k: u128 = x * y;
    let x_new: u128 = x + (shares_in as u128);
    let y_new: u128 = k / x_new;
    let out: u128 = y - y_new;
    if x_new > u64::MAX as u128 {
        return Err(PredictionError::MathOverflow);
    }
    Ok((x_new as u64, y_new as u64, out as u64))
}

/// Sell NO shares: the NO reserve takes the shares back and the YES reserve
/// shrinks; the difference is the gross collateral paid out.
///
/// Errors: `InvalidLiquidity` when either reserve is zero;
/// `MathOverflow` when the grown NO reserve no longer fits the 64-bit
/// working unit.
pub fn cpmm_sell_no(yes_pool: u64, no_pool: u64, shares_in: u64) -> (r: Result<
    (u64, u64, u64),
    PredictionError,
>)
    ensures
        yes_pool == 0 || no_pool == 0 ==> r == Err::<(u64, u64, u64), PredictionError>(
            PredictionError::InvalidLiquidity,
        ),
        yes_pool > 0 && no_pool > 0 && no_pool + shares_in > u64::MAX ==> r == Err::<
            (u64, u64, u64),
            PredictionError,
        >(PredictionError::MathOverflow),
        yes_pool > 0 && no_pool > 0 && no_pool + shares_in <= u64::MAX ==> r == Ok::<
            (u64, u64, u64),
            PredictionError,
        >(
            (
                spec_shrunk_pool(yes_pool as int, no_pool as int, shares_in as int) as u64,
                (no_pool + shares_in) as u64,
                spec_swap_out(yes_pool as int, no_pool as int, shares_in as int) as u64,
            ),
        ),
{
    if yes_pool == 0 || no_pool == 0 {
        return Err(PredictionError::InvalidLiquidity);
    }
    let x: u128 = no_pool as u128;
    let y: u128 = yes_pool as u128;
    proof {
        assert((y as int) * (x as int) <= (u64::MAX as int) * (u64::MAX as int))
            by (nonlinear_arith)
            requires x <= u64::MAX as int && y <= u64::MAX as int && 0 <= x && 0 <= y;
        assert((x as int) * (y as int) == (y as int) * (x as int)) by (nonlinear_arith);
        lemma_shrunk_pool_bounds(y as int, x as int, shares_in as int);
    }
    let k: u128 = x * y;
    let x_new: u128 = x + (shares_in as u128);
    let y_new: u128 = k / x_new;
    let out: u128 = y - y_new;
    if x_new > u64::MAX as u128 {
        return Err(PredictionError::MathOverflow);
    }
    Ok((y_new as u64, x_new as u64, out as u64))
}

} // verus!
