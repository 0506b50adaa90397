//! The laws of the market: what holds of every trade and every settlement,
//! proved once against the operations' contracts.

use vstd::prelude::*;

use crate::cpmm::{spec_shrunk_pool, spec_swap_out};
use crate::errors::PredictionError;
use crate::fees::{lemma_fee_bounds, spec_fee};
use crate::market::{
    spec_buy_error, spec_buy_grown_pool, spec_buy_kept_pool, spec_buy_market, spec_buy_net_in,
    spec_buy_old_side_shares, spec_buy_position, spec_buy_shares_out, spec_claim_error,
    spec_sell_error, spec_sell_gross_out, spec_sell_grown_pool, spec_sell_market,
    spec_sell_position, MarketV2, PositionV2,
};

verus! {

/// Rounding characterization of one constant-product swap: the product of
/// the reserves after the swap never exceeds the product before it, and
/// falls short of it by strictly less than the grown reserve (the divisor
/// of the floored quotient).
pub proof fn lemma_swap_product_bounds(kept: int, grown: int, amt: int)
    requires
        0 < kept,
        0 < grown,
        0 <= amt,
    ensures
        spec_shrunk_pool(kept, grown, amt) * (grown + amt) <= kept * grown,
        kept * grown < (spec_shrunk_pool(kept, grown, amt) + 1) * (grown + amt),
{
    let k = kept * grown;
    let d = grown + amt;
    let q = k / d;
    assert(0 < kept * grown) by (nonlinear_arith)
        requires 0 < kept && 0 < grown;
    vstd::arithmetic::div_mod::lemma_fundamental_div_mod(k, d);
    vstd::arithmetic::div_mod::lemma_mod_bound(k, d);
    assert(q * d == d * q) by (nonlinear_arith);
    assert((q + 1) * d == d * q + d) by (nonlinear_arith);
}

/// A buy keeps the reserve product constant modulo integer rounding: it
/// never raises it, and lowers it by strictly less than the grown reserve.
/// (No fee is retained in the reserves on a buy — the input fee stays in
/// the vault as pure backing gain.)
pub proof fn lemma_buy_product_within_rounding(
    m: MarketV2,
    market_key: u64,
    p: PositionV2,
    user: u64,
    now: i64,
    outcome_index: u8,
    gross_in: u64,
    min_shares_out: u64,
)
    requires
        spec_buy_error(m, market_key, p, user, now, outcome_index, gross_in, min_shares_out)
            is None,
    ensures
        ({
            let m2 = spec_buy_market(m, outcome_index, gross_in);
            &&& m2.yes_pool * m2.no_pool <= m.yes_pool * m.no_pool
            &&& m.yes_pool * m.no_pool < m2.yes_pool * m2.no_pool + spec_buy_grown_pool(
                m2,
                outcome_index,
            )
        }),
{
    let kept = spec_buy_kept_pool(m, outcome_index);
    let grown = spec_buy_grown_pool(m, outcome_index);
    let net = spec_buy_net_in(gross_in);
    lemma_fee_bounds(gross_in as int);
    lemma_swap_product_bounds(kept, grown, net);
    crate::cpmm::lemma_shrunk_pool_bounds(kept, grown, net);
    let m2 = spec_buy_market(m, outcome_index, gross_in);
    let q = spec_shrunk_pool(kept, grown, net);
    let d = grown + net;
    assert((q + 1) * d == q * d + d) by (nonlinear_arith);
    if outcome_index == 0 {
        assert(m2.yes_pool * m2.no_pool == q * d);
        assert(m.yes_pool * m.no_pool == kept * grown);
    } else {
        assert(m2.yes_pool * m2.no_pool == d * q);
        assert(d * q == q * d) by (nonlinear_arith);
        assert(m.yes_pool * m.no_pool == grown * kept);
        assert(grown * kept == kept * grown) by (nonlinear_arith);
    }
}

/// A sell lowers the reserve product by strictly less than the grown
/// reserve, and whenever any fee at all is withheld from the payout and
/// re-credited, the product strictly rises: retained fees only ever add
/// to the pool's backing.
pub proof fn lemma_sell_product_within_rounding(
    m: MarketV2,
    market_key: u64,
    p: PositionV2,
    user: u64,
    now: i64,
    outcome_index: u8,
    shares_in: u64,
    min_collateral_out: u64,
)
    requires
        spec_sell_error(m, market_key, p, user, now, outcome_index, shares_in, min_collateral_out)
            is None,
    ensures
        ({
            let m2 = spec_sell_market(m, outcome_index, shares_in);
            &&& m.yes_pool * m.no_pool < m2.yes_pool * m2.no_pool + spec_sell_grown_pool(
                m2,
                outcome_index,
            )
            &&& spec_fee(spec_sell_gross_out(m, outcome_index, shares_in)) >= 1 ==> m.yes_pool
                * m.no_pool < m2.yes_pool * m2.no_pool
        }),
{
    let kept = if outcome_index == 0 {
        m.no_pool as int
    } else {
        m.yes_pool as int
    };
    let grown = if outcome_index == 0 {
        m.yes_pool as int
    } else {
        m.no_pool as int
    };
    let fee = spec_fee(spec_sell_gross_out(m, outcome_index, shares_in));
    lemma_swap_product_bounds(kept, grown, shares_in as int);
    crate::cpmm::lemma_shrunk_pool_bounds(kept, grown, shares_in as int);
    lemma_fee_bounds(spec_sell_gross_out(m, outcome_index, shares_in));
    let m2 = spec_sell_market(m, outcome_index, shares_in);
    let q = spec_shrunk_pool(kept, grown, shares_in as int);
    let d = grown + shares_in;
    assert(spec_sell_gross_out(m, outcome_index, shares_in) == kept - q);
    assert((q + fee) * d == q * d + fee * d) by (nonlinear_arith);
    assert(fee >= 1 ==> fee * d >= d) by (nonlinear_arith)
        requires d > 0;
    assert(fee >= 0 ==> fee * d >= 0) by (nonlinear_arith)
        requires d > 0;
    assert((q + 1) * d == q * d + d) by (nonlinear_arith);
    if outcome_index == 0 {
        assert(m2.yes_pool * m2.no_pool == d * (q + fee));
        assert(d * (q + fee) == (q + fee) * d) by (nonlinear_arith);
        assert(m.yes_pool * m.no_pool == grown * kept);
        assert(grown * kept == kept * grown) by (nonlinear_arith);
    } else {
        assert(m2.yes_pool * m2.no_pool == (q + fee) * d);
        assert(m.yes_pool * m.no_pool == kept * grown);
    }
}

/// A larger input into the same swap never pays out fewer units.
pub proof fn lemma_swap_out_monotone(kept: int, grown: int, amt1: int, amt2: int)
    requires
        0 < kept,
        0 < grown,
        0 <= amt1 <= amt2,
    ensures
        spec_swap_out(kept, grown, amt1) <= spec_swap_out(kept, grown, amt2),
{
    assert(0 <= kept * grown) by (nonlinear_arith)
        requires 0 < kept && 0 < grown;
    vstd::arithmetic::div_mod::lemma_div_is_ordered_by_denominator(
        kept * grown,
        grown + amt1,
        grown + amt2,
    );
}

/// A buy's realized output never exceeds what the same constant-product
/// swap would pay on the gross input before the fee is deducted, and
/// never exceeds the bought reserve itself.
pub proof fn lemma_buy_output_at_most_pre_fee(m: MarketV2, outcome_index: u8, gross_in: u64)
    requires
        m.yes_pool > 0,
        m.no_pool > 0,
    ensures
        spec_buy_shares_out(m, outcome_index, gross_in) <= spec_swap_out(
            spec_buy_kept_pool(m, outcome_index),
            spec_buy_grown_pool(m, outcome_index),
            gross_in as int,
        ),
        spec_buy_shares_out(m, outcome_index, gross_in) <= spec_buy_kept_pool(m, outcome_index),
{
    let kept = spec_buy_kept_pool(m, outcome_index);
    let grown = spec_buy_grown_pool(m, outcome_index);
    lemma_fee_bounds(gross_in as int);
    lemma_swap_out_monotone(kept, grown, spec_buy_net_in(gross_in), gross_in as int);
    crate::cpmm::lemma_shrunk_pool_bounds(kept, grown, spec_buy_net_in(gross_in));
}

/// Buying and immediately selling back never profits, wherever the fee
/// covers the rounding slack: if buying YES leaves a positive YES reserve
/// and the input fee times the bought reserve outweighs the grown reserve
/// plus the bought reserve, then selling the acquired shares back at the
/// post-buy reserves returns strictly less collateral than was paid in.
/// (Against dust reserves the floored divisions can round in the trader's
/// favour by more than the fee, so a slack bound of this shape is needed.)
pub proof fn lemma_round_trip_loses(x: u64, y: u64, gross_in: u64)
    requires
        0 < x,
        0 < y,
        0 < gross_in,
        x * y >= y + spec_buy_net_in(gross_in),
        y + spec_buy_net_in(gross_in) + x - 2 < x * spec_fee(gross_in as int),
    ensures
        ({
            let n = spec_buy_net_in(gross_in);
            let x2 = spec_shrunk_pool(x as int, y as int, n);
            let s = spec_swap_out(x as int, y as int, n);
            let gross_out = spec_swap_out(y + n, x2, s);
            gross_out - spec_fee(gross_out) < gross_in
        }),
{
    let g = gross_in as int;
    let fee_b = spec_fee(g);
    lemma_fee_bounds(g);
    let n = spec_buy_net_in(gross_in);
    let yp = y + n;
    let x2 = spec_shrunk_pool(x as int, y as int, n);
    let s = spec_swap_out(x as int, y as int, n);
    vstd::arithmetic::div_mod::lemma_fundamental_div_mod(x * y, yp);
    vstd::arithmetic::div_mod::lemma_mod_bound(x * y, yp);
    let r1 = (x * y) % yp;
    // the bought reserve stays positive, so the sell is priced off
    // positive reserves
    vstd::arithmetic::div_mod::lemma_div_is_ordered(yp, x * y, yp);
    vstd::arithmetic::div_mod::lemma_div_by_self(yp);
    assert(x2 >= 1);
    // selling s shares returns the bought reserve to exactly x
    assert(x2 + s == x);
    let q2 = spec_shrunk_pool(yp, x2, s);
    assert(q2 == (yp * x2) / (x2 + s));
    vstd::arithmetic::div_mod::lemma_fundamental_div_mod(yp * x2, x as int);
    vstd::arithmetic::div_mod::lemma_mod_bound(yp * x2, x as int);
    let r2 = (yp * x2) % (x as int);
    // x * (y - q2) collapses to the two rounding remainders
    assert(yp * x2 == x * y - r1) by (nonlinear_arith)
        requires x * y == yp * x2 + r1;
    assert((x as int) * q2 == yp * x2 - r2);
    assert((x as int) * (y - q2) == (x as int) * y - (x as int) * q2) by (nonlinear_arith);
    assert((x as int) * (y - q2) == r1 + r2);
    // the fee bound turns the remainder bound into a strict price bound
    assert(r1 + r2 < x * fee_b);
    assert((x as int) * (y - q2) < (x as int) * fee_b ==> y - q2 < fee_b) by (nonlinear_arith)
        requires 0 < x;
    let gross_out = spec_swap_out(yp, x2, s);
    assert(gross_out == yp - q2);
    assert(gross_out < g);
    assert(0 <= y - q2) by (nonlinear_arith)
        requires (x as int) * (y - q2) == r1 + r2 && 0 <= r1 && 0 <= r2 && 0 < x;
    lemma_fee_bounds(gross_out);
}

/// A buy moves the market's share totals and the buyer's position in
/// lockstep: the bought side's total and the position's balance grow by
/// exactly the shares paid out, and the other side of both records does
/// not move — so a total that equalled the sum of that side over all
/// positions still does.
pub proof fn lemma_buy_conserves_share_accounting(
    m: MarketV2,
    market_key: u64,
    p: PositionV2,
    user: u64,
    now: i64,
    outcome_index: u8,
    gross_in: u64,
    min_shares_out: u64,
)
    requires
        spec_buy_error(m, market_key, p, user, now, outcome_index, gross_in, min_shares_out)
            is None,
    ensures
        ({
            let m2 = spec_buy_market(m, outcome_index, gross_in);
            let shares = spec_buy_shares_out(m, outcome_index, gross_in);
            let p2 = spec_buy_position(p, market_key, user, outcome_index, shares);
            &&& outcome_index == 0 ==> m2.total_yes_shares == m.total_yes_shares + shares
                && p2.yes_shares == spec_buy_old_side_shares(p, outcome_index) + shares
                && m2.total_no_shares == m.total_no_shares && p2.no_shares == (if p.owner == 0 {
                0
            } else {
                p.no_shares as int
            })
            &&& outcome_index != 0 ==> m2.total_no_shares == m.total_no_shares + shares
                && p2.no_shares == spec_buy_old_side_shares(p, outcome_index) + shares
                && m2.total_yes_shares == m.total_yes_shares && p2.yes_shares == (if p.owner == 0 {
                0
            } else {
                p.yes_shares as int
            })
        }),
{
    lemma_fee_bounds(gross_in as int);
    crate::cpmm::lemma_shrunk_pool_bounds(
        spec_buy_kept_pool(m, outcome_index),
        spec_buy_grown_pool(m, outcome_index),
        spec_buy_net_in(gross_in),
    );
}

/// A sell burns shares from the market total and the seller's position in
/// lockstep: the sold side of both records falls by exactly the shares
/// sold, and the other side of both does not move.
pub proof fn lemma_sell_conserves_share_accounting(
    m: MarketV2,
    market_key: u64,
    p: PositionV2,
    user: u64,
    now: i64,
    outcome_index: u8,
    shares_in: u64,
    min_collateral_out: u64,
)
    requires
        spec_sell_error(m, market_key, p, user, now, outcome_index, shares_in, min_collateral_out)
            is None,
    ensures
        ({
            let m2 = spec_sell_market(m, outcome_index, shares_in);
            let p2 = spec_sell_position(p, outcome_index, shares_in);
            &&& outcome_index == 0 ==> m2.total_yes_shares == m.total_yes_shares - shares_in
                && p2.yes_shares == p.yes_shares - shares_in && m2.total_no_shares
                == m.total_no_shares && p2.no_shares == p.no_shares
            &&& outcome_index != 0 ==> m2.total_no_shares == m.total_no_shares - shares_in
                && p2.no_shares == p.no_shares - shares_in && m2.total_yes_shares
                == m.total_yes_shares && p2.yes_shares == p.yes_shares
        }),
{
}

/// The winning-share balances of a set of distinct claimants, summed.
pub open spec fn spec_sum_shares(shares: Seq<u64>) -> int
    decreases shares.len(),
{
    if shares.len() == 0 {
        0
    } else {
        shares[0] + spec_sum_shares(shares.drop_first())
    }
}

/// The pro-rata payouts those claimants receive from a resolved vault
/// balance `vault` against a winning-share snapshot `total`, summed. Each
/// summand is exactly the payout `claim_winnings_v2` computes for a
/// position holding that balance.
pub open spec fn spec_sum_payouts(vault: int, total: int, shares: Seq<u64>) -> int
    decreases shares.len(),
{
    if shares.len() == 0 {
        0
    } else {
        vault * shares[0] / total + spec_sum_payouts(vault, total, shares.drop_first())
    }
}

/// Each floored payout keeps `total * payout` within `total - 1` below the
/// exact product, summed over all claimants.
proof fn lemma_sum_payouts_bounds(vault: int, total: int, shares: Seq<u64>)
    requires
        0 <= vault,
        0 < total,
    ensures
        total * spec_sum_payouts(vault, total, shares) <= vault * spec_sum_shares(shares),
        total * spec_sum_payouts(vault, total, shares) >= vault * spec_sum_shares(shares) - (total
            - 1) * shares.len(),
    decreases shares.len(),
{
    if shares.len() == 0 {
        assert(total * 0 == 0) by (nonlinear_arith);
        assert(vault * 0 == 0) by (nonlinear_arith);
        assert((total - 1) * 0 == 0) by (nonlinear_arith);
    } else {
        let s0 = shares[0] as int;
        let rest = shares.drop_first();
        lemma_sum_payouts_bounds(vault, total, rest);
        let p0 = vault * s0 / total;
        let pr = spec_sum_payouts(vault, total, rest);
        let sr = spec_sum_shares(rest);
        assert(0 <= vault * s0) by (nonlinear_arith)
            requires 0 <= vault && 0 <= s0;
        vstd::arithmetic::div_mod::lemma_fundamental_div_mod(vault * s0, total);
        vstd::arithmetic::div_mod::lemma_mod_bound(vault * s0, total);
        assert(total * (p0 + pr) == total * p0 + total * pr) by (nonlinear_arith);
        assert(total * p0 == vault * s0 - (vault * s0) % total);
        assert(vault * (s0 + sr) == vault * s0 + vault * sr) by (nonlinear_arith);
        assert((total - 1) * (rest.len() + 1) == (total - 1) * rest.len() + (total - 1))
            by (nonlinear_arith);
        assert(spec_sum_payouts(vault, total, shares) == p0 + pr);
        assert(spec_sum_shares(shares) == s0 + sr);
        assert(shares.len() == rest.len() + 1);
    }
}

/// Pro-rata settlement is solvent and nearly exact: however many distinct
/// claimants there are, if their winning-share balances sum to at most the
/// resolved winning-share snapshot, their floored payouts sum to at most
/// the resolved vault balance; and when the balances exhaust the snapshot
/// exactly, the undistributed residue of rounding dust is strictly less
/// than the number of claimants.
pub proof fn lemma_claims_bounded(vault: u64, total: u64, shares: Seq<u64>)
    requires
        total > 0,
        spec_sum_shares(shares) <= total,
    ensures
        spec_sum_payouts(vault as int, total as int, shares) <= vault,
        spec_sum_shares(shares) == total ==> vault - spec_sum_payouts(
            vault as int,
            total as int,
            shares,
        ) < shares.len(),
{
    let v = vault as int;
    let t = total as int;
    let sp = spec_sum_payouts(v, t, shares);
    let ss = spec_sum_shares(shares);
    lemma_sum_payouts_bounds(v, t, shares);
    assert(v * ss <= v * t) by (nonlinear_arith)
        requires 0 <= v && ss <= t;
    assert(v * t == t * v) by (nonlinear_arith);
    assert(t * sp <= t * v ==> sp <= v) by (nonlinear_arith)
        requires t > 0;
    if ss == t {
        if shares.len() == 0 {
            assert(ss == 0);
        } else {
            assert(t * sp >= v * t - (t - 1) * shares.len());
            assert(v * t - (t - 1) * shares.len() > t * (v - shares.len())) by (nonlinear_arith)
                requires t > 0 && shares.len() >= 1;
            assert(t * sp > t * (v - shares.len()) ==> sp > v - shares.len()) by (nonlinear_arith)
                requires t > 0;
        }
    }
}

/// A position that has claimed can never claim again: whatever else has
/// changed, a further claim is refused, and — since a resolved market is
/// terminal, so its status and winner never move again — the refusal is
/// precisely the already-claimed condition.
pub proof fn lemma_claim_at_most_once(m: MarketV2, market_key: u64, p: PositionV2, user: u64)
    requires
        p.claimed,
    ensures
        spec_claim_error(m, market_key, p, user) is Some,
        m.status is Resolved && m.winning_outcome is Some ==> spec_claim_error(
            m,
            market_key,
            p,
            user,
        ) == Some(PredictionError::AlreadyClaimed),
{
}

} // verus!
