//! The market lifecycle state machine and the settlement engine.
//!
//! A [`MarketV2`] record and the [`PositionV2`] records that reference it
//! are the only mutable state. Each operation validates every precondition
//! first and only then mutates, so a failed operation leaves both records
//! exactly as they were. The host around this core owns custody and
//! identity: account identities are abstract numeric handles it assigns
//! (`0` stands for "unset" and is never a real account), it reads the clock
//! and the vault balance, and it moves collateral by the amounts these
//! operations return.

use vstd::prelude::*;

use crate::cpmm;
use crate::cpmm::{spec_shrunk_pool, spec_swap_out};
use crate::errors::PredictionError;
use crate::fees;
use crate::fees::spec_fee;

verus! {

/// The longest permitted market question, in characters.
pub const MAX_QUESTION_LEN: usize = 256;

/// Where a market stands in its life: trading, settled, or withdrawn.
///
/// `Cancelled` is declared for completeness; no operation of this core
/// produces it.
#[derive(Clone, Copy, Debug, PartialEq, Eq, Structural)]
pub enum MarketStatus {
    Open,
    Resolved,
    Cancelled,
}

/// One of the two tradable outcomes.
#[derive(Clone, Copy, Debug, PartialEq, Eq, Structural)]
pub enum Outcome {
    Yes,
    No,
}

/// What a caller supplies to open a market.
#[derive(Clone)]
pub struct CreateMarketCpmmArgs {
    /// Caller-chosen identifier, unique per creating authority.
    pub market_id: u64,
    /// Free-text question the market settles, at most
    /// `MAX_QUESTION_LEN` characters.
    pub question: String,
    /// Absolute deadline; trading is disallowed at or after this instant.
    pub end_time: i64,
    /// Starting size of each virtual reserve; the vault is backed with
    /// twice this amount.
    pub initial_liquidity: u64,
}

/// One prediction market: identity, deadline, virtual reserves, share
/// totals, and the settlement snapshot taken at resolution.
#[derive(Clone)]
pub struct MarketV2 {
    /// Caller-chosen identifier, unique per creating authority.
    pub market_id: u64,
    /// The account permitted to resolve this market.
    pub authority: u64,
    /// Free-text question the market settles.
    pub question: String,
    /// Token type the market accepts as collateral.
    pub collateral_mint: u64,
    /// Handle of the pooled collateral balance backing the market.
    pub vault: u64,
    /// Absolute deadline; trading is disallowed at or after this instant.
    pub end_time: i64,
    /// Where the market stands in its life.
    pub status: MarketStatus,
    /// Absent while trading; the winning outcome once resolved.
    pub winning_outcome: Option<Outcome>,
    /// Virtual YES reserve, in collateral units.
    pub yes_pool: u64,
    /// Virtual NO reserve, in collateral units.
    pub no_pool: u64,
    /// Outstanding YES shares summed over every position.
    pub total_yes_shares: u64,
    /// Outstanding NO shares summed over every position.
    pub total_no_shares: u64,
    /// Vault balance captured exactly once at resolution; zero before.
    pub resolved_vault_balance: u64,
    /// Winning-share total captured exactly once at resolution; zero
    /// before.
    pub resolved_total_winning_shares: u64,
}

/// One owner's stake in one market, created lazily on first buy.
#[derive(Clone)]
pub struct PositionV2 {
    /// The market this position belongs to.
    pub market: u64,
    /// The account that owns these shares; `0` marks a fresh, untouched
    /// record.
    pub owner: u64,
    /// Outstanding YES shares held.
    pub yes_shares: u64,
    /// Outstanding NO shares held.
    pub no_shares: u64,
    /// Whether the payout was already claimed; set once, never reset.
    pub claimed: bool,
}

impl MarketV2 {
    /// Well-formedness: the question is within bounds, an open market has
    /// no winner and no settlement snapshot, and a resolved market records
    /// a winner and a positive winning-share snapshot. Constructors
    /// establish it and every operation preserves it.
    pub open spec fn wf(self) -> bool {
        &&& self.question@.len() <= MAX_QUESTION_LEN
        &&& self.status is Open ==> {
            &&& self.winning_outcome is None
            &&& self.resolved_vault_balance == 0
            &&& self.resolved_total_winning_shares == 0
        }
        &&& self.status is Resolved ==> {
            &&& self.winning_outcome is Some
            &&& self.resolved_total_winning_shares > 0
        }
    }
}

// ---------------------------------------------------------------------
// create
// ---------------------------------------------------------------------

/// Why `create_market_cpmm` refuses, or `None` when it succeeds.
pub open spec fn spec_create_error(args: CreateMarketCpmmArgs) -> Option<PredictionError> {
    if args.initial_liquidity == 0 {
        Some(PredictionError::InvalidLiquidity)
    } else if args.question@.len() > MAX_QUESTION_LEN {
        Some(PredictionError::QuestionTooLong)
    } else if 2 * args.initial_liquidity > u64::MAX {
        Some(PredictionError::MathOverflow)
    } else {
        None
    }
}

/// The market record a successful creation writes.
pub open spec fn spec_created_market(
    args: CreateMarketCpmmArgs,
    authority: u64,
    collateral_mint: u64,
    vault: u64,
) -> MarketV2 {
    MarketV2 {
        market_id: args.market_id,
        authority: authority,
        question: args.question,
        collateral_mint: collateral_mint,
        vault: vault,
        end_time: args.end_time,
        status: MarketStatus::Open,
        winning_outcome: None,
        yes_pool: args.initial_liquidity,
        no_pool: args.initial_liquidity,
        total_yes_shares: 0,
        total_no_shares: 0,
        resolved_vault_balance: 0,
        resolved_total_winning_shares: 0,
    }
}

/// Open a new YES/NO market with symmetric reserves.
///
/// On success returns the market record and the collateral backing the
/// host must deposit into the vault: twice the initial liquidity, so the
/// backing covers both symmetric reserves.
pub fn create_market_cpmm(
    args: CreateMarketCpmmArgs,
    authority: u64,
    collateral_mint: u64,
    vault: u64,
) -> (r: Result<(MarketV2, u64), PredictionError>)
    ensures
        match r {
            Ok(created) => {
                &&& spec_create_error(args) is None
                &&& created.0 == spec_created_market(args, authority, collateral_mint, vault)
                &&& created.1 == 2 * args.initial_liquidity
                &&& created.0.wf()
            },
            Err(e) => Some(e) == spec_create_error(args),
        },
{
    if args.initial_liquidity == 0 {
        return Err(PredictionError::InvalidLiquidity);
    }
    if args.question.as_str().unicode_len() > MAX_QUESTION_LEN {
        return Err(PredictionError::QuestionTooLong);
    }
    if args.initial_liquidity > u64::MAX / 2 {
        return Err(PredictionError::MathOverflow);
    }
    let backing: u64 = 2 * args.initial_liquidity;
    let market = MarketV2 {
        market_id: args.market_id,
        authority: authority,
        question: args.question,
        collateral_mint: collateral_mint,
        vault: vault,
        end_time: args.end_time,
        status: MarketStatus::Open,
        winning_outcome: None,
        yes_pool: args.initial_liquidity,
        no_pool: args.initial_liquidity,
        total_yes_shares: 0,
        total_no_shares: 0,
        resolved_vault_balance: 0,
        resolved_total_winning_shares: 0,
    };
    Ok((market, backing))
}

// ---------------------------------------------------------------------
// buy
// ---------------------------------------------------------------------

/// The net collateral that takes part in a buy, after the input fee.
pub open spec fn spec_buy_net_in(gross_in: u64) -> int {
    gross_in - spec_fee(gross_in as int)
}

/// The reserve a buy pays collateral into: the opposite side of the
/// outcome bought.
pub open spec fn spec_buy_grown_pool(m: MarketV2, outcome_index: u8) -> int {
    if outcome_index == 0 {
        m.no_pool as int
    } else {
        m.yes_pool as int
    }
}

/// The reserve a buy takes shares out of: the side of the outcome bought.
pub open spec fn spec_buy_kept_pool(m: MarketV2, outcome_index: u8) -> int {
    if outcome_index == 0 {
        m.yes_pool as int
    } else {
        m.no_pool as int
    }
}

/// The shares a buy pays out.
pub open spec fn spec_buy_shares_out(m: MarketV2, outcome_index: u8, gross_in: u64) -> int {
    spec_swap_out(
        spec_buy_kept_pool(m, outcome_index),
        spec_buy_grown_pool(m, outcome_index),
        spec_buy_net_in(gross_in),
    )
}

/// The share balance of the bought side that the buy starts from: zero for
/// a fresh position, the held balance otherwise.
pub open spec fn spec_buy_old_side_shares(p: PositionV2, outcome_index: u8) -> int {
    if p.owner == 0 {
        0
    } else if outcome_index == 0 {
        p.yes_shares as int
    } else {
        p.no_shares as int
    }
}

/// The outstanding market total of the bought side before the buy.
pub open spec fn spec_buy_old_total(m: MarketV2, outcome_index: u8) -> int {
    if outcome_index == 0 {
        m.total_yes_shares as int
    } else {
        m.total_no_shares as int
    }
}

/// Why `buy_shares` refuses, or `None` when it succeeds. The checks stand
/// in the order the operation makes them.
pub open spec fn spec_buy_error(
    m: MarketV2,
    market_key: u64,
    p: PositionV2,
    user: u64,
    now: i64,
    outcome_index: u8,
    gross_in: u64,
    min_shares_out: u64,
) -> Option<PredictionError> {
    if !(m.status is Open) {
        Some(PredictionError::InvalidMarketStatus)
    } else if now >= m.end_time {
        Some(PredictionError::MarketExpired)
    } else if outcome_index > 1 {
        Some(PredictionError::InvalidOutcome)
    } else if gross_in == 0 {
        Some(PredictionError::ZeroAmount)
    } else if m.yes_pool == 0 || m.no_pool == 0 {
        Some(PredictionError::InvalidLiquidity)
    } else if spec_buy_grown_pool(m, outcome_index) + spec_buy_net_in(gross_in) > u64::MAX {
        Some(PredictionError::MathOverflow)
    } else if spec_buy_shares_out(m, outcome_index, gross_in) < min_shares_out {
        Some(PredictionError::SlippageExceeded)
    } else if spec_buy_shares_out(m, outcome_index, gross_in) == 0 {
        Some(PredictionError::ZeroSharesOut)
    } else if p.owner != 0 && p.market != market_key {
        Some(PredictionError::PositionMarketMismatch)
    } else if p.owner != 0 && p.owner != user {
        Some(PredictionError::PositionOwnerMismatch)
    } else if spec_buy_old_side_shares(p, outcome_index) + spec_buy_shares_out(
        m,
        outcome_index,
        gross_in,
    ) > u64::MAX {
        Some(PredictionError::MathOverflow)
    } else if spec_buy_old_total(m, outcome_index) + spec_buy_shares_out(m, outcome_index, gross_in)
        > u64::MAX {
        Some(PredictionError::MathOverflow)
    } else {
        None
    }
}

/// The market record a successful buy writes: the traded-against reserve
/// grows by the net input, the bought reserve shrinks by the constant
/// product, and the bought side's share total grows by the shares out.
pub open spec fn spec_buy_market(m: MarketV2, outcome_index: u8, gross_in: u64) -> MarketV2 {
    let net = spec_buy_net_in(gross_in);
    let shares = spec_buy_shares_out(m, outcome_index, gross_in);
    if outcome_index == 0 {
        MarketV2 {
            yes_pool: spec_shrunk_pool(m.yes_pool as int, m.no_pool as int, net) as u64,
            no_pool: (m.no_pool + net) as u64,
            total_yes_shares: (m.total_yes_shares + shares) as u64,
            ..m
        }
    } else {
        MarketV2 {
            yes_pool: (m.yes_pool + net) as u64,
            no_pool: spec_shrunk_pool(m.no_pool as int, m.yes_pool as int, net) as u64,
            total_no_shares: (m.total_no_shares + shares) as u64,
            ..m
        }
    }
}

/// The position record a successful buy writes: a fresh record is bound to
/// the market and owner first, then the bought side's balance grows by the
/// shares out.
pub open spec fn spec_buy_position(
    p: PositionV2,
    market_key: u64,
    user: u64,
    outcome_index: u8,
    shares: int,
) -> PositionV2 {
    let base = if p.owner == 0 {
        PositionV2 { market: market_key, owner: user, yes_shares: 0, no_shares: 0, claimed: false }
    } else {
        p
    };
    if outcome_index == 0 {
        PositionV2 { yes_shares: (base.yes_shares + shares) as u64, ..base }
    } else {
        PositionV2 { no_shares: (base.no_shares + shares) as u64, ..base }
    }
}

/// Buy YES (0) or NO (1) shares by paying `max_collateral_in` collateral.
///
/// The fee is taken from the input; only the net amount takes part in the
/// swap. On success returns the shares paid out, and the host must move
/// the full gross input from the buyer to the vault — the untouched fee
/// remainder is pure backing gain. A fresh position (owner `0`) is bound
/// to this market and owner; an existing one must already match both.
pub fn buy_shares(
    market: &mut MarketV2,
    market_key: u64,
    position: &mut PositionV2,
    user: u64,
    now: i64,
    outcome_index: u8,
    max_collateral_in: u64,
    min_shares_out: u64,
) -> (r: Result<u64, PredictionError>)
    ensures
        match r {
            Ok(shares_out) => {
                &&& spec_buy_error(
                    *old(market),
                    market_key,
                    *old(position),
                    user,
                    now,
                    outcome_index,
                    max_collateral_in,
                    min_shares_out,
                ) is None
                &&& shares_out == spec_buy_shares_out(
                    *old(market),
                    outcome_index,
                    max_collateral_in,
                )
                &&& *final(market) == spec_buy_market(*old(market), outcome_index, max_collateral_in)
                &&& *final(position) == spec_buy_position(
                    *old(position),
                    market_key,
                    user,
                    outcome_index,
                    spec_buy_shares_out(*old(market), outcome_index, max_collateral_in),
                )
            },
            Err(e) => {
                &&& Some(e) == spec_buy_error(
                    *old(market),
                    market_key,
                    *old(position),
                    user,
                    now,
                    outcome_index,
                    max_collateral_in,
                    min_shares_out,
                )
                &&& *final(market) == *old(market)
                &&& *final(position) == *old(position)
            },
        },
        old(market).wf() ==> final(market).wf(),
{
    if market.status != MarketStatus::Open {
        return Err(PredictionError::InvalidMarketStatus);
    }
    if now >= market.end_time {
        return Err(PredictionError::MarketExpired);
    }
    if outcome_index > 1 {
        return Err(PredictionError::InvalidOutcome);
    }
    if max_collateral_in == 0 {
        return Err(PredictionError::ZeroAmount);
    }
    let (net_in, _fee) = fees::apply_fee_in(max_collateral_in);
    let swap = if outcome_index == 0 {
        cpmm::cpmm_buy_yes(market.yes_pool, market.no_pool, net_in)
    } else {
        cpmm::cpmm_buy_no(market.yes_pool, market.no_pool, net_in)
    };
    let (new_yes, new_no, shares_out) = match swap {
        Ok(t) => t,
        Err(e) => {
            return Err(e);
        },
    };
    proof {
        fees::lemma_fee_bounds(max_collateral_in as int);
        if outcome_index == 0 {
            cpmm::lemma_shrunk_pool_bounds(
                market.yes_pool as int,
                market.no_pool as int,
                spec_buy_net_in(max_collateral_in),
            );
        } else {
            cpmm::lemma_shrunk_pool_bounds(
                market.no_pool as int,
                market.yes_pool as int,
                spec_buy_net_in(max_collateral_in),
            );
        }
    }
    if shares_out < min_shares_out {
        return Err(PredictionError::SlippageExceeded);
    }
    if shares_out == 0 {
        return Err(PredictionError::ZeroSharesOut);
    }
    if position.owner != 0 {
        if position.market != market_key {
            return Err(PredictionError::PositionMarketMismatch);
        }
        if position.owner != user {
            return Err(PredictionError::PositionOwnerMismatch);
        }
    }
    let old_side: u64 = if position.owner == 0 {
        0
    } else if outcome_index == 0 {
        position.yes_shares
    } else {
        position.no_shares
    };
    if old_side > u64::MAX - shares_out {
        return Err(PredictionError::MathOverflow);
    }
    let old_total: u64 = if outcome_index == 0 {
        market.total_yes_shares
    } else {
        market.total_no_shares
    };
    if old_total > u64::MAX - shares_out {
        return Err(PredictionError::MathOverflow);
    }
    if position.owner == 0 {
        position.market = market_key;
        position.owner = user;
        position.yes_shares = 0;
        position.no_shares = 0;
        position.claimed = false;
    }
    market.yes_pool = new_yes;
    market.no_pool = new_no;
    if outcome_index == 0 {
        position.yes_shares = old_side + shares_out;
        market.total_yes_shares = old_total + shares_out;
    } else {
        position.no_shares = old_side + shares_out;
        market.total_no_shares = old_total + shares_out;
    }
    Ok(shares_out)
}

// ---------------------------------------------------------------------
// sell
// ---------------------------------------------------------------------

/// The caller's held balance of the outcome being sold.
pub open spec fn spec_sell_held_shares(p: PositionV2, outcome_index: u8) -> int {
    if outcome_index == 0 {
        p.yes_shares as int
    } else {
        p.no_shares as int
    }
}

/// The reserve a sell returns shares into: the side of the outcome sold.
pub open spec fn spec_sell_grown_pool(m: MarketV2, outcome_index: u8) -> int {
    if outcome_index == 0 {
        m.yes_pool as int
    } else {
        m.no_pool as int
    }
}

/// The reserve a sell draws collateral from: the opposite side of the
/// outcome sold.
pub open spec fn spec_sell_kept_pool(m: MarketV2, outcome_index: u8) -> int {
    if outcome_index == 0 {
        m.no_pool as int
    } else {
        m.yes_pool as int
    }
}

/// The gross collateral a sell draws out of the pool, before the fee.
pub open spec fn spec_sell_gross_out(m: MarketV2, outcome_index: u8, shares_in: u64) -> int {
    spec_swap_out(
        spec_sell_kept_pool(m, outcome_index),
        spec_sell_grown_pool(m, outcome_index),
        shares_in as int,
    )
}

/// The net collateral actually paid to the seller, after the output fee.
pub open spec fn spec_sell_net_out(m: MarketV2, outcome_index: u8, shares_in: u64) -> int {
    spec_sell_gross_out(m, outcome_index, shares_in) - spec_fee(
        spec_sell_gross_out(m, outcome_index, shares_in),
    )
}

/// The outstanding market total of the sold side before the sell.
pub open spec fn spec_sell_old_total(m: MarketV2, outcome_index: u8) -> int {
    if outcome_index == 0 {
        m.total_yes_shares as int
    } else {
        m.total_no_shares as int
    }
}

/// Why `sell_shares` refuses, or `None` when it succeeds. The checks stand
/// in the order the operation makes them.
pub open spec fn spec_sell_error(
    m: MarketV2,
    market_key: u64,
    p: PositionV2,
    user: u64,
    now: i64,
    outcome_index: u8,
    shares_in: u64,
    min_collateral_out: u64,
) -> Option<PredictionError> {
    if !(m.status is Open) {
        Some(PredictionError::InvalidMarketStatus)
    } else if now >= m.end_time {
        Some(PredictionError::MarketExpired)
    } else if outcome_index > 1 {
        Some(PredictionError::InvalidOutcome)
    } else if shares_in == 0 {
        Some(PredictionError::ZeroAmount)
    } else if p.market != market_key {
        Some(PredictionError::PositionMarketMismatch)
    } else if p.owner != user {
        Some(PredictionError::PositionOwnerMismatch)
    } else if p.claimed {
        Some(PredictionError::AlreadyClaimed)
    } else if spec_sell_held_shares(p, outcome_index) < shares_in {
        Some(PredictionError::InsufficientShares)
    } else if m.yes_pool == 0 || m.no_pool == 0 {
        Some(PredictionError::InvalidLiquidity)
    } else if spec_sell_grown_pool(m, outcome_index) + shares_in > u64::MAX {
        Some(PredictionError::MathOverflow)
    } else if spec_sell_gross_out(m, outcome_index, shares_in) == 0 {
        Some(PredictionError::ZeroAmount)
    } else if spec_sell_net_out(m, outcome_index, shares_in) < min_collateral_out {
        Some(PredictionError::SlippageExceeded)
    } else if spec_sell_old_total(m, outcome_index) < shares_in {
        Some(PredictionError::MathOverflow)
    } else {
        None
    }
}

/// The market record a successful sell writes: the sold side's reserve
/// takes the shares back, the opposite reserve shrinks by the constant
/// product and then re-absorbs the withheld fee — compensating the side
/// the payout was drawn from, so virtual reserves keep matching the vault
/// backing — and the sold side's share total falls by the shares sold.
pub open spec fn spec_sell_market(m: MarketV2, outcome_index: u8, shares_in: u64) -> MarketV2 {
    let fee_kept = spec_fee(spec_sell_gross_out(m, outcome_index, shares_in));
    if outcome_index == 0 {
        MarketV2 {
            yes_pool: (m.yes_pool + shares_in) as u64,
            no_pool: (spec_shrunk_pool(m.no_pool as int, m.yes_pool as int, shares_in as int)
                + fee_kept) as u64,
            total_yes_shares: (m.total_yes_shares - shares_in) as u64,
            ..m
        }
    } else {
        MarketV2 {
            yes_pool: (spec_shrunk_pool(m.yes_pool as int, m.no_pool as int, shares_in as int)
                + fee_kept) as u64,
            no_pool: (m.no_pool + shares_in) as u64,
            total_no_shares: (m.total_no_shares - shares_in) as u64,
            ..m
        }
    }
}

/// The position record a successful sell writes: the sold side's balance
/// falls by the shares sold.
pub open spec fn spec_sell_position(p: PositionV2, outcome_index: u8, shares_in: u64) -> PositionV2 {
    if outcome_index == 0 {
        PositionV2 { yes_shares: (p.yes_shares - shares_in) as u64, ..p }
    } else {
        PositionV2 { no_shares: (p.no_shares - shares_in) as u64, ..p }
    }
}

/// Sell YES (0) or NO (1) shares back to the pool for collateral.
///
/// The fee is taken from the gross output; the seller receives the net
/// amount, which the host must move from the vault to the seller under the
/// market-scoped vault capability. The withheld fee is re-credited into
/// the reserve the payout was drawn from.
pub fn sell_shares(
    market: &mut MarketV2,
    market_key: u64,
    position: &mut PositionV2,
    user: u64,
    now: i64,
    outcome_index: u8,
    shares_in: u64,
    min_collateral_out: u64,
) -> (r: Result<u64, PredictionError>)
    ensures
        match r {
            Ok(net_out) => {
                &&& spec_sell_error(
                    *old(market),
                    market_key,
                    *old(position),
                    user,
                    now,
                    outcome_index,
                    shares_in,
                    min_collateral_out,
                ) is None
                &&& net_out == spec_sell_net_out(*old(market), outcome_index, shares_in)
                &&& *final(market) == spec_sell_market(*old(market), outcome_index, shares_in)
                &&& *final(position) == spec_sell_position(*old(position), outcome_index, shares_in)
            },
            Err(e) => {
                &&& Some(e) == spec_sell_error(
                    *old(market),
                    market_key,
                    *old(position),
                    user,
                    now,
                    outcome_index,
                    shares_in,
                    min_collateral_out,
                )
                &&& *final(market) == *old(market)
                &&& *final(position) == *old(position)
            },
        },
        old(market).wf() ==> final(market).wf(),
{
    if market.status != MarketStatus::Open {
        return Err(PredictionError::InvalidMarketStatus);
    }
    if now >= market.end_time {
        return Err(PredictionError::MarketExpired);
    }
    if outcome_index > 1 {
        return Err(PredictionError::InvalidOutcome);
    }
    if shares_in == 0 {
        return Err(PredictionError::ZeroAmount);
    }
    if position.market != market_key {
        return Err(PredictionError::PositionMarketMismatch);
    }
    if position.owner != user {
        return Err(PredictionError::PositionOwnerMismatch);
    }
    if position.claimed {
        return Err(PredictionError::AlreadyClaimed);
    }
    let held: u64 = if outcome_index == 0 {
        position.yes_shares
    } else {
        position.no_shares
    };
    if held < shares_in {
        return Err(PredictionError::InsufficientShares);
    }
    let swap = if outcome_index == 0 {
        cpmm::cpmm_sell_yes(market.yes_pool, market.no_pool, shares_in)
    } else {
        cpmm::cpmm_sell_no(market.yes_pool, market.no_pool, shares_in)
    };
    let (new_yes, new_no, gross_out) = match swap {
        Ok(t) => t,
        Err(e) => {
            return Err(e);
        },
    };
    proof {
        if outcome_index == 0 {
            cpmm::lemma_shrunk_pool_bounds(
                market.no_pool as int,
                market.yes_pool as int,
                shares_in as int,
            );
        } else {
            cpmm::lemma_shrunk_pool_bounds(
                market.yes_pool as int,
                market.no_pool as int,
                shares_in as int,
            );
        }
        fees::lemma_fee_bounds(spec_sell_gross_out(*market, outcome_index, shares_in));
    }
    if gross_out == 0 {
        return Err(PredictionError::ZeroAmount);
    }
    let (net_out, fee_kept) = fees::apply_fee_out(gross_out);
    if net_out < min_collateral_out {
        return Err(PredictionError::SlippageExceeded);
    }
    let old_total: u64 = if outcome_index == 0 {
        market.total_yes_shares
    } else {
        market.total_no_shares
    };
    if old_total < shares_in {
        return Err(PredictionError::MathOverflow);
    }
    if outcome_index == 0 {
        market.yes_pool = new_yes;
        market.no_pool = new_no + fee_kept;
        market.total_yes_shares = old_total - shares_in;
        position.yes_shares = held - shares_in;
    } else {
        market.yes_pool = new_yes + fee_kept;
        market.no_pool = new_no;
        market.total_no_shares = old_total - shares_in;
        position.no_shares = held - shares_in;
    }
    Ok(net_out)
}

// ---------------------------------------------------------------------
// resolve
// ---------------------------------------------------------------------

/// The outstanding share total of the outcome a resolution names.
pub open spec fn spec_winner_total(m: MarketV2, winning_outcome: u8) -> int {
    if winning_outcome == 0 {
        m.total_yes_shares as int
    } else {
        m.total_no_shares as int
    }
}

/// Why `resolve_market` refuses, or `None` when it succeeds.
pub open spec fn spec_resolve_error(
    m: MarketV2,
    caller: u64,
    winning_outcome: u8,
) -> Option<PredictionError> {
    if caller != m.authority {
        Some(PredictionError::Unauthorized)
    } else if !(m.status is Open) {
        Some(PredictionError::InvalidMarketStatus)
    } else if winning_outcome > 1 {
        Some(PredictionError::InvalidOutcome)
    } else if spec_winner_total(m, winning_outcome) == 0 {
        Some(PredictionError::NoWinnings)
    } else {
        None
    }
}

/// The market record a successful resolution writes: the settlement
/// snapshot is captured exactly once and the status becomes terminal.
pub open spec fn spec_resolved_market(
    m: MarketV2,
    vault_balance: u64,
    winning_outcome: u8,
) -> MarketV2 {
    MarketV2 {
        status: MarketStatus::Resolved,
        winning_outcome: if winning_outcome == 0 {
            Some(Outcome::Yes)
        } else {
            Some(Outcome::No)
        },
        resolved_vault_balance: vault_balance,
        resolved_total_winning_shares: spec_winner_total(m, winning_outcome) as u64,
        ..m
    }
}

/// Resolve the market to a winning outcome (0 = YES, 1 = NO).
///
/// Only the market's authority may resolve. The host reads the vault's
/// current balance and passes it in; the balance and the winning side's
/// share total are captured as the immutable settlement snapshot that
/// every later claim is computed against, so claims are independent of
/// their order. No deadline check is made: the authority may resolve
/// before `end_time`.
pub fn resolve_market(
    market: &mut MarketV2,
    caller: u64,
    vault_balance: u64,
    winning_outcome: u8,
) -> (r: Result<(), PredictionError>)
    ensures
        match r {
            Ok(u) => {
                &&& spec_resolve_error(*old(market), caller, winning_outcome) is None
                &&& *final(market) == spec_resolved_market(
                    *old(market),
                    vault_balance,
                    winning_outcome,
                )
            },
            Err(e) => {
                &&& Some(e) == spec_resolve_error(*old(market), caller, winning_outcome)
                &&& *final(market) == *old(market)
            },
        },
        old(market).wf() ==> final(market).wf(),
{
    if caller != market.authority {
        return Err(PredictionError::Unauthorized);
    }
    if market.status != MarketStatus::Open {
        return Err(PredictionError::InvalidMarketStatus);
    }
    if winning_outcome > 1 {
        return Err(PredictionError::InvalidOutcome);
    }
    let total_winning_shares: u64 = if winning_outcome == 0 {
        market.total_yes_shares
    } else {
        market.total_no_shares
    };
    if total_winning_shares == 0 {
        return Err(PredictionError::NoWinnings);
    }
    market.resolved_vault_balance = vault_balance;
    market.resolved_total_winning_shares = total_winning_shares;
    market.status = MarketStatus::Resolved;
    market.winning_outcome = if winning_outcome == 0 {
        Some(Outcome::Yes)
    } else {
        Some(Outcome::No)
    };
    Ok(())
}

// ---------------------------------------------------------------------
// claim
// ---------------------------------------------------------------------

/// The claimant's balance of the winning outcome.
pub open spec fn spec_claim_user_shares(m: MarketV2, p: PositionV2) -> int {
    if m.winning_outcome == Some(Outcome::Yes) {
        p.yes_shares as int
    } else {
        p.no_shares as int
    }
}

/// The pro-rata payout a claim computes from the settlement snapshot:
/// floor(resolved vault balance * claimant's winning shares / resolved
/// winning-share total).
pub open spec fn spec_claim_payout(m: MarketV2, p: PositionV2) -> int {
    (m.resolved_vault_balance as int) * spec_claim_user_shares(m, p)
        / (m.resolved_total_winning_shares as int)
}

/// Why `claim_winnings_v2` refuses, or `None` when it succeeds.
pub open spec fn spec_claim_error(
    m: MarketV2,
    market_key: u64,
    p: PositionV2,
    user: u64,
) -> Option<PredictionError> {
    if !(m.status is Resolved) {
        Some(PredictionError::MarketNotResolved)
    } else if m.winning_outcome is None {
        Some(PredictionError::InvalidWinningOutcome)
    } else if p.claimed {
        Some(PredictionError::AlreadyClaimed)
    } else if p.market != market_key {
        Some(PredictionError::PositionMarketMismatch)
    } else if p.owner != user {
        Some(PredictionError::PositionOwnerMismatch)
    } else if m.resolved_total_winning_shares == 0 {
        Some(PredictionError::NoWinnings)
    } else if m.resolved_vault_balance == 0 {
        Some(PredictionError::NoWinnings)
    } else if spec_claim_user_shares(m, p) == 0 {
        Some(PredictionError::NoWinnings)
    } else if spec_claim_payout(m, p) > u64::MAX {
        Some(PredictionError::MathOverflow)
    } else if spec_claim_payout(m, p) == 0 {
        Some(PredictionError::NoWinnings)
    } else {
        None
    }
}

/// The position record a successful claim writes: only the claimed flag
/// changes, irreversibly.
pub open spec fn spec_claimed_position(p: PositionV2) -> PositionV2 {
    PositionV2 { claimed: true, ..p }
}

/// Claim the caller's pro-rata share of the resolved collateral pool.
///
/// The payout is computed against the snapshot captured at resolution, in
/// a 128-bit intermediate before the checked narrowing, so claims made in
/// any order yield identical per-user results. On success the host must
/// move the payout from the vault to the claimant under the market-scoped
/// vault capability, and the position is marked claimed — exactly once.
pub fn claim_winnings_v2(
    market: &MarketV2,
    market_key: u64,
    position: &mut PositionV2,
    user: u64,
) -> (r: Result<u64, PredictionError>)
    ensures
        match r {
            Ok(payout) => {
                &&& spec_claim_error(*market, market_key, *old(position), user) is None
                &&& payout == spec_claim_payout(*market, *old(position))
                &&& payout > 0
                &&& *final(position) == spec_claimed_position(*old(position))
            },
            Err(e) => {
                &&& Some(e) == spec_claim_error(*market, market_key, *old(position), user)
                &&& *final(position) == *old(position)
            },
        },
{
    if market.status != MarketStatus::Resolved {
        return Err(PredictionError::MarketNotResolved);
    }
    let winner = match market.winning_outcome {
        Some(w) => w,
        None => {
            return Err(PredictionError::InvalidWinningOutcome);
        },
    };
    if position.claimed {
        return Err(PredictionError::AlreadyClaimed);
    }
    if position.market != market_key {
        return Err(PredictionError::PositionMarketMismatch);
    }
    if position.owner != user {
        return Err(PredictionError::PositionOwnerMismatch);
    }
    let total_winning_shares: u64 = market.resolved_total_winning_shares;
    let vault_balance: u64 = market.resolved_vault_balance;
    if total_winning_shares == 0 {
        return Err(PredictionError::NoWinnings);
    }
    if vault_balance == 0 {
        return Err(PredictionError::NoWinnings);
    }
    let user_winning_shares: u64 = match winner {
        Outcome::Yes => position.yes_shares,
        Outcome::No => position.no_shares,
    };
    if user_winning_shares == 0 {
        return Err(PredictionError::NoWinnings);
    }
    proof {
        assert((vault_balance as int) * (user_winning_shares as int) <= (u64::MAX as int) * (
        u64::MAX as int)) by (nonlinear_arith)
            requires
                vault_balance <= u64::MAX as int && user_winning_shares <= u64::MAX as int && 0
                    <= vault_balance && 0 <= user_winning_shares;
        vstd::arithmetic::div_mod::lemma_div_pos_is_pos(
            (vault_balance as int) * (user_winning_shares as int),
            total_winning_shares as int,
        );
    }
    let payout_wide: u128 = (vault_balance as u128) * (user_winning_shares as u128) / (
    total_winning_shares as u128);
    if payout_wide > u64::MAX as u128 {
        return Err(PredictionError::MathOverflow);
    }
    let payout: u64 = payout_wide as u64;
    if payout == 0 {
        return Err(PredictionError::NoWinnings);
    }
    position.claimed = true;
    Ok(payout)
}

} // verus!
