use prediction_market::errors::PredictionError;
use prediction_market::market::{
    buy_shares, create_market_cpmm, resolve_market, sell_shares, CreateMarketCpmmArgs,
    MarketStatus, MarketV2, Outcome, PositionV2,
};

const AUTHORITY: u64 = 21;
const MINT: u64 = 22;
const VAULT: u64 = 23;
const MARKET_KEY: u64 = 24;
const USER: u64 = 25;
const OTHER_USER: u64 = 26;

fn open_market(liquidity: u64) -> MarketV2 {
    let args = CreateMarketCpmmArgs {
        market_id: 7,
        question: "Does the home team win the final?".to_string(),
        end_time: 5000,
        initial_liquidity: liquidity,
    };
    let (market, _backing) = create_market_cpmm(args, AUTHORITY, MINT, VAULT).unwrap();
    market
}

fn fresh_position() -> PositionV2 {
    PositionV2 { market: 0, owner: 0, yes_shares: 0, no_shares: 0, claimed: false }
}

#[test]
fn create_refuses_zero_liquidity() {
    let args = CreateMarketCpmmArgs {
        market_id: 7,
        question: "q".to_string(),
        end_time: 5000,
        initial_liquidity: 0,
    };
    let r = create_market_cpmm(args, AUTHORITY, MINT, VAULT);
    assert_eq!(r.map(|p| p.1), Err(PredictionError::InvalidLiquidity));
}

#[test]
fn create_refuses_overlong_question() {
    let args = CreateMarketCpmmArgs {
        market_id: 7,
        question: "q".repeat(257),
        end_time: 5000,
        initial_liquidity: 10,
    };
    let r = create_market_cpmm(args, AUTHORITY, MINT, VAULT);
    assert_eq!(r.map(|p| p.1), Err(PredictionError::QuestionTooLong));

    let args = CreateMarketCpmmArgs {
        market_id: 7,
        question: "q".repeat(256),
        end_time: 5000,
        initial_liquidity: 10,
    };
    assert!(create_market_cpmm(args, AUTHORITY, MINT, VAULT).is_ok());
}

#[test]
fn create_refuses_backing_overflow() {
    let args = CreateMarketCpmmArgs {
        market_id: 7,
        question: "q".to_string(),
        end_time: 5000,
        initial_liquidity: u64::MAX / 2 + 1,
    };
    let r = create_market_cpmm(args, AUTHORITY, MINT, VAULT);
    assert_eq!(r.map(|p| p.1), Err(PredictionError::MathOverflow));
}

#[test]
fn buy_validates_inputs_in_order() {
    let mut market = open_market(1_000_000);
    let mut position = fresh_position();
    assert_eq!(
        buy_shares(&mut market, MARKET_KEY, &mut position, USER, 100, 2, 1_000, 0),
        Err(PredictionError::InvalidOutcome)
    );
    assert_eq!(
        buy_shares(&mut market, MARKET_KEY, &mut position, USER, 100, 0, 0, 0),
        Err(PredictionError::ZeroAmount)
    );
    assert_eq!(
        buy_shares(&mut market, MARKET_KEY, &mut position, USER, 100, 0, 100_000, 90_497),
        Err(PredictionError::SlippageExceeded)
    );
    // nothing changed along the way
    assert_eq!(market.yes_pool, 1_000_000);
    assert_eq!(position.owner, 0);
}

#[test]
fn buy_on_resolved_market_is_refused() {
    let mut market = open_market(1_000_000);
    let mut position = fresh_position();
    buy_shares(&mut market, MARKET_KEY, &mut position, USER, 100, 0, 100_000, 0).unwrap();
    resolve_market(&mut market, AUTHORITY, 2_100_000, 0).unwrap();
    let r = buy_shares(&mut market, MARKET_KEY, &mut position, USER, 100, 0, 100_000, 0);
    assert_eq!(r, Err(PredictionError::InvalidMarketStatus));
}

#[test]
fn buy_overflowing_the_grown_reserve_is_refused() {
    let mut market = open_market(1_000_000);
    market.no_pool = u64::MAX;
    let mut position = fresh_position();
    let r = buy_shares(&mut market, MARKET_KEY, &mut position, USER, 100, 0, 300, 0);
    assert_eq!(r, Err(PredictionError::MathOverflow));
    assert_eq!(market.no_pool, u64::MAX);
}

#[test]
fn buy_on_drained_reserve_is_a_liquidity_fault() {
    let mut market = open_market(1_000_000);
    market.yes_pool = 0;
    let mut position = fresh_position();
    let r = buy_shares(&mut market, MARKET_KEY, &mut position, USER, 100, 0, 1_000, 0);
    assert_eq!(r, Err(PredictionError::InvalidLiquidity));
}

#[test]
fn buy_checks_position_identity() {
    let mut market = open_market(1_000_000);
    let mut position = PositionV2 {
        market: 999,
        owner: USER,
        yes_shares: 5,
        no_shares: 0,
        claimed: false,
    };
    assert_eq!(
        buy_shares(&mut market, MARKET_KEY, &mut position, USER, 100, 0, 1_000, 0),
        Err(PredictionError::PositionMarketMismatch)
    );
    position.market = MARKET_KEY;
    assert_eq!(
        buy_shares(&mut market, MARKET_KEY, &mut position, OTHER_USER, 100, 0, 1_000, 0),
        Err(PredictionError::PositionOwnerMismatch)
    );
}

#[test]
fn buy_accumulates_onto_existing_position() {
    let mut market = open_market(1_000_000);
    let mut position = fresh_position();
    let first = buy_shares(&mut market, MARKET_KEY, &mut position, USER, 100, 0, 50_000, 0)
        .unwrap();
    let second = buy_shares(&mut market, MARKET_KEY, &mut position, USER, 100, 1, 50_000, 0)
        .unwrap();
    assert_eq!(position.yes_shares, first);
    assert_eq!(position.no_shares, second);
    assert_eq!(market.total_yes_shares, first);
    assert_eq!(market.total_no_shares, second);
}

#[test]
fn sell_yes_matches_exact_arithmetic() {
    let mut market = open_market(1_000_000);
    market.yes_pool = 1_000;
    market.no_pool = 4_000;
    market.total_yes_shares = 500;
    let mut position = PositionV2 {
        market: MARKET_KEY,
        owner: USER,
        yes_shares: 500,
        no_shares: 0,
        claimed: false,
    };
    let net = sell_shares(&mut market, MARKET_KEY, &mut position, USER, 100, 0, 500, 0).unwrap();
    // k = 4e6; yes grows to 1500; no shrinks to 2666; gross out 1334;
    // fee 6 goes back into the NO reserve; seller receives 1328
    assert_eq!(net, 1_328);
    assert_eq!(market.yes_pool, 1_500);
    assert_eq!(market.no_pool, 2_672);
    assert_eq!(market.total_yes_shares, 0);
    assert_eq!(position.yes_shares, 0);
}

#[test]
fn sell_respects_slippage_floor() {
    let mut market = open_market(1_000_000);
    market.yes_pool = 1_000;
    market.no_pool = 4_000;
    market.total_yes_shares = 500;
    let mut position = PositionV2 {
        market: MARKET_KEY,
        owner: USER,
        yes_shares: 500,
        no_shares: 0,
        claimed: false,
    };
    let r = sell_shares(&mut market, MARKET_KEY, &mut position, USER, 100, 0, 500, 1_329);
    assert_eq!(r, Err(PredictionError::SlippageExceeded));
    assert_eq!(market.yes_pool, 1_000);
    assert_eq!(market.no_pool, 4_000);
    assert_eq!(position.yes_shares, 500);
}

#[test]
fn sell_validates_position_and_deadline() {
    let mut market = open_market(1_000_000);
    let mut position = fresh_position();
    let shares = buy_shares(&mut market, MARKET_KEY, &mut position, USER, 100, 0, 100_000, 0)
        .unwrap();
    assert_eq!(
        sell_shares(&mut market, MARKET_KEY, &mut position, USER, 5000, 0, shares, 0),
        Err(PredictionError::MarketExpired)
    );
    assert_eq!(
        sell_shares(&mut market, 999, &mut position, USER, 100, 0, shares, 0),
        Err(PredictionError::PositionMarketMismatch)
    );
    assert_eq!(
        sell_shares(&mut market, MARKET_KEY, &mut position, OTHER_USER, 100, 0, shares, 0),
        Err(PredictionError::PositionOwnerMismatch)
    );
    assert_eq!(
        sell_shares(&mut market, MARKET_KEY, &mut position, USER, 100, 2, shares, 0),
        Err(PredictionError::InvalidOutcome)
    );
    assert_eq!(
        sell_shares(&mut market, MARKET_KEY, &mut position, USER, 100, 0, 0, 0),
        Err(PredictionError::ZeroAmount)
    );
}

#[test]
fn sell_from_claimed_position_is_refused() {
    let mut market = open_market(1_000_000);
    market.total_yes_shares = 10;
    let mut position = PositionV2 {
        market: MARKET_KEY,
        owner: USER,
        yes_shares: 10,
        no_shares: 0,
        claimed: true,
    };
    let r = sell_shares(&mut market, MARKET_KEY, &mut position, USER, 100, 0, 5, 0);
    assert_eq!(r, Err(PredictionError::AlreadyClaimed));
}

#[test]
fn sell_with_inconsistent_totals_is_refused() {
    // a position holding more shares than the market total on that side
    // cannot burn them from the total
    let mut market = open_market(1_000_000);
    market.total_yes_shares = 3;
    let mut position = PositionV2 {
        market: MARKET_KEY,
        owner: USER,
        yes_shares: 10,
        no_shares: 0,
        claimed: false,
    };
    let r = sell_shares(&mut market, MARKET_KEY, &mut position, USER, 100, 0, 5, 0);
    assert_eq!(r, Err(PredictionError::MathOverflow));
    assert_eq!(position.yes_shares, 10);
    assert_eq!(market.total_yes_shares, 3);
}

#[test]
fn resolve_is_authority_only_and_terminal() {
    let mut market = open_market(1_000_000);
    let mut position = fresh_position();
    buy_shares(&mut market, MARKET_KEY, &mut position, USER, 100, 1, 50_000, 0).unwrap();
    assert_eq!(
        resolve_market(&mut market, OTHER_USER, 2_050_000, 1),
        Err(PredictionError::Unauthorized)
    );
    assert_eq!(
        resolve_market(&mut market, AUTHORITY, 2_050_000, 2),
        Err(PredictionError::InvalidOutcome)
    );
    resolve_market(&mut market, AUTHORITY, 2_050_000, 1).unwrap();
    assert_eq!(market.status, MarketStatus::Resolved);
    assert_eq!(market.winning_outcome, Some(Outcome::No));
    assert_eq!(market.resolved_vault_balance, 2_050_000);
    assert_eq!(market.resolved_total_winning_shares, market.total_no_shares);
    // a second resolution finds the market no longer open
    assert_eq!(
        resolve_market(&mut market, AUTHORITY, 2_050_000, 1),
        Err(PredictionError::InvalidMarketStatus)
    );
}

#[test]
fn round_trip_returns_less_than_paid() {
    let mut market = open_market(1_000_000);
    let mut position = fresh_position();
    let shares = buy_shares(&mut market, MARKET_KEY, &mut position, USER, 100, 0, 100_000, 0)
        .unwrap();
    let net_out = sell_shares(&mut market, MARKET_KEY, &mut position, USER, 100, 0, shares, 0)
        .unwrap();
    assert!(net_out < 100_000);
    assert_eq!(position.yes_shares, 0);
}

#[test]
fn resolve_may_happen_before_the_deadline() {
    let mut market = open_market(1_000_000);
    let mut position = fresh_position();
    buy_shares(&mut market, MARKET_KEY, &mut position, USER, 100, 0, 50_000, 0).unwrap();
    // end_time is 5000 and "now" never reaches the resolution path
    resolve_market(&mut market, AUTHORITY, 2_050_000, 0).unwrap();
    assert_eq!(market.status, MarketStatus::Resolved);
}
