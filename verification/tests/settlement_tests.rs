use prediction_market::errors::PredictionError;
use prediction_market::market::{
    buy_shares, claim_winnings_v2, create_market_cpmm, resolve_market, CreateMarketCpmmArgs,
    MarketStatus, MarketV2, Outcome, PositionV2,
};

const AUTHORITY: u64 = 31;
const MINT: u64 = 32;
const VAULT: u64 = 33;
const MARKET_KEY: u64 = 34;
const ALICE: u64 = 35;
const BOB: u64 = 36;
const CAROL: u64 = 37;

fn resolved_market(vault_balance: u64, winning_shares: u64, winner: Outcome) -> MarketV2 {
    MarketV2 {
        market_id: 9,
        authority: AUTHORITY,
        question: "Is the answer yes?".to_string(),
        collateral_mint: MINT,
        vault: VAULT,
        end_time: 5000,
        status: MarketStatus::Resolved,
        winning_outcome: Some(winner),
        yes_pool: 1,
        no_pool: 1,
        total_yes_shares: winning_shares,
        total_no_shares: 0,
        resolved_vault_balance: vault_balance,
        resolved_total_winning_shares: winning_shares,
    }
}

fn position_with(yes: u64, no: u64) -> PositionV2 {
    PositionV2 { market: MARKET_KEY, owner: ALICE, yes_shares: yes, no_shares: no, claimed: false }
}

#[test]
fn claim_pays_the_floored_pro_rata_share() {
    let market = resolved_market(2_000_000, 1_000, Outcome::Yes);
    let mut position = position_with(333, 0);
    let payout = claim_winnings_v2(&market, MARKET_KEY, &mut position, ALICE).unwrap();
    assert_eq!(payout, 666_000);
    assert!(position.claimed);
    assert_eq!(position.yes_shares, 333);
}

#[test]
fn claim_floors_rounding_dust_toward_the_pool() {
    let market = resolved_market(100, 3, Outcome::Yes);
    let mut position = position_with(1, 0);
    // 100 * 1 / 3 floors to 33
    let payout = claim_winnings_v2(&market, MARKET_KEY, &mut position, ALICE).unwrap();
    assert_eq!(payout, 33);
}

#[test]
fn claims_of_all_holders_never_exceed_the_snapshot() {
    let market = resolved_market(100, 3, Outcome::Yes);
    let mut total_paid: u64 = 0;
    for owner in [ALICE, BOB, CAROL] {
        let mut position = PositionV2 {
            market: MARKET_KEY,
            owner,
            yes_shares: 1,
            no_shares: 0,
            claimed: false,
        };
        total_paid += claim_winnings_v2(&market, MARKET_KEY, &mut position, owner).unwrap();
    }
    // 33 each; the dust of 1 stays in the vault, strictly fewer units
    // than there are claimants
    assert_eq!(total_paid, 99);
    assert!(total_paid <= 100);
    assert!(100 - total_paid < 3);
}

#[test]
fn claim_is_refused_a_second_time() {
    let market = resolved_market(2_000_000, 1_000, Outcome::Yes);
    let mut position = position_with(333, 0);
    claim_winnings_v2(&market, MARKET_KEY, &mut position, ALICE).unwrap();
    let r = claim_winnings_v2(&market, MARKET_KEY, &mut position, ALICE);
    assert_eq!(r, Err(PredictionError::AlreadyClaimed));
    assert!(position.claimed);
}

#[test]
fn claim_needs_a_resolved_market() {
    let mut market = resolved_market(2_000_000, 1_000, Outcome::Yes);
    market.status = MarketStatus::Open;
    market.winning_outcome = None;
    market.resolved_vault_balance = 0;
    market.resolved_total_winning_shares = 0;
    let mut position = position_with(333, 0);
    let r = claim_winnings_v2(&market, MARKET_KEY, &mut position, ALICE);
    assert_eq!(r, Err(PredictionError::MarketNotResolved));
    assert!(!position.claimed);
}

#[test]
fn claim_needs_a_recorded_winner() {
    let mut market = resolved_market(2_000_000, 1_000, Outcome::Yes);
    market.winning_outcome = None;
    let mut position = position_with(333, 0);
    let r = claim_winnings_v2(&market, MARKET_KEY, &mut position, ALICE);
    assert_eq!(r, Err(PredictionError::InvalidWinningOutcome));
}

#[test]
fn claim_checks_position_identity() {
    let market = resolved_market(2_000_000, 1_000, Outcome::Yes);
    let mut position = position_with(333, 0);
    assert_eq!(
        claim_winnings_v2(&market, 999, &mut position, ALICE),
        Err(PredictionError::PositionMarketMismatch)
    );
    assert_eq!(
        claim_winnings_v2(&market, MARKET_KEY, &mut position, BOB),
        Err(PredictionError::PositionOwnerMismatch)
    );
}

#[test]
fn claim_with_nothing_to_win_is_refused() {
    // no winning shares held
    let market = resolved_market(2_000_000, 1_000, Outcome::Yes);
    let mut position = position_with(0, 500);
    assert_eq!(
        claim_winnings_v2(&market, MARKET_KEY, &mut position, ALICE),
        Err(PredictionError::NoWinnings)
    );
    // payout floors to zero
    let market = resolved_market(2, 1_000, Outcome::Yes);
    let mut position = position_with(10, 0);
    assert_eq!(
        claim_winnings_v2(&market, MARKET_KEY, &mut position, ALICE),
        Err(PredictionError::NoWinnings)
    );
    // empty snapshot fields
    let mut market = resolved_market(2_000_000, 1_000, Outcome::Yes);
    market.resolved_total_winning_shares = 0;
    let mut position = position_with(10, 0);
    assert_eq!(
        claim_winnings_v2(&market, MARKET_KEY, &mut position, ALICE),
        Err(PredictionError::NoWinnings)
    );
    let mut market = resolved_market(2_000_000, 1_000, Outcome::Yes);
    market.resolved_vault_balance = 0;
    assert_eq!(
        claim_winnings_v2(&market, MARKET_KEY, &mut position, ALICE),
        Err(PredictionError::NoWinnings)
    );
}

#[test]
fn claim_whose_payout_cannot_narrow_is_refused() {
    // a share balance above the snapshot total makes the wide quotient
    // exceed the 64-bit working unit
    let market = resolved_market(u64::MAX, 1, Outcome::Yes);
    let mut position = position_with(3, 0);
    assert_eq!(
        claim_winnings_v2(&market, MARKET_KEY, &mut position, ALICE),
        Err(PredictionError::MathOverflow)
    );
}

#[test]
fn claim_of_the_no_side_reads_no_shares() {
    let mut market = resolved_market(1_000, 0, Outcome::No);
    market.total_no_shares = 100;
    market.resolved_total_winning_shares = 100;
    let mut position = position_with(0, 40);
    let payout = claim_winnings_v2(&market, MARKET_KEY, &mut position, ALICE).unwrap();
    assert_eq!(payout, 400);
}

#[test]
fn full_market_round_trip_settles_pro_rata() {
    let args = CreateMarketCpmmArgs {
        market_id: 9,
        question: "Is the answer yes?".to_string(),
        end_time: 5000,
        initial_liquidity: 1_000_000,
    };
    let (mut market, backing) = create_market_cpmm(args, AUTHORITY, MINT, VAULT).unwrap();
    let mut vault_balance: u64 = backing;

    let mut alice = PositionV2 { market: 0, owner: 0, yes_shares: 0, no_shares: 0, claimed: false };
    let mut bob = PositionV2 { market: 0, owner: 0, yes_shares: 0, no_shares: 0, claimed: false };

    let a = buy_shares(&mut market, MARKET_KEY, &mut alice, ALICE, 100, 0, 100_000, 0).unwrap();
    vault_balance += 100_000;
    let b = buy_shares(&mut market, MARKET_KEY, &mut bob, BOB, 200, 0, 50_000, 0).unwrap();
    vault_balance += 50_000;
    assert_eq!(market.total_yes_shares, a + b);

    resolve_market(&mut market, AUTHORITY, vault_balance, 0).unwrap();
    assert_eq!(market.resolved_vault_balance, 2_150_000);
    assert_eq!(market.resolved_total_winning_shares, a + b);

    let pay_a = claim_winnings_v2(&market, MARKET_KEY, &mut alice, ALICE).unwrap();
    let pay_b = claim_winnings_v2(&market, MARKET_KEY, &mut bob, BOB).unwrap();
    let expected_a = (2_150_000u128 * a as u128 / (a + b) as u128) as u64;
    let expected_b = (2_150_000u128 * b as u128 / (a + b) as u128) as u64;
    assert_eq!(pay_a, expected_a);
    assert_eq!(pay_b, expected_b);
    assert!(pay_a + pay_b <= 2_150_000);
    assert!(2_150_000 - (pay_a + pay_b) < 2);
}
