use managed_funds::accounting::{deposit, investor_fund_withdrawal, withdraw};
use managed_funds::address::Address;
use managed_funds::error::FundError;
use managed_funds::ledger::Fund;
use managed_funds::position::InvestorPosition;

fn addr(n: u128) -> Address {
    Address { high: n, low: n * 7 }
}

fn fund(total_shares: u64, total_assets: u64) -> Fund {
    Fund {
        manager: addr(1),
        name: String::from("alpha"),
        description: String::from("test fund"),
        base_mint: addr(2),
        vault: addr(3),
        shares_mint: addr(4),
        management_fee: 100,
        performance_fee: 2000,
        total_shares,
        total_assets,
        last_fee_collection: 0,
        created_at: 0,
        bump: 255,
        vault_bump: 254,
        shares_bump: 253,
    }
}

fn position(shares: u64, deposited: u64) -> InvestorPosition {
    InvestorPosition {
        investor: addr(10),
        fund: addr(20),
        shares,
        initial_investment: deposited,
        total_deposited: deposited,
        total_withdrawn: 0,
        first_deposit_at: 1,
        last_activity_at: 1,
    }
}

#[test]
fn mint_is_one_to_one_in_an_empty_fund() {
    assert_eq!(fund(0, 0).calculate_shares_to_mint(500), 500);
    assert_eq!(fund(0, 10).calculate_shares_to_mint(500), 500);
    assert_eq!(fund(10, 0).calculate_shares_to_mint(500), 500);
}

#[test]
fn mint_follows_the_share_price() {
    assert_eq!(fund(1000, 2000).calculate_shares_to_mint(500), 250);
    assert_eq!(fund(3, 7).calculate_shares_to_mint(5), 2);
    assert_eq!(fund(1000, 1000).calculate_shares_to_mint(500), 500);
}

#[test]
fn split_deposit_rounds_by_at_most_one_share() {
    let f = fund(3, 7);
    let (m1, m2, m12) = (f.calculate_shares_to_mint(5), f.calculate_shares_to_mint(6), f.calculate_shares_to_mint(11));
    assert_eq!((m1, m2, m12), (2, 2, 4));
    let g = fund(1, 2);
    let (a, b, ab) = (g.calculate_shares_to_mint(1), g.calculate_shares_to_mint(1), g.calculate_shares_to_mint(2));
    assert_eq!((a, b, ab), (0, 0, 1));
    assert!(a + b <= ab && ab <= a + b + 1);
}

#[test]
fn withdrawal_amount_follows_the_share_price() {
    assert_eq!(fund(0, 1000).calculate_withdrawal_amount(10), 0);
    assert_eq!(fund(1500, 1500).calculate_withdrawal_amount(750), 750);
    assert_eq!(fund(3, 10).calculate_withdrawal_amount(2), 6);
}

#[test]
fn checked_mint_reports_overflow() {
    assert_eq!(fund(u64::MAX, 1).checked_shares_to_mint(2), None);
    assert_eq!(fund(4, 2).checked_shares_to_mint(3), Some(6));
}

#[test]
fn deposit_then_full_withdrawal_round_trip() {
    let mut f = fund(1000, 1000);
    let mut p = InvestorPosition::empty();
    let minted = deposit(&mut f, &mut p, addr(20), addr(10), 500, 5).unwrap();
    assert_eq!(minted, 500);
    assert_eq!((f.total_shares, f.total_assets), (1500, 1500));
    let paid = withdraw(&mut f, &mut p, addr(20), addr(10), minted, 10_000, 6).unwrap();
    assert_eq!(paid, 500);
    assert_eq!((f.total_shares, f.total_assets), (1000, 1000));
    assert_eq!((p.shares, p.total_withdrawn, p.total_deposited), (0, 500, 500));
}

#[test]
fn round_trip_at_a_high_share_price_never_gains() {
    let mut f = fund(1, 1000);
    let mut p = InvestorPosition::empty();
    let minted = deposit(&mut f, &mut p, addr(20), addr(10), 1500, 5).unwrap();
    assert_eq!(minted, 1);
    let paid = withdraw(&mut f, &mut p, addr(20), addr(10), minted, 10_000, 6).unwrap();
    assert_eq!(paid, 1250);
    assert!(paid <= 1500);
}

#[test]
fn round_trip_with_rounding_loses_at_most_one_unit() {
    let mut f = fund(7, 3);
    let mut p = InvestorPosition::empty();
    let minted = deposit(&mut f, &mut p, addr(20), addr(10), 5, 5).unwrap();
    assert_eq!(minted, 11);
    let paid = withdraw(&mut f, &mut p, addr(20), addr(10), minted, 10_000, 6).unwrap();
    assert_eq!(paid, 4);
    assert!(5 - paid <= 1);
}

#[test]
fn first_deposit_opens_the_position() {
    let mut f = fund(0, 0);
    let mut p = InvestorPosition::empty();
    assert_eq!(deposit(&mut f, &mut p, addr(20), addr(10), 300, 42), Ok(300));
    assert_eq!(p.investor, addr(10));
    assert_eq!(p.fund, addr(20));
    assert_eq!((p.shares, p.initial_investment, p.total_deposited), (300, 300, 300));
    assert_eq!((p.first_deposit_at, p.last_activity_at), (42, 42));
    assert_eq!(deposit(&mut f, &mut p, addr(20), addr(10), 100, 43), Ok(100));
    assert_eq!((p.shares, p.initial_investment, p.total_deposited), (400, 300, 400));
    assert_eq!((p.first_deposit_at, p.last_activity_at), (42, 43));
}

#[test]
fn deposit_refusals() {
    let mut f = fund(1000, 1000);
    let mut p = position(10, 10);
    assert_eq!(deposit(&mut f, &mut p, addr(20), addr(10), 0, 1), Err(FundError::InvalidAmount));
    assert_eq!(deposit(&mut f, &mut p, addr(21), addr(10), 5, 1), Err(FundError::InvalidInput));
    let mut full = fund(1000, u64::MAX - 1);
    assert_eq!(deposit(&mut full, &mut p, addr(20), addr(10), 5, 1), Err(FundError::MathOverflow));
    assert_eq!(full.total_assets, u64::MAX - 1);
    let mut cheap = fund(u64::MAX, 1);
    assert_eq!(deposit(&mut cheap, &mut p, addr(20), addr(10), 2, 1), Err(FundError::MathOverflow));
    assert_eq!(p.shares, 10);
}

#[test]
fn withdraw_refusals() {
    let mut f = fund(1000, 1000);
    let mut p = position(100, 100);
    assert_eq!(withdraw(&mut f, &mut p, addr(20), addr(10), 0, 1000, 1), Err(FundError::InvalidShares));
    assert_eq!(withdraw(&mut f, &mut p, addr(20), addr(11), 10, 1000, 1), Err(FundError::InvalidInput));
    assert_eq!(withdraw(&mut f, &mut p, addr(20), addr(10), 101, 1000, 1), Err(FundError::InsufficientFunds));
    assert_eq!(withdraw(&mut f, &mut p, addr(20), addr(10), 50, 49, 1), Err(FundError::InsufficientFunds));
    let mut thin = fund(10, 1000);
    assert_eq!(withdraw(&mut thin, &mut p, addr(20), addr(10), 50, 1000, 1), Err(FundError::MathOverflow));
    assert_eq!((p.shares, f.total_shares), (100, 1000));
}

#[test]
fn position_value_and_pnl() {
    let mut p = position(250, 200);
    assert_eq!(p.current_value(2000, 1000), 500);
    assert_eq!(p.current_value(2000, 0), 0);
    assert_eq!(p.unrealized_pnl(2000, 1000), 300);
    p.total_withdrawn = 50;
    assert_eq!(p.unrealized_pnl(400, 1000), -50);
}

#[test]
fn full_exit_pays_through_the_waterfall() {
    let mut f = fund(1000, 1000);
    let mut p = position(500, 400);
    let payout = investor_fund_withdrawal(&mut f, &mut p, addr(20), addr(10), 1000, 9).unwrap();
    // value 500; platform 5; after 495; profit 95; performance 19 (3 platform, 16 manager)
    assert_eq!(payout.investor, 476);
    assert_eq!(payout.manager, 16);
    assert_eq!(payout.treasury, 8);
    assert_eq!(payout.investor + payout.manager + payout.treasury, 500);
    assert_eq!((f.total_shares, f.total_assets), (500, 500));
    assert_eq!((p.shares, p.total_withdrawn, p.last_activity_at), (0, 476, 9));
}

#[test]
fn full_exit_refusals() {
    let mut f = fund(1000, 1000);
    let mut empty = position(0, 0);
    assert_eq!(investor_fund_withdrawal(&mut f, &mut empty, addr(20), addr(10), 10, 1), Err(FundError::InvalidShares));
    let mut p = position(10, 10);
    assert_eq!(investor_fund_withdrawal(&mut f, &mut p, addr(20), addr(10), 0, 1), Err(FundError::InsufficientFunds));
    assert_eq!(investor_fund_withdrawal(&mut f, &mut p, addr(22), addr(10), 10, 1), Err(FundError::InvalidInput));
    let mut none = fund(0, 0);
    assert_eq!(investor_fund_withdrawal(&mut none, &mut p, addr(20), addr(10), 10, 1), Err(FundError::InvalidShares));
    let mut few = fund(5, 5);
    assert_eq!(investor_fund_withdrawal(&mut few, &mut p, addr(20), addr(10), 10, 1), Err(FundError::MathOverflow));
}
