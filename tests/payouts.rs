use managed_funds::address::Address;
use managed_funds::distribution::{distribute_pro_rata, pay_fund_investors, pay_rwa_investors, BatchEntry};
use managed_funds::error::FundError;
use managed_funds::ledger::Fund;
use managed_funds::position::InvestorPosition;

fn addr(n: u128) -> Address {
    Address { high: n, low: 3 * n + 1 }
}

fn fund(performance_fee: u16, total_assets: u64) -> Fund {
    Fund {
        manager: addr(1),
        name: String::from("beta"),
        description: String::new(),
        base_mint: addr(2),
        vault: addr(3),
        shares_mint: addr(4),
        management_fee: 0,
        performance_fee,
        total_shares: 1000,
        total_assets,
        last_fee_collection: 0,
        created_at: 0,
        bump: 1,
        vault_bump: 2,
        shares_bump: 3,
    }
}

fn entry(investor: u128, fund_key: u128, shares: u64) -> BatchEntry {
    BatchEntry {
        position: InvestorPosition {
            investor: addr(investor),
            fund: addr(fund_key),
            shares,
            initial_investment: shares,
            total_deposited: shares,
            total_withdrawn: 0,
            first_deposit_at: 0,
            last_activity_at: 0,
        },
        recipient: addr(investor),
    }
}

#[test]
fn pro_rata_gives_the_remainder_to_the_last_recipient() {
    assert_eq!(distribute_pro_rata(100, &vec![1, 1, 1]), Ok(vec![33, 33, 34]));
    assert_eq!(distribute_pro_rata(7, &vec![0, 5]), Ok(vec![0, 7]));
    assert_eq!(distribute_pro_rata(10, &vec![3, 0]), Ok(vec![10, 0]));
    assert_eq!(distribute_pro_rata(55, &vec![9]), Ok(vec![55]));
}

#[test]
fn pro_rata_amounts_sum_to_the_pool() {
    let weights = vec![7, 13, 1, 29, 50];
    let amounts = distribute_pro_rata(1_000_003, &weights).unwrap();
    assert_eq!(amounts.iter().sum::<u64>(), 1_000_003);
    assert_eq!(amounts[0], 1_000_003 * 7 / 100);
    let big = distribute_pro_rata(u64::MAX, &vec![u64::MAX, u64::MAX, 1]).unwrap();
    assert_eq!(big.iter().map(|&a| a as u128).sum::<u128>(), u64::MAX as u128);
}

#[test]
fn pro_rata_refuses_a_batch_without_shares() {
    assert_eq!(distribute_pro_rata(100, &vec![]), Err(FundError::InvalidShares));
    assert_eq!(distribute_pro_rata(100, &vec![0, 0]), Err(FundError::InvalidShares));
}

#[test]
fn batch_payout_applies_the_waterfall_then_pays_pro_rata() {
    let mut f = fund(2000, 5000);
    let batch = vec![entry(10, 50, 100), entry(11, 50, 300)];
    let p = pay_fund_investors(&mut f, &addr(50), &addr(1), 1000, &batch).unwrap();
    // platform 10; performance 198 on 990 (39 platform, 159 manager); pool 792
    assert_eq!(p.treasury, 49);
    assert_eq!(p.manager, 159);
    assert_eq!(p.investors, vec![198, 594]);
    assert_eq!(p.treasury + p.manager + p.investors.iter().sum::<u64>(), 1000);
    assert_eq!(f.total_assets, 4000);
}

#[test]
fn batch_payout_refusals() {
    let batch = vec![entry(10, 50, 100)];
    let mut f = fund(2000, 5000);
    assert_eq!(pay_fund_investors(&mut f, &addr(50), &addr(9), 1000, &batch).err(), Some(FundError::InvalidInput));
    assert_eq!(pay_fund_investors(&mut f, &addr(50), &addr(1), 0, &batch).err(), Some(FundError::InvalidAmount));
    let mut greedy = fund(5001, 5000);
    assert_eq!(pay_fund_investors(&mut greedy, &addr(50), &addr(1), 1000, &batch).err(), Some(FundError::InvalidFee));
    let foreign = vec![entry(10, 50, 100), entry(11, 51, 100)];
    assert_eq!(pay_fund_investors(&mut f, &addr(50), &addr(1), 1000, &foreign).err(), Some(FundError::InvalidInput));
    let mut misdirected = vec![entry(10, 50, 100)];
    misdirected[0].recipient = addr(12);
    assert_eq!(pay_fund_investors(&mut f, &addr(50), &addr(1), 1000, &misdirected).err(), Some(FundError::InvalidInput));
    let empty_shares = vec![entry(10, 50, 0)];
    assert_eq!(pay_fund_investors(&mut f, &addr(50), &addr(1), 1000, &empty_shares).err(), Some(FundError::InvalidShares));
    let mut poor = fund(2000, 999);
    assert_eq!(pay_fund_investors(&mut poor, &addr(50), &addr(1), 1000, &batch).err(), Some(FundError::MathOverflow));
    assert_eq!((f.total_assets, poor.total_assets), (5000, 999));
}

#[test]
fn listed_payouts_skip_zero_amounts() {
    assert_eq!(pay_rwa_investors(&vec![5, 0, 7], 3), Ok(vec![(0, 5), (2, 7)]));
    assert_eq!(pay_rwa_investors(&vec![0], 1), Ok(vec![]));
    assert_eq!(pay_rwa_investors(&vec![], 0), Err(FundError::InvalidInput));
    assert_eq!(pay_rwa_investors(&vec![1, 2], 3), Err(FundError::InvalidInput));
}
