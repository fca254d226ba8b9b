use vstd::prelude::*;

use crate::address::Address;
use crate::ledger::{assets_for_shares, mul_wide};

verus! {

/// One investor's stake in one fund, with lifetime counters.
pub struct InvestorPosition {
    pub investor: Address,
    pub fund: Address,
    pub shares: u64,
    pub initial_investment: u64,
    pub total_deposited: u64,
    pub total_withdrawn: u64,
    pub first_deposit_at: i64,
    pub last_activity_at: i64,
}

impl InvestorPosition {
    /// A record that no deposit has filled in yet.
    pub open spec fn is_fresh(&self) -> bool {
        self.investor == Address::zero_spec()
    }

    /// The record belongs to `investor` in the fund at `fund_key`.
    pub open spec fn belongs_to(&self, investor: Address, fund_key: Address) -> bool {
        self.investor == investor && self.fund == fund_key
    }

    pub open spec fn value_spec(&self, fund_total_assets: u64, fund_total_shares: u64) -> int {
        assets_for_shares(fund_total_shares as int, fund_total_assets as int, self.shares as int)
    }

    /// Current value minus net capital put in (deposits less withdrawals).
    pub open spec fn pnl_spec(&self, fund_total_assets: u64, fund_total_shares: u64) -> int {
        self.value_spec(fund_total_assets, fund_total_shares) - (self.total_deposited
            - self.total_withdrawn)
    }

    /// A blank record, as the ledger allocates it before the first deposit.
    pub fn empty() -> (r: InvestorPosition)
        ensures
            r.is_fresh(),
            r.fund == Address::zero_spec(),
            r.shares == 0,
            r.initial_investment == 0,
            r.total_deposited == 0,
            r.total_withdrawn == 0,
    {
        InvestorPosition {
            investor: Address::zero(),
            fund: Address::zero(),
            shares: 0,
            initial_investment: 0,
            total_deposited: 0,
            total_withdrawn: 0,
            first_deposit_at: 0,
            last_activity_at: 0,
        }
    }

    pub fn belongs(&self, investor: &Address, fund_key: &Address) -> (r: bool)
        ensures
            r == self.belongs_to(*investor, *fund_key),
    {
        self.investor == *investor && self.fund == *fund_key
    }

    /// What the position's shares redeem for at the fund's current price.
    pub fn current_value(&self, fund_total_assets: u64, fund_total_shares: u64) -> (r: u64)
        requires
            self.value_spec(fund_total_assets, fund_total_shares) <= u64::MAX,
        ensures
            r == self.value_spec(fund_total_assets, fund_total_shares),
            fund_total_shares == 0 ==> r == 0,
    {
        if fund_total_shares == 0 {
            0
        } else {
            (mul_wide(self.shares, fund_total_assets) / (fund_total_shares as u128)) as u64
        }
    }

    /// Gain (or loss, when negative) of the position over the capital still invested.
    pub fn unrealized_pnl(&self, fund_total_assets: u64, fund_total_shares: u64) -> (r: i64)
        requires
            self.total_withdrawn <= self.total_deposited,
            self.value_spec(fund_total_assets, fund_total_shares) <= u64::MAX,
            i64::MIN <= self.pnl_spec(fund_total_assets, fund_total_shares) <= i64::MAX,
        ensures
            r == self.pnl_spec(fund_total_assets, fund_total_shares),
    {
        let current_value = self.current_value(fund_total_assets, fund_total_shares);
        let total_invested = self.total_deposited - self.total_withdrawn;
        (current_value as i128 - total_invested as i128) as i64
    }
}

} // verus!
