use vstd::prelude::*;

use crate::address::Address;
use crate::error::FundError;
use crate::fees::{
    fee_waterfall, net_to_investor_of, performance_fee_of, platform_fee_of,
    platform_performance_share_of, PERFORMANCE_FEE_CAP_BPS,
};
use crate::ledger::{lemma_scaled_down_le, mul_wide, Fund};
use crate::position::InvestorPosition;

verus! {

/// Why a deposit is refused, checked in this order; `None` when it goes through.
pub open spec fn deposit_refusal(
    fund: Fund,
    position: InvestorPosition,
    fund_key: Address,
    investor: Address,
    amount: u64,
) -> Option<FundError> {
    let minted = fund.mint_quote(amount);
    if amount == 0 {
        Some(FundError::InvalidAmount)
    } else if !position.is_fresh() && !position.belongs_to(investor, fund_key) {
        Some(FundError::InvalidInput)
    } else if minted > u64::MAX || fund.total_assets + amount > u64::MAX || fund.total_shares
        + minted > u64::MAX || (!position.is_fresh() && (position.shares + minted > u64::MAX
        || position.total_deposited + amount > u64::MAX)) {
        Some(FundError::MathOverflow)
    } else {
        None
    }
}

/// The position after a deposit that went through.
pub open spec fn position_after_deposit(
    position: InvestorPosition,
    fund_key: Address,
    investor: Address,
    amount: u64,
    minted: u64,
    now: i64,
) -> InvestorPosition {
    if position.is_fresh() {
        InvestorPosition {
            investor: investor,
            fund: fund_key,
            shares: minted,
            initial_investment: amount,
            total_deposited: amount,
            total_withdrawn: 0,
            first_deposit_at: now,
            last_activity_at: now,
        }
    } else {
        InvestorPosition {
            shares: (position.shares + minted) as u64,
            total_deposited: (position.total_deposited + amount) as u64,
            last_activity_at: now,
            ..position
        }
    }
}

/// Deposits `amount` base units for `investor`: mints shares at the current price, adds the
/// deposit and the shares to the fund, and opens the position on its first deposit.
/// Returns the shares minted.
pub fn deposit(
    fund: &mut Fund,
    position: &mut InvestorPosition,
    fund_key: Address,
    investor: Address,
    amount: u64,
    now: i64,
) -> (r: Result<u64, FundError>)
    ensures
        r is Err <==> deposit_refusal(*old(fund), *old(position), fund_key, investor, amount)
            is Some,
        r matches Err(e) ==> {
            &&& deposit_refusal(*old(fund), *old(position), fund_key, investor, amount) == Some(e)
            &&& *final(fund) == *old(fund)
            &&& *final(position) == *old(position)
        },
        r matches Ok(minted) ==> {
            &&& minted == old(fund).mint_quote(amount)
            &&& *final(fund) == (Fund {
                total_assets: (old(fund).total_assets + amount) as u64,
                total_shares: (old(fund).total_shares + minted) as u64,
                ..*old(fund)
            })
            &&& *final(position) == position_after_deposit(
                *old(position),
                fund_key,
                investor,
                amount,
                minted,
                now,
            )
        },
{
    if amount == 0 {
        return Err(FundError::InvalidAmount);
    }
    let fresh = position.investor.is_zero();
    if !fresh && !position.belongs(&investor, &fund_key) {
        return Err(FundError::InvalidInput);
    }
    let minted = match fund.checked_shares_to_mint(amount) {
        Some(m) => m,
        None => return Err(FundError::MathOverflow),
    };
    let new_assets = match fund.total_assets.checked_add(amount) {
        Some(v) => v,
        None => return Err(FundError::MathOverflow),
    };
    let new_total_shares = match fund.total_shares.checked_add(minted) {
        Some(v) => v,
        None => return Err(FundError::MathOverflow),
    };
    if fresh {
        *position = InvestorPosition {
            investor,
            fund: fund_key,
            shares: minted,
            initial_investment: amount,
            total_deposited: amount,
            total_withdrawn: 0,
            first_deposit_at: now,
            last_activity_at: now,
        };
    } else {
        let new_shares = match position.shares.checked_add(minted) {
            Some(v) => v,
            None => return Err(FundError::MathOverflow),
        };
        let new_deposited = match position.total_deposited.checked_add(amount) {
            Some(v) => v,
            None => return Err(FundError::MathOverflow),
        };
        position.shares = new_shares;
        position.total_deposited = new_deposited;
        position.last_activity_at = now;
    }
    fund.total_assets = new_assets;
    fund.total_shares = new_total_shares;
    Ok(minted)
}

/// Why a direct withdrawal is refused, checked in this order; `None` when it goes through.
pub open spec fn withdraw_refusal(
    fund: Fund,
    position: InvestorPosition,
    fund_key: Address,
    investor: Address,
    shares_to_burn: u64,
    vault_balance: u64,
) -> Option<FundError> {
    if shares_to_burn == 0 {
        Some(FundError::InvalidShares)
    } else if !position.belongs_to(investor, fund_key) {
        Some(FundError::InvalidInput)
    } else if position.shares < shares_to_burn {
        Some(FundError::InsufficientFunds)
    } else if fund.total_shares < shares_to_burn {
        Some(FundError::MathOverflow)
    } else if vault_balance < fund.redeem_quote(shares_to_burn) {
        Some(FundError::InsufficientFunds)
    } else if position.total_withdrawn + fund.redeem_quote(shares_to_burn) > u64::MAX {
        Some(FundError::MathOverflow)
    } else {
        None
    }
}

/// Burns `shares_to_burn` of the investor's shares and pays out their value at the fund's
/// live price, taken from a vault that holds `vault_balance`. Returns the amount paid.
pub fn withdraw(
    fund: &mut Fund,
    position: &mut InvestorPosition,
    fund_key: Address,
    investor: Address,
    shares_to_burn: u64,
    vault_balance: u64,
    now: i64,
) -> (r: Result<u64, FundError>)
    ensures
        r is Err <==> withdraw_refusal(
            *old(fund),
            *old(position),
            fund_key,
            investor,
            shares_to_burn,
            vault_balance,
        ) is Some,
        r matches Err(e) ==> {
            &&& withdraw_refusal(
                *old(fund),
                *old(position),
                fund_key,
                investor,
                shares_to_burn,
                vault_balance,
            ) == Some(e)
            &&& *final(fund) == *old(fund)
            &&& *final(position) == *old(position)
        },
        r matches Ok(paid) ==> {
            &&& paid == old(fund).redeem_quote(shares_to_burn)
            &&& *final(fund) == (Fund {
                total_assets: (old(fund).total_assets - paid) as u64,
                total_shares: (old(fund).total_shares - shares_to_burn) as u64,
                ..*old(fund)
            })
            &&& *final(position) == (InvestorPosition {
                shares: (old(position).shares - shares_to_burn) as u64,
                total_withdrawn: (old(position).total_withdrawn + paid) as u64,
                last_activity_at: now,
                ..*old(position)
            })
        },
{
    if shares_to_burn == 0 {
        return Err(FundError::InvalidShares);
    }
    if !position.belongs(&investor, &fund_key) {
        return Err(FundError::InvalidInput);
    }
    if position.shares < shares_to_burn {
        return Err(FundError::InsufficientFunds);
    }
    if fund.total_shares < shares_to_burn {
        return Err(FundError::MathOverflow);
    }
    proof {
        lemma_scaled_down_le(
            fund.total_assets as int,
            shares_to_burn as int,
            fund.total_shares as int,
        );
        assert(shares_to_burn as int * fund.total_assets as int == fund.total_assets as int
            * shares_to_burn as int) by (nonlinear_arith);
    }
    let paid = fund.calculate_withdrawal_amount(shares_to_burn);
    if vault_balance < paid {
        return Err(FundError::InsufficientFunds);
    }
    let new_withdrawn = match position.total_withdrawn.checked_add(paid) {
        Some(v) => v,
        None => return Err(FundError::MathOverflow),
    };
    fund.total_assets = fund.total_assets - paid;
    fund.total_shares = fund.total_shares - shares_to_burn;
    position.shares = position.shares - shares_to_burn;
    position.total_withdrawn = new_withdrawn;
    position.last_activity_at = now;
    Ok(paid)
}

/// Where the lamports of a payout go.
#[derive(Clone, Copy, Debug, PartialEq, Eq, Structural)]
pub struct Payout {
    pub investor: u64,
    pub manager: u64,
    pub treasury: u64,
}

/// The investor's value in a full exit: their share of the vault, rounded down.
pub open spec fn exit_value(position: InvestorPosition, fund: Fund, vault_balance: u64) -> int {
    vault_balance as int * position.shares as int / fund.total_shares as int
}

/// The performance fee rate of a full exit: the fund's, capped at 50%.
pub open spec fn capped_performance_bps(fund: Fund) -> u16 {
    if fund.performance_fee <= PERFORMANCE_FEE_CAP_BPS {
        fund.performance_fee
    } else {
        PERFORMANCE_FEE_CAP_BPS
    }
}

/// Why a full exit is refused, checked in this order; `None` when it goes through.
pub open spec fn full_exit_refusal(
    fund: Fund,
    position: InvestorPosition,
    fund_key: Address,
    investor: Address,
    vault_balance: u64,
) -> Option<FundError> {
    if !position.belongs_to(investor, fund_key) {
        Some(FundError::InvalidInput)
    } else if position.shares == 0 {
        Some(FundError::InvalidShares)
    } else if vault_balance == 0 {
        Some(FundError::InsufficientFunds)
    } else if fund.total_shares == 0 {
        Some(FundError::InvalidShares)
    } else if fund.total_shares < position.shares {
        Some(FundError::MathOverflow)
    } else {
        None
    }
}

/// Withdraws all of an investor's shares against the fund's native-coin vault, paying their
/// share of the vault through the fee waterfall (cost basis: the initial investment).
pub fn investor_fund_withdrawal(
    fund: &mut Fund,
    position: &mut InvestorPosition,
    fund_key: Address,
    investor: Address,
    vault_balance: u64,
    now: i64,
) -> (r: Result<Payout, FundError>)
    ensures
        r is Err <==> full_exit_refusal(*old(fund), *old(position), fund_key, investor, vault_balance)
            is Some,
        r matches Err(e) ==> {
            &&& full_exit_refusal(*old(fund), *old(position), fund_key, investor, vault_balance)
                == Some(e)
            &&& *final(fund) == *old(fund)
            &&& *final(position) == *old(position)
        },
        r matches Ok(payout) ==> {
            let value = exit_value(*old(position), *old(fund), vault_balance);
            let basis = old(position).initial_investment as int;
            let bps = capped_performance_bps(*old(fund)) as int;
            let perf = performance_fee_of(value, basis, bps);
            &&& value <= vault_balance
            &&& payout.investor == net_to_investor_of(value, basis, bps)
            &&& payout.manager == perf - platform_performance_share_of(perf)
            &&& payout.treasury == platform_fee_of(value) + platform_performance_share_of(perf)
            &&& payout.investor + payout.manager + payout.treasury == value
            &&& *final(fund) == (Fund {
                total_shares: (old(fund).total_shares - old(position).shares) as u64,
                total_assets: if old(fund).total_assets >= value {
                    (old(fund).total_assets - value) as u64
                } else {
                    0u64
                },
                ..*old(fund)
            })
            &&& *final(position) == (InvestorPosition {
                shares: 0,
                total_withdrawn: if old(position).total_withdrawn + payout.investor <= u64::MAX {
                    (old(position).total_withdrawn + payout.investor) as u64
                } else {
                    u64::MAX
                },
                last_activity_at: now,
                ..*old(position)
            })
        },
{
    if !position.belongs(&investor, &fund_key) {
        return Err(FundError::InvalidInput);
    }
    if position.shares == 0 {
        return Err(FundError::InvalidShares);
    }
    if vault_balance == 0 {
        return Err(FundError::InsufficientFunds);
    }
    if fund.total_shares == 0 {
        return Err(FundError::InvalidShares);
    }
    if fund.total_shares < position.shares {
        return Err(FundError::MathOverflow);
    }
    proof {
        lemma_scaled_down_le(
            vault_balance as int,
            position.shares as int,
            fund.total_shares as int,
        );
    }
    let value = (mul_wide(vault_balance, position.shares) / (fund.total_shares as u128)) as u64;
    let perf_bps = if fund.performance_fee <= PERFORMANCE_FEE_CAP_BPS {
        fund.performance_fee
    } else {
        PERFORMANCE_FEE_CAP_BPS
    };
    let split = match fee_waterfall(value, position.initial_investment, perf_bps) {
        Ok(s) => s,
        Err(e) => return Err(e),
    };
    let treasury = split.platform_fee + split.platform_performance_share;
    let payout = Payout {
        investor: split.net_to_investor,
        manager: split.manager_performance_share,
        treasury,
    };
    fund.total_shares = fund.total_shares - position.shares;
    fund.total_assets = fund.total_assets.saturating_sub(value);
    position.shares = 0;
    position.total_withdrawn = position.total_withdrawn.saturating_add(split.net_to_investor);
    position.last_activity_at = now;
    Ok(payout)
}

} // verus!
