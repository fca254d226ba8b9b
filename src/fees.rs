use vstd::prelude::*;

use crate::error::FundError;
use crate::ledger::mul_wide;

verus! {

/// The platform keeps one part in this many of every gross payout (1%).
pub const PLATFORM_FEE_DIVISOR: u64 = 100;

/// Basis points in a whole.
pub const BPS_DENOMINATOR: u64 = 10_000;

/// Highest performance fee the waterfall applies, in basis points (50%).
pub const PERFORMANCE_FEE_CAP_BPS: u16 = 5000;

/// The platform's part of a performance fee is one part in this many (20%).
pub const PLATFORM_PERFORMANCE_DIVISOR: u64 = 5;

/// How a gross payout divides between the platform, the manager and the investor.
#[derive(Clone, Copy, Debug, PartialEq, Eq, Structural)]
pub struct FeeSplit {
    pub platform_fee: u64,
    pub performance_fee: u64,
    /// The platform's 20% of the performance fee.
    pub platform_performance_share: u64,
    /// The manager's 80% of the performance fee.
    pub manager_performance_share: u64,
    pub net_to_investor: u64,
}

pub open spec fn platform_fee_of(gross: int) -> int {
    gross / PLATFORM_FEE_DIVISOR as int
}

/// Profit on the payout after the platform fee, against the investor's cost basis.
pub open spec fn profit_of(gross: int, cost_basis: int) -> int {
    let after_platform = gross - platform_fee_of(gross);
    if after_platform > cost_basis {
        after_platform - cost_basis
    } else {
        0
    }
}

pub open spec fn performance_fee_of(gross: int, cost_basis: int, performance_bps: int) -> int {
    profit_of(gross, cost_basis) * performance_bps / BPS_DENOMINATOR as int
}

pub open spec fn platform_performance_share_of(performance_fee: int) -> int {
    performance_fee / PLATFORM_PERFORMANCE_DIVISOR as int
}

pub open spec fn net_to_investor_of(gross: int, cost_basis: int, performance_bps: int) -> int {
    gross - platform_fee_of(gross) - performance_fee_of(gross, cost_basis, performance_bps)
}

impl FeeSplit {
    /// Everything that goes to the platform treasury.
    pub open spec fn treasury_total(&self) -> int {
        self.platform_fee + self.platform_performance_share
    }

    /// The split is the waterfall of `gross` against `cost_basis` at `performance_bps`.
    pub open spec fn is_waterfall_of(&self, gross: int, cost_basis: int, performance_bps: int) -> bool {
        let perf = performance_fee_of(gross, cost_basis, performance_bps);
        &&& self.platform_fee == platform_fee_of(gross)
        &&& self.performance_fee == perf
        &&& self.platform_performance_share == platform_performance_share_of(perf)
        &&& self.manager_performance_share == perf - platform_performance_share_of(perf)
        &&& self.net_to_investor == net_to_investor_of(gross, cost_basis, performance_bps)
    }

    /// What goes to the treasury, as one checked sum.
    pub fn treasury_amount(&self) -> (r: Option<u64>)
        ensures
            r == (if self.treasury_total() <= u64::MAX {
                Some(self.treasury_total() as u64)
            } else {
                None::<u64>
            }),
    {
        self.platform_fee.checked_add(self.platform_performance_share)
    }
}

/// Splits a gross payout: 1% platform fee, then a performance fee on the profit over
/// `cost_basis`, of which the platform takes 20% and the manager 80%; the investor gets
/// the rest. A performance fee above 50% is refused.
pub fn fee_waterfall(gross: u64, cost_basis: u64, performance_bps: u16) -> (r: Result<
    FeeSplit,
    FundError,
>)
    ensures
        performance_bps > PERFORMANCE_FEE_CAP_BPS ==> r == Err::<FeeSplit, FundError>(
            FundError::InvalidFee,
        ),
        performance_bps <= PERFORMANCE_FEE_CAP_BPS ==> r is Ok,
        r matches Ok(split) ==> {
            &&& split.is_waterfall_of(gross as int, cost_basis as int, performance_bps as int)
            &&& split.platform_fee + split.performance_fee + split.net_to_investor == gross
            &&& split.platform_performance_share + split.manager_performance_share
                == split.performance_fee
        },
{
    if performance_bps > PERFORMANCE_FEE_CAP_BPS {
        return Err(FundError::InvalidFee);
    }
    proof {
        lemma_waterfall_parts(gross, cost_basis, performance_bps);
    }
    let platform_fee = gross / PLATFORM_FEE_DIVISOR;
    let after_platform = gross - platform_fee;
    let profit = if after_platform > cost_basis {
        after_platform - cost_basis
    } else {
        0
    };
    let performance_fee = (mul_wide(profit, performance_bps as u64) / (BPS_DENOMINATOR as u128)) as u64;
    let platform_performance_share = performance_fee / PLATFORM_PERFORMANCE_DIVISOR;
    let manager_performance_share = performance_fee - platform_performance_share;
    let net_to_investor = after_platform - performance_fee;
    Ok(
        FeeSplit {
            platform_fee,
            performance_fee,
            platform_performance_share,
            manager_performance_share,
            net_to_investor,
        },
    )
}

/// For any gross payout and any performance fee up to 50%, the platform fee, the
/// performance fee and the investor's net are each non-negative and add up to the gross
/// exactly; the platform's and the manager's parts of the performance fee add up to it.
pub proof fn lemma_waterfall_conserves(gross: u64, cost_basis: u64, performance_bps: u16)
    requires
        performance_bps <= PERFORMANCE_FEE_CAP_BPS,
    ensures
        ({
            let g = gross as int;
            let c = cost_basis as int;
            let b = performance_bps as int;
            let perf = performance_fee_of(g, c, b);
            &&& 0 <= platform_fee_of(g)
            &&& 0 <= perf
            &&& 0 <= net_to_investor_of(g, c, b)
            &&& platform_fee_of(g) + perf + net_to_investor_of(g, c, b) == g
            &&& 0 <= platform_performance_share_of(perf) <= perf
        }),
{
    lemma_waterfall_parts(gross, cost_basis, performance_bps);
}

/// The bounds that keep every stage of the waterfall within 64 bits and non-negative.
proof fn lemma_waterfall_parts(gross: u64, cost_basis: u64, performance_bps: u16)
    requires
        performance_bps <= PERFORMANCE_FEE_CAP_BPS,
    ensures
        ({
            let g = gross as int;
            let c = cost_basis as int;
            let b = performance_bps as int;
            let after = g - platform_fee_of(g);
            let perf = performance_fee_of(g, c, b);
            &&& 0 <= platform_fee_of(g) <= g
            &&& 0 <= profit_of(g, c) <= after
            &&& 0 <= perf <= profit_of(g, c)
            &&& perf <= after
            &&& 0 <= platform_performance_share_of(perf) <= perf
        }),
{
    let g = gross as int;
    let c = cost_basis as int;
    let b = performance_bps as int;
    let p = profit_of(g, c);
    assert(0 <= p * b <= p * 10000) by (nonlinear_arith)
        requires
            0 <= p,
            0 <= b <= 10000,
    ;
    assert(p * b / 10000 <= p) by (nonlinear_arith)
        requires
            0 <= p * b <= p * 10000,
    ;
    assert(0 <= p * b / 10000) by (nonlinear_arith)
        requires
            0 <= p * b,
    ;
}

} // verus!
