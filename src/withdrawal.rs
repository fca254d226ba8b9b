use vstd::prelude::*;

use crate::accounting::Payout;
use crate::address::{Address, TokenHolding};
use crate::error::FundError;
use crate::fees::{
    fee_waterfall, net_to_investor_of, performance_fee_of, platform_fee_of,
    platform_performance_share_of, PERFORMANCE_FEE_CAP_BPS,
};
use crate::ledger::{lemma_scaled_down_le, mul_wide, Fund};
use crate::position::InvestorPosition;
use crate::swap::{allow_list_permits, list_view, permits, settle_swap, swap_refusal};

verus! {

/// Denominator of a withdrawal's fraction: parts per million.
pub const PRECISION: u64 = 1_000_000;

/// Where an investor's proportional exit stands.
#[derive(Clone, Copy, Debug, PartialEq, Eq, Structural)]
pub enum WithdrawalStatus {
    Initiated,
    Liquidating,
    ReadyToFinalize,
    Completed,
    Failed,
}

impl WithdrawalStatus {
    /// Neither completed nor failed.
    pub open spec fn is_open(self) -> bool {
        self != WithdrawalStatus::Completed && self != WithdrawalStatus::Failed
    }

    /// Legs may still be liquidated.
    pub open spec fn accepts_legs(self) -> bool {
        self == WithdrawalStatus::Initiated || self == WithdrawalStatus::Liquidating
    }
}

/// One investor's in-flight proportional exit from one fund.
#[derive(Clone, Copy, Debug, PartialEq, Eq, Structural)]
pub struct WithdrawalState {
    pub investor: Address,
    /// The fund the exit is scoped to.
    pub vault: Address,
    pub shares_to_withdraw: u64,
    pub total_shares_snapshot: u64,
    /// The investor's claim at initiation, in parts per million; never revised.
    pub fraction_bps: u32,
    pub wsol_unwrapped: u64,
    pub positions_liquidated: u8,
    pub total_positions: u8,
    /// Base-asset proceeds gathered by the legs so far.
    pub sol_accumulated: u64,
    /// Sum of the ceilings of every asset liquidated so far.
    pub input_allowed_total_sum: u64,
    /// Sum of the inputs liquidated so far, over every asset.
    pub input_liquidated_sum: u64,
    pub status: WithdrawalStatus,
    pub created_at: i64,
    pub bump: u8,
}

/// Per-asset liquidation ledger of one withdrawal.
#[derive(Clone, Copy, Debug, PartialEq, Eq, Structural)]
pub struct WithdrawalMintProgress {
    pub withdrawal: Address,
    pub mint: Address,
    pub amount_liquidated: u64,
    pub bump: u8,
}

/// A fund's holding of one asset, as recorded at its last update.
#[derive(Clone, Copy, Debug, PartialEq, Eq, Structural)]
pub struct VaultPosition {
    pub vault: Address,
    pub mint: Address,
    pub amount: u64,
    pub created_at: i64,
    pub last_updated: i64,
    pub bump: u8,
}

impl WithdrawalMintProgress {
    /// A record that no leg has advanced yet.
    pub fn empty() -> (r: WithdrawalMintProgress)
        ensures
            r.amount_liquidated == 0,
            r.withdrawal == Address::zero_spec(),
            r.mint == Address::zero_spec(),
    {
        WithdrawalMintProgress {
            withdrawal: Address::zero(),
            mint: Address::zero(),
            amount_liquidated: 0,
            bump: 0,
        }
    }
}

/// The claim `shares` out of `total_shares` stands for, in parts per million, rounded down.
pub open spec fn fraction_of(shares: int, total_shares: int) -> int {
    if total_shares == 0 {
        0
    } else {
        shares * PRECISION as int / total_shares
    }
}

/// Why a withdrawal cannot be initiated, checked in this order.
pub open spec fn initiate_refusal(
    fund: Fund,
    position: InvestorPosition,
    fund_key: Address,
    investor: Address,
    shares_to_withdraw: u64,
) -> Option<FundError> {
    if shares_to_withdraw == 0 {
        Some(FundError::InvalidShares)
    } else if !position.belongs_to(investor, fund_key) {
        Some(FundError::InvalidInput)
    } else if position.shares < shares_to_withdraw || fund.total_shares < shares_to_withdraw {
        Some(FundError::InsufficientFunds)
    } else {
        None
    }
}

/// Opens a proportional exit of `shares_to_withdraw` shares: snapshots the fund's share
/// count and the claim they stand for, with every accumulator at zero.
pub fn initiate_withdrawal(
    fund: &Fund,
    position: &InvestorPosition,
    fund_key: Address,
    investor: Address,
    shares_to_withdraw: u64,
    now: i64,
    bump: u8,
) -> (r: Result<WithdrawalState, FundError>)
    ensures
        r is Err <==> initiate_refusal(*fund, *position, fund_key, investor, shares_to_withdraw)
            is Some,
        r matches Err(e) ==> initiate_refusal(
            *fund,
            *position,
            fund_key,
            investor,
            shares_to_withdraw,
        ) == Some(e),
        r matches Ok(ws) ==> ws == (WithdrawalState {
            investor: investor,
            vault: fund_key,
            shares_to_withdraw: shares_to_withdraw,
            total_shares_snapshot: fund.total_shares,
            fraction_bps: fraction_of(shares_to_withdraw as int, fund.total_shares as int) as u32,
            wsol_unwrapped: 0,
            positions_liquidated: 0,
            total_positions: 0,
            sol_accumulated: 0,
            input_allowed_total_sum: 0,
            input_liquidated_sum: 0,
            status: WithdrawalStatus::Initiated,
            created_at: now,
            bump: bump,
        }),
        r matches Ok(ws) ==> 0 < ws.fraction_bps <= PRECISION || (ws.fraction_bps == 0
            && shares_to_withdraw * PRECISION < fund.total_shares),
{
    if shares_to_withdraw == 0 {
        return Err(FundError::InvalidShares);
    }
    if !position.belongs(&investor, &fund_key) {
        return Err(FundError::InvalidInput);
    }
    if position.shares < shares_to_withdraw || fund.total_shares < shares_to_withdraw {
        return Err(FundError::InsufficientFunds);
    }
    let total_shares_snapshot = fund.total_shares;
    proof {
        lemma_scaled_down_le(
            PRECISION as int,
            shares_to_withdraw as int,
            total_shares_snapshot as int,
        );
        assert(shares_to_withdraw as int * PRECISION as int == PRECISION as int
            * shares_to_withdraw as int) by (nonlinear_arith);
        let q = shares_to_withdraw as int * PRECISION as int / total_shares_snapshot as int;
        if q == 0 {
            assert((shares_to_withdraw as int) * (PRECISION as int) < total_shares_snapshot) by (
            nonlinear_arith)
                requires
                    q == shares_to_withdraw as int * PRECISION as int / total_shares_snapshot as int,
                    q == 0,
                    total_shares_snapshot > 0,
                    shares_to_withdraw as int * PRECISION as int >= 0,
            ;
        }
    }
    let fraction_bps = (mul_wide(shares_to_withdraw, PRECISION) / (total_shares_snapshot as u128)) as u32;
    Ok(
        WithdrawalState {
            investor,
            vault: fund_key,
            shares_to_withdraw,
            total_shares_snapshot,
            fraction_bps,
            wsol_unwrapped: 0,
            positions_liquidated: 0,
            total_positions: 0,
            sol_accumulated: 0,
            input_allowed_total_sum: 0,
            input_liquidated_sum: 0,
            status: WithdrawalStatus::Initiated,
            created_at: now,
            bump,
        },
    )
}

/// The investor's ceiling on an asset: their fraction of the fund's current holding.
pub open spec fn leg_allowance(holding: u64, fraction_bps: u32) -> int {
    holding as int * fraction_bps as int / PRECISION as int
}

/// One liquidation leg: sell `in_amount` of the asset `mint` through `router`, expecting at
/// least `minimum_out` of the base asset. A dry run forwards the call without advancing
/// progress, for routers that want a preparatory instruction first.
#[derive(Clone, Copy, Debug, PartialEq, Eq, Structural)]
pub struct LegRequest {
    pub mint: Address,
    pub in_amount: u64,
    pub minimum_out: u64,
    pub router: Address,
    pub dry_run: bool,
}

/// Why a leg may not be forwarded, checked in this order.
pub open spec fn leg_refusal(
    ws: WithdrawalState,
    ws_key: Address,
    fund_key: Address,
    investor: Address,
    progress: WithdrawalMintProgress,
    source: TokenHolding,
    leg: LegRequest,
    routers: Option<Seq<Address>>,
) -> Option<FundError> {
    if ws.investor != investor || ws.vault != fund_key {
        Some(FundError::InvalidInput)
    } else if !ws.status.accepts_legs() {
        Some(FundError::InvalidWithdrawalStatus)
    } else if !permits(routers, leg.router) {
        Some(FundError::InvalidInput)
    } else if source.owner != fund_key {
        Some(FundError::InvalidInput)
    } else if source.mint != leg.mint {
        Some(FundError::InvalidMint)
    } else if ws.fraction_bps == 0 || ws.fraction_bps > PRECISION {
        Some(FundError::InvalidInput)
    } else if progress.amount_liquidated != 0 && (progress.withdrawal != ws_key || progress.mint
        != leg.mint) {
        Some(FundError::InvalidInput)
    } else if leg.in_amount == 0 || progress.amount_liquidated + leg.in_amount > leg_allowance(
        source.amount,
        ws.fraction_bps,
    ) {
        Some(FundError::InvalidAmount)
    } else {
        None
    }
}

/// The checks made before a leg is forwarded: the record is this investor's for this fund
/// and open to legs, the router is allowed, the source is the fund's holding of the asset,
/// the claim is neither zero nor above the whole fund, a progress record that already
/// advanced belongs to this withdrawal and asset, and
/// `0 < in_amount <= ceiling - already liquidated`, the ceiling being the investor's fraction
/// of the holding's current balance. Returns the ceiling.
pub fn check_leg(
    ws: &WithdrawalState,
    ws_key: &Address,
    fund_key: &Address,
    investor: &Address,
    progress: &WithdrawalMintProgress,
    source: &TokenHolding,
    leg: &LegRequest,
    routers: &Option<Vec<Address>>,
) -> (r: Result<u64, FundError>)
    ensures
        r == (match leg_refusal(
            *ws,
            *ws_key,
            *fund_key,
            *investor,
            *progress,
            *source,
            *leg,
            list_view(routers),
        ) {
            Some(e) => Err::<u64, FundError>(e),
            None => Ok(leg_allowance(source.amount, ws.fraction_bps) as u64),
        }),
        r matches Ok(allowed) ==> allowed == leg_allowance(source.amount, ws.fraction_bps),
{
    if ws.investor != *investor || ws.vault != *fund_key {
        return Err(FundError::InvalidInput);
    }
    if !(ws.status == WithdrawalStatus::Initiated || ws.status == WithdrawalStatus::Liquidating) {
        return Err(FundError::InvalidWithdrawalStatus);
    }
    if !allow_list_permits(routers, &leg.router) {
        return Err(FundError::InvalidInput);
    }
    if source.owner != *fund_key {
        return Err(FundError::InvalidInput);
    }
    if source.mint != leg.mint {
        return Err(FundError::InvalidMint);
    }
    if ws.fraction_bps == 0 || ws.fraction_bps as u64 > PRECISION {
        return Err(FundError::InvalidInput);
    }
    proof {
        lemma_scaled_down_le(source.amount as int, ws.fraction_bps as int, PRECISION as int);
    }
    if progress.amount_liquidated != 0 && (progress.withdrawal != *ws_key || progress.mint
        != leg.mint) {
        return Err(FundError::InvalidInput);
    }
    let allowed_wide = mul_wide(source.amount, ws.fraction_bps as u64) / (PRECISION as u128);
    let done = progress.amount_liquidated as u128;
    if leg.in_amount == 0 || done + (leg.in_amount as u128) > allowed_wide {
        return Err(FundError::InvalidAmount);
    }
    Ok(allowed_wide as u64)
}

/// Why a forwarded leg is not recorded: the checks of `check_leg`, the delivered amount,
/// then the accumulators' ranges.
pub open spec fn leg_outcome_refusal(
    ws: WithdrawalState,
    ws_key: Address,
    fund_key: Address,
    investor: Address,
    progress: WithdrawalMintProgress,
    source: TokenHolding,
    leg: LegRequest,
    routers: Option<Seq<Address>>,
    pre_balance: u64,
    post_balance: u64,
) -> Option<FundError> {
    let allowed = leg_allowance(source.amount, ws.fraction_bps);
    let received = post_balance - pre_balance;
    if leg_refusal(ws, ws_key, fund_key, investor, progress, source, leg, routers) is Some {
        leg_refusal(ws, ws_key, fund_key, investor, progress, source, leg, routers)
    } else if swap_refusal(pre_balance, post_balance, leg.minimum_out) is Some {
        swap_refusal(pre_balance, post_balance, leg.minimum_out)
    } else if !leg.dry_run && (ws.sol_accumulated + received > u64::MAX || ws.input_liquidated_sum
        + leg.in_amount > u64::MAX || (progress.amount_liquidated == 0
        && ws.input_allowed_total_sum + allowed > u64::MAX)) {
        Some(FundError::MathOverflow)
    } else {
        None
    }
}

/// Liquidates one leg of a withdrawal. Given the balances of the base-asset destination
/// around the forwarded swap, it checks the leg (`check_leg`), measures the proceeds
/// (`settle_swap`), and, unless this is a dry run, advances the asset's progress by
/// `in_amount`, adds the proceeds to the withdrawal, adds the asset's ceiling to the
/// allowed sum on its first advancing leg, and marks the withdrawal as liquidating.
/// Returns the proceeds.
pub fn withdraw_swap_router(
    ws: &mut WithdrawalState,
    progress: &mut WithdrawalMintProgress,
    ws_key: &Address,
    fund_key: &Address,
    investor: &Address,
    source: &TokenHolding,
    leg: &LegRequest,
    routers: &Option<Vec<Address>>,
    pre_balance: u64,
    post_balance: u64,
) -> (r: Result<u64, FundError>)
    ensures
        r is Err <==> leg_outcome_refusal(
            *old(ws),
            *ws_key,
            *fund_key,
            *investor,
            *old(progress),
            *source,
            *leg,
            list_view(routers),
            pre_balance,
            post_balance,
        ) is Some,
        r matches Err(e) ==> {
            &&& leg_outcome_refusal(
                *old(ws),
                *ws_key,
                *fund_key,
                *investor,
                *old(progress),
                *source,
                *leg,
                list_view(routers),
                pre_balance,
                post_balance,
            ) == Some(e)
            &&& *final(ws) == *old(ws)
            &&& *final(progress) == *old(progress)
        },
        r matches Ok(received) ==> {
            let allowed = leg_allowance(source.amount, old(ws).fraction_bps);
            &&& received == post_balance - pre_balance
            &&& received >= leg.minimum_out
            &&& leg.dry_run ==> *final(ws) == *old(ws) && *final(progress) == *old(progress)
            &&& !leg.dry_run ==> {
                &&& *final(progress) == (WithdrawalMintProgress {
                    withdrawal: *ws_key,
                    mint: leg.mint,
                    amount_liquidated: (old(progress).amount_liquidated + leg.in_amount) as u64,
                    bump: old(progress).bump,
                })
                &&& final(progress).amount_liquidated <= allowed
                &&& *final(ws) == (WithdrawalState {
                    sol_accumulated: (old(ws).sol_accumulated + received) as u64,
                    input_liquidated_sum: (old(ws).input_liquidated_sum + leg.in_amount) as u64,
                    input_allowed_total_sum: if old(progress).amount_liquidated == 0 {
                        (old(ws).input_allowed_total_sum + allowed) as u64
                    } else {
                        old(ws).input_allowed_total_sum
                    },
                    status: WithdrawalStatus::Liquidating,
                    ..*old(ws)
                })
            }
        },
{
    let allowed = match check_leg(ws, ws_key, fund_key, investor, progress, source, leg, routers) {
        Ok(a) => a,
        Err(e) => return Err(e),
    };
    let received = match settle_swap(pre_balance, post_balance, leg.minimum_out) {
        Ok(v) => v,
        Err(e) => return Err(e),
    };
    if leg.dry_run {
        return Ok(received);
    }
    let sol = match ws.sol_accumulated.checked_add(received) {
        Some(v) => v,
        None => return Err(FundError::MathOverflow),
    };
    let liquidated_sum = match ws.input_liquidated_sum.checked_add(leg.in_amount) {
        Some(v) => v,
        None => return Err(FundError::MathOverflow),
    };
    let first_leg = progress.amount_liquidated == 0;
    let allowed_sum = if first_leg {
        match ws.input_allowed_total_sum.checked_add(allowed) {
            Some(v) => v,
            None => return Err(FundError::MathOverflow),
        }
    } else {
        ws.input_allowed_total_sum
    };
    progress.withdrawal = *ws_key;
    progress.mint = leg.mint;
    progress.amount_liquidated = progress.amount_liquidated + leg.in_amount;
    ws.sol_accumulated = sol;
    ws.input_liquidated_sum = liquidated_sum;
    ws.input_allowed_total_sum = allowed_sum;
    ws.status = WithdrawalStatus::Liquidating;
    Ok(received)
}

/// A leg whose input would take the asset's liquidated amount above the investor's ceiling
/// on that asset is refused, and a leg that is recorded leaves the liquidated amount within
/// the ceiling.
pub proof fn lemma_leg_within_allowance(
    ws: WithdrawalState,
    ws_key: Address,
    fund_key: Address,
    investor: Address,
    progress: WithdrawalMintProgress,
    source: TokenHolding,
    leg: LegRequest,
    routers: Option<Seq<Address>>,
    pre_balance: u64,
    post_balance: u64,
)
    ensures
        progress.amount_liquidated + leg.in_amount > leg_allowance(source.amount, ws.fraction_bps)
            ==> leg_outcome_refusal(
            ws,
            ws_key,
            fund_key,
            investor,
            progress,
            source,
            leg,
            routers,
            pre_balance,
            post_balance,
        ) is Some,
        leg_outcome_refusal(
            ws,
            ws_key,
            fund_key,
            investor,
            progress,
            source,
            leg,
            routers,
            pre_balance,
            post_balance,
        ) is None ==> progress.amount_liquidated + leg.in_amount <= leg_allowance(
            source.amount,
            ws.fraction_bps,
        ),
{
}

/// The completion factor `k = min(1, liquidated / allowed)` as a numerator and a
/// denominator; `0 / 1` when nothing was allowed.
pub open spec fn completion_num(ws: WithdrawalState) -> int {
    if ws.input_allowed_total_sum == 0 {
        0
    } else if ws.input_liquidated_sum <= ws.input_allowed_total_sum {
        ws.input_liquidated_sum as int
    } else {
        ws.input_allowed_total_sum as int
    }
}

pub open spec fn completion_den(ws: WithdrawalState) -> int {
    if ws.input_allowed_total_sum == 0 {
        1
    } else {
        ws.input_allowed_total_sum as int
    }
}

/// The shares a finalization burns: the requested shares scaled by `k`, rounded down.
pub open spec fn shares_burned(ws: WithdrawalState) -> int {
    ws.shares_to_withdraw as int * completion_num(ws) / completion_den(ws)
}

/// The investor's claim scaled by `k`, in parts per million, rounded down.
pub open spec fn effective_fraction(ws: WithdrawalState) -> int {
    ws.fraction_bps as int * completion_num(ws) / completion_den(ws)
}

/// The gross payout: the proceeds the legs gathered when there are any, else the scaled
/// claim on the fund's current base holding.
pub open spec fn gross_payout(ws: WithdrawalState, base_holding: u64) -> int {
    if ws.sol_accumulated > 0 {
        ws.sol_accumulated as int
    } else {
        base_holding as int * effective_fraction(ws) / PRECISION as int
    }
}

/// The investor's cost basis for `burned` shares: their deposits in proportion.
pub open spec fn cost_basis_of(position: InvestorPosition, burned: int) -> int {
    if position.shares == 0 {
        0
    } else {
        position.total_deposited as int * burned / position.shares as int
    }
}

/// Why a withdrawal cannot be finalized, checked in this order.
pub open spec fn finalize_refusal(
    fund: Fund,
    position: InvestorPosition,
    ws: WithdrawalState,
    fund_key: Address,
    investor: Address,
    base_holding: u64,
) -> Option<FundError> {
    let burned = shares_burned(ws);
    let gross = gross_payout(ws, base_holding);
    let basis = cost_basis_of(position, burned);
    if ws.investor != investor || ws.vault != fund_key || !position.belongs_to(investor, fund_key) {
        Some(FundError::InvalidInput)
    } else if !ws.status.is_open() {
        Some(FundError::InvalidWithdrawalStatus)
    } else if position.shares < burned || fund.total_shares < burned || gross > u64::MAX {
        Some(FundError::MathOverflow)
    } else if fund.performance_fee > PERFORMANCE_FEE_CAP_BPS {
        Some(FundError::InvalidFee)
    } else if base_holding < gross {
        Some(FundError::InsufficientFunds)
    } else if fund.total_assets < gross || position.total_withdrawn + net_to_investor_of(
        gross,
        basis,
        fund.performance_fee as int,
    ) > u64::MAX {
        Some(FundError::MathOverflow)
    } else {
        None
    }
}

/// What a finalization paid and burned.
#[derive(Clone, Copy, Debug, PartialEq, Eq, Structural)]
pub struct Settlement {
    pub payout: Payout,
    pub shares_burned: u64,
    pub gross: u64,
}

/// Closes a withdrawal: scales the burn and the claim by the completion factor, takes the
/// gross payout (the legs' proceeds, or the scaled claim on `base_holding`), applies the fee
/// waterfall against the investor's proportional cost basis, and commits it: the fund loses
/// the burned shares and the gross, the position the burned shares, and the record is
/// completed.
pub fn finalize_withdrawal(
    fund: &mut Fund,
    position: &mut InvestorPosition,
    ws: &mut WithdrawalState,
    fund_key: &Address,
    investor: &Address,
    base_holding: u64,
    now: i64,
) -> (r: Result<Settlement, FundError>)
    ensures
        r is Err <==> finalize_refusal(
            *old(fund),
            *old(position),
            *old(ws),
            *fund_key,
            *investor,
            base_holding,
        ) is Some,
        r matches Err(e) ==> {
            &&& finalize_refusal(
                *old(fund),
                *old(position),
                *old(ws),
                *fund_key,
                *investor,
                base_holding,
            ) == Some(e)
            &&& *final(fund) == *old(fund)
            &&& *final(position) == *old(position)
            &&& *final(ws) == *old(ws)
        },
        r matches Ok(s) ==> {
            let burned = shares_burned(*old(ws));
            let gross = gross_payout(*old(ws), base_holding);
            let basis = cost_basis_of(*old(position), burned);
            let bps = old(fund).performance_fee as int;
            let perf = performance_fee_of(gross, basis, bps);
            &&& s.shares_burned == burned
            &&& s.gross == gross
            &&& s.payout.investor == net_to_investor_of(gross, basis, bps)
            &&& s.payout.manager == perf - platform_performance_share_of(perf)
            &&& s.payout.treasury == platform_fee_of(gross) + platform_performance_share_of(perf)
            &&& s.payout.investor + s.payout.manager + s.payout.treasury == gross
            &&& *final(fund) == (Fund {
                total_shares: (old(fund).total_shares - burned) as u64,
                total_assets: (old(fund).total_assets - gross) as u64,
                ..*old(fund)
            })
            &&& *final(position) == (InvestorPosition {
                shares: (old(position).shares - burned) as u64,
                total_withdrawn: (old(position).total_withdrawn + s.payout.investor) as u64,
                last_activity_at: now,
                ..*old(position)
            })
            &&& *final(ws) == (WithdrawalState { status: WithdrawalStatus::Completed, ..*old(ws) })
        },
{
    if ws.investor != *investor || ws.vault != *fund_key || !position.belongs(investor, fund_key) {
        return Err(FundError::InvalidInput);
    }
    if ws.status == WithdrawalStatus::Completed || ws.status == WithdrawalStatus::Failed {
        return Err(FundError::InvalidWithdrawalStatus);
    }
    let allowed_sum = ws.input_allowed_total_sum;
    let done_sum = ws.input_liquidated_sum;
    let k_num: u64 = if allowed_sum == 0 {
        0
    } else if done_sum <= allowed_sum {
        done_sum
    } else {
        allowed_sum
    };
    let k_den: u64 = if allowed_sum == 0 {
        1
    } else {
        allowed_sum
    };
    proof {
        lemma_scaled_down_le(ws.shares_to_withdraw as int, k_num as int, k_den as int);
        lemma_scaled_down_le(ws.fraction_bps as int, k_num as int, k_den as int);
    }
    let burned = (mul_wide(ws.shares_to_withdraw, k_num) / (k_den as u128)) as u64;
    let fraction_eff = (mul_wide(ws.fraction_bps as u64, k_num) / (k_den as u128)) as u64;
    if position.shares < burned || fund.total_shares < burned {
        return Err(FundError::MathOverflow);
    }
    let gross: u64 = if ws.sol_accumulated > 0 {
        ws.sol_accumulated
    } else {
        let wide = mul_wide(base_holding, fraction_eff) / (PRECISION as u128);
        if wide > u64::MAX as u128 {
            return Err(FundError::MathOverflow);
        }
        wide as u64
    };
    let basis: u64 = if position.shares == 0 {
        0
    } else {
        proof {
            lemma_scaled_down_le(
                position.total_deposited as int,
                burned as int,
                position.shares as int,
            );
        }
        (mul_wide(position.total_deposited, burned) / (position.shares as u128)) as u64
    };
    let split = match fee_waterfall(gross, basis, fund.performance_fee) {
        Ok(s) => s,
        Err(e) => return Err(e),
    };
    if base_holding < gross {
        return Err(FundError::InsufficientFunds);
    }
    if fund.total_assets < gross {
        return Err(FundError::MathOverflow);
    }
    let new_withdrawn = match position.total_withdrawn.checked_add(split.net_to_investor) {
        Some(v) => v,
        None => return Err(FundError::MathOverflow),
    };
    let payout = Payout {
        investor: split.net_to_investor,
        manager: split.manager_performance_share,
        treasury: split.platform_fee + split.platform_performance_share,
    };
    fund.total_shares = fund.total_shares - burned;
    fund.total_assets = fund.total_assets - gross;
    position.shares = position.shares - burned;
    position.total_withdrawn = new_withdrawn;
    position.last_activity_at = now;
    ws.status = WithdrawalStatus::Completed;
    Ok(Settlement { payout, shares_burned: burned, gross })
}

/// A withdrawal whose legs liquidated at least everything allowed (`k = 1`) burns exactly
/// the requested shares on finalization.
pub proof fn lemma_full_completion_burns_all(ws: WithdrawalState)
    requires
        ws.input_allowed_total_sum > 0,
        ws.input_liquidated_sum >= ws.input_allowed_total_sum,
    ensures
        shares_burned(ws) == ws.shares_to_withdraw,
{
    let a = ws.input_allowed_total_sum as int;
    let s = ws.shares_to_withdraw as int;
    assert(s * a / a == s) by (nonlinear_arith)
        requires
            a > 0,
    ;
}

/// A withdrawal whose legs liquidated exactly half of what was allowed (`k = 1/2`) burns
/// half the requested shares, rounded down, on finalization.
pub proof fn lemma_half_completion_burns_half(ws: WithdrawalState)
    requires
        ws.input_allowed_total_sum > 0,
        2 * ws.input_liquidated_sum == ws.input_allowed_total_sum,
    ensures
        shares_burned(ws) == ws.shares_to_withdraw / 2,
{
    let l = ws.input_liquidated_sum as int;
    let s = ws.shares_to_withdraw as int;
    assert(s * l / (2 * l) == s / 2) by (nonlinear_arith)
        requires
            l > 0,
            s >= 0,
    {
        vstd::arithmetic::div_mod::lemma_div_denominator(s * l, l, 2);
        assert(s * l / l == s) by (nonlinear_arith)
            requires
                l > 0,
        ;
    }
}

/// Why the native-coin leg of a withdrawal is refused, checked in this order.
pub open spec fn unwrap_refusal(
    ws: WithdrawalState,
    fund_key: Address,
    investor: Address,
    wsol_mint: Address,
    native_mint: Address,
    holding: TokenHolding,
    unwrap_wsol: bool,
    min_lamports: u64,
) -> Option<FundError> {
    let portion = leg_allowance(holding.amount, ws.fraction_bps);
    if ws.investor != investor || ws.vault != fund_key {
        Some(FundError::InvalidInput)
    } else if !ws.status.accepts_legs() {
        Some(FundError::InvalidWithdrawalStatus)
    } else if ws.fraction_bps == 0 || ws.fraction_bps > PRECISION {
        Some(FundError::InvalidInput)
    } else if wsol_mint != native_mint || holding.mint != wsol_mint {
        Some(FundError::InvalidMint)
    } else if holding.owner != fund_key {
        Some(FundError::InvalidInput)
    } else if portion < min_lamports {
        Some(FundError::InsufficientFunds)
    } else if unwrap_wsol && portion > 0 && portion != holding.amount {
        Some(FundError::InvalidAmount)
    } else {
        None
    }
}

/// The native-coin leg of a withdrawal: the investor's portion of the fund's wrapped
/// native holding. The holding can only be unwrapped whole, so unwrapping is refused unless
/// the portion is all of it. Marks the withdrawal as liquidating; when it unwraps, credits
/// the portion and marks the withdrawal ready to finalize. Returns whether the holding is
/// to be closed into native coin.
pub fn liquidate_positions_batch(
    ws: &mut WithdrawalState,
    fund_key: &Address,
    investor: &Address,
    wsol_mint: &Address,
    native_mint: &Address,
    holding: &TokenHolding,
    unwrap_wsol: bool,
    min_lamports: u64,
) -> (r: Result<bool, FundError>)
    ensures
        r is Err <==> unwrap_refusal(
            *old(ws),
            *fund_key,
            *investor,
            *wsol_mint,
            *native_mint,
            *holding,
            unwrap_wsol,
            min_lamports,
        ) is Some,
        r matches Err(e) ==> {
            &&& unwrap_refusal(
                *old(ws),
                *fund_key,
                *investor,
                *wsol_mint,
                *native_mint,
                *holding,
                unwrap_wsol,
                min_lamports,
            ) == Some(e)
            &&& *final(ws) == *old(ws)
        },
        r matches Ok(close) ==> {
            let portion = leg_allowance(holding.amount, old(ws).fraction_bps);
            &&& close == (unwrap_wsol && portion > 0)
            &&& close ==> *final(ws) == (WithdrawalState {
                sol_accumulated: if old(ws).sol_accumulated + portion <= u64::MAX {
                    (old(ws).sol_accumulated + portion) as u64
                } else {
                    u64::MAX
                },
                positions_liquidated: old(ws).total_positions,
                status: WithdrawalStatus::ReadyToFinalize,
                ..*old(ws)
            })
            &&& !close ==> *final(ws) == (WithdrawalState {
                status: WithdrawalStatus::Liquidating,
                ..*old(ws)
            })
        },
{
    if ws.investor != *investor || ws.vault != *fund_key {
        return Err(FundError::InvalidInput);
    }
    if !(ws.status == WithdrawalStatus::Initiated || ws.status == WithdrawalStatus::Liquidating) {
        return Err(FundError::InvalidWithdrawalStatus);
    }
    if ws.fraction_bps == 0 || ws.fraction_bps as u64 > PRECISION {
        return Err(FundError::InvalidInput);
    }
    proof {
        lemma_scaled_down_le(holding.amount as int, ws.fraction_bps as int, PRECISION as int);
    }
    if *wsol_mint != *native_mint || holding.mint != *wsol_mint {
        return Err(FundError::InvalidMint);
    }
    if holding.owner != *fund_key {
        return Err(FundError::InvalidInput);
    }
    let portion_wide = mul_wide(holding.amount, ws.fraction_bps as u64) / (PRECISION as u128);
    if portion_wide < min_lamports as u128 {
        return Err(FundError::InsufficientFunds);
    }
    let close = unwrap_wsol && portion_wide > 0;
    if close && portion_wide != holding.amount as u128 {
        return Err(FundError::InvalidAmount);
    }
    if close {
        let portion = portion_wide as u64;
        ws.sol_accumulated = ws.sol_accumulated.saturating_add(portion);
        ws.positions_liquidated = ws.total_positions;
        ws.status = WithdrawalStatus::ReadyToFinalize;
    } else {
        ws.status = WithdrawalStatus::Liquidating;
    }
    Ok(close)
}

} // verus!
