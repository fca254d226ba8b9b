use managed_funds::accounting::deposit;
use managed_funds::address::{Address, TokenHolding};
use managed_funds::error::FundError;
use managed_funds::ledger::Fund;
use managed_funds::position::InvestorPosition;
use managed_funds::ledger::mul_wide;
use managed_funds::withdrawal::{
    check_leg, finalize_withdrawal, initiate_withdrawal, liquidate_positions_batch, withdraw_swap_router,
    LegRequest, WithdrawalMintProgress, WithdrawalState, WithdrawalStatus,
};

fn addr(n: u128) -> Address {
    Address { high: n << 64, low: n }
}

const FUND: u128 = 20;
const INVESTOR: u128 = 10;
const WS: u128 = 30;
const ROUTER: u128 = 40;
const ASSET: u128 = 50;

fn fund(total_shares: u64, total_assets: u64) -> Fund {
    Fund {
        manager: addr(1),
        name: String::from("gamma"),
        description: String::from("workflow"),
        base_mint: addr(2),
        vault: addr(3),
        shares_mint: addr(4),
        management_fee: 200,
        performance_fee: 2000,
        total_shares,
        total_assets,
        last_fee_collection: 0,
        created_at: 0,
        bump: 1,
        vault_bump: 2,
        shares_bump: 3,
    }
}

fn position(shares: u64, deposited: u64) -> InvestorPosition {
    InvestorPosition {
        investor: addr(INVESTOR),
        fund: addr(FUND),
        shares,
        initial_investment: deposited,
        total_deposited: deposited,
        total_withdrawn: 0,
        first_deposit_at: 0,
        last_activity_at: 0,
    }
}

fn holding(amount: u64) -> TokenHolding {
    TokenHolding { owner: addr(FUND), mint: addr(ASSET), amount }
}

fn leg(in_amount: u64, minimum_out: u64) -> LegRequest {
    LegRequest { mint: addr(ASSET), in_amount, minimum_out, router: addr(ROUTER), dry_run: false }
}

fn routers() -> Option<Vec<Address>> {
    Some(vec![addr(ROUTER)])
}

fn state(shares_to_withdraw: u64, fraction_bps: u32) -> WithdrawalState {
    WithdrawalState {
        investor: addr(INVESTOR),
        vault: addr(FUND),
        shares_to_withdraw,
        total_shares_snapshot: 1500,
        fraction_bps,
        wsol_unwrapped: 0,
        positions_liquidated: 0,
        total_positions: 0,
        sol_accumulated: 0,
        input_allowed_total_sum: 0,
        input_liquidated_sum: 0,
        status: WithdrawalStatus::Initiated,
        created_at: 0,
        bump: 7,
    }
}

fn run_leg(ws: &mut WithdrawalState, progress: &mut WithdrawalMintProgress, held: u64, request: LegRequest, pre: u64, post: u64) -> Result<u64, FundError> {
    withdraw_swap_router(ws, progress, &addr(WS), &addr(FUND), &addr(INVESTOR), &holding(held), &request, &routers(), pre, post)
}

#[test]
fn workflow_scenario_second_leg_exceeds_the_remaining_allowance() {
    let mut f = fund(1000, 1000);
    let mut p = position(250, 250);
    assert_eq!(deposit(&mut f, &mut p, addr(FUND), addr(INVESTOR), 500, 1), Ok(500));
    assert_eq!((f.total_shares, f.total_assets), (1500, 1500));
    assert_eq!(p.shares, 750);
    let mut ws = initiate_withdrawal(&f, &p, addr(FUND), addr(INVESTOR), 750, 2, 9).unwrap();
    assert_eq!(ws.fraction_bps, 500_000);
    assert_eq!(ws.status, WithdrawalStatus::Initiated);
    let mut progress = WithdrawalMintProgress::empty();
    assert_eq!(run_leg(&mut ws, &mut progress, 300, leg(100, 90), 0, 95), Ok(95));
    assert_eq!(progress.amount_liquidated, 100);
    assert_eq!(progress.withdrawal, addr(WS));
    assert_eq!(ws.input_allowed_total_sum, 150);
    assert_eq!(ws.input_liquidated_sum, 100);
    assert_eq!(ws.sol_accumulated, 95);
    assert_eq!(ws.status, WithdrawalStatus::Liquidating);
    let before = ws;
    assert_eq!(run_leg(&mut ws, &mut progress, 300, leg(60, 1), 95, 150), Err(FundError::InvalidAmount));
    assert_eq!(ws, before);
    assert_eq!(progress.amount_liquidated, 100);
    assert_eq!(run_leg(&mut ws, &mut progress, 300, leg(50, 40), 95, 140), Ok(45));
    assert_eq!(progress.amount_liquidated, 150);
    assert_eq!(ws.input_allowed_total_sum, 150);
    assert_eq!(ws.input_liquidated_sum, 150);
}

#[test]
fn leg_refusals() {
    let mut ws = state(750, 500_000);
    let mut progress = WithdrawalMintProgress::empty();
    assert_eq!(run_leg(&mut ws, &mut progress, 300, leg(0, 0), 0, 0), Err(FundError::InvalidAmount));
    assert_eq!(run_leg(&mut ws, &mut progress, 300, leg(151, 0), 0, 0), Err(FundError::InvalidAmount));
    assert_eq!(run_leg(&mut ws, &mut progress, 300, leg(10, 50), 100, 149), Err(FundError::SlippageExceeded));
    assert_eq!(run_leg(&mut ws, &mut progress, 300, leg(10, 0), 100, 99), Err(FundError::MathOverflow));
    let mut other_router = leg(10, 0);
    other_router.router = addr(41);
    assert_eq!(run_leg(&mut ws, &mut progress, 300, other_router, 0, 0), Err(FundError::InvalidInput));
    let wrong_mint = TokenHolding { owner: addr(FUND), mint: addr(51), amount: 300 };
    assert_eq!(
        withdraw_swap_router(&mut ws, &mut progress, &addr(WS), &addr(FUND), &addr(INVESTOR), &wrong_mint, &leg(10, 0), &routers(), 0, 0),
        Err(FundError::InvalidMint)
    );
    assert_eq!(
        withdraw_swap_router(&mut ws, &mut progress, &addr(WS), &addr(FUND), &addr(11), &holding(300), &leg(10, 0), &routers(), 0, 0),
        Err(FundError::InvalidInput)
    );
    let mut degenerate = state(1, 0);
    assert_eq!(run_leg(&mut degenerate, &mut progress, 300, leg(1, 0), 0, 0), Err(FundError::InvalidInput));
    let mut done = state(750, 500_000);
    done.status = WithdrawalStatus::Completed;
    assert_eq!(run_leg(&mut done, &mut progress, 300, leg(10, 0), 0, 0), Err(FundError::InvalidWithdrawalStatus));
    let mut foreign = WithdrawalMintProgress { withdrawal: addr(31), mint: addr(ASSET), amount_liquidated: 5, bump: 0 };
    assert_eq!(run_leg(&mut ws, &mut foreign, 300, leg(10, 0), 0, 0), Err(FundError::InvalidInput));
    assert_eq!(progress.amount_liquidated, 0);
    assert_eq!(ws.status, WithdrawalStatus::Initiated);
}

#[test]
fn dry_run_leg_does_not_advance() {
    let mut ws = state(750, 500_000);
    let mut progress = WithdrawalMintProgress::empty();
    let mut preflight = leg(100, 0);
    preflight.dry_run = true;
    assert_eq!(run_leg(&mut ws, &mut progress, 300, preflight, 10, 10), Ok(0));
    assert_eq!(ws, state(750, 500_000));
    assert_eq!(progress, WithdrawalMintProgress::empty());
}

#[test]
fn initiate_refusals() {
    let f = fund(1500, 1500);
    let p = position(750, 750);
    assert_eq!(initiate_withdrawal(&f, &p, addr(FUND), addr(INVESTOR), 0, 1, 0), Err(FundError::InvalidShares));
    assert_eq!(initiate_withdrawal(&f, &p, addr(FUND), addr(INVESTOR), 751, 1, 0), Err(FundError::InsufficientFunds));
    assert_eq!(initiate_withdrawal(&f, &p, addr(21), addr(INVESTOR), 10, 1, 0), Err(FundError::InvalidInput));
    let small = fund(100, 100);
    assert_eq!(initiate_withdrawal(&small, &p, addr(FUND), addr(INVESTOR), 101, 1, 0), Err(FundError::InsufficientFunds));
    let huge = fund(u64::MAX, u64::MAX);
    let ws = initiate_withdrawal(&huge, &p, addr(FUND), addr(INVESTOR), 1, 1, 0).unwrap();
    assert_eq!(ws.fraction_bps, 0);
}

#[test]
fn finalize_with_full_completion_burns_every_requested_share() {
    let mut f = fund(1500, 1500);
    let mut p = position(750, 750);
    let mut ws = state(750, 500_000);
    ws.status = WithdrawalStatus::Liquidating;
    ws.input_allowed_total_sum = 150;
    ws.input_liquidated_sum = 150;
    ws.sol_accumulated = 1000;
    let s = finalize_withdrawal(&mut f, &mut p, &mut ws, &addr(FUND), &addr(INVESTOR), 5000, 77).unwrap();
    assert_eq!(s.shares_burned, 750);
    assert_eq!(s.gross, 1000);
    // platform 10; profit 240 over a basis of 750; performance 48 (9 platform, 39 manager)
    assert_eq!(s.payout.investor, 942);
    assert_eq!(s.payout.manager, 39);
    assert_eq!(s.payout.treasury, 19);
    assert_eq!((f.total_shares, f.total_assets), (750, 500));
    assert_eq!((p.shares, p.total_withdrawn, p.last_activity_at), (0, 942, 77));
    assert_eq!(ws.status, WithdrawalStatus::Completed);
    assert_eq!(
        finalize_withdrawal(&mut f, &mut p, &mut ws, &addr(FUND), &addr(INVESTOR), 5000, 78).err(),
        Some(FundError::InvalidWithdrawalStatus)
    );
}

#[test]
fn finalize_with_half_completion_burns_half() {
    let mut f = fund(1500, 1500);
    let mut p = position(750, 750);
    let mut ws = state(750, 500_000);
    ws.input_allowed_total_sum = 150;
    ws.input_liquidated_sum = 75;
    let s = finalize_withdrawal(&mut f, &mut p, &mut ws, &addr(FUND), &addr(INVESTOR), 2000, 5).unwrap();
    assert_eq!(s.shares_burned, 375);
    // no proceeds recorded: a quarter (k * fraction) of the 2000 base holding
    assert_eq!(s.gross, 500);
    assert_eq!(s.payout.investor, 471);
    assert_eq!(s.payout.manager, 20);
    assert_eq!(s.payout.treasury, 9);
    assert_eq!((f.total_shares, f.total_assets, p.shares), (1125, 1000, 375));
}

#[test]
fn finalize_odd_share_count_at_half_completion_rounds_down() {
    let mut f = fund(1500, 1500);
    let mut p = position(751, 751);
    let mut ws = state(751, 500_000);
    ws.input_allowed_total_sum = 10;
    ws.input_liquidated_sum = 5;
    let s = finalize_withdrawal(&mut f, &mut p, &mut ws, &addr(FUND), &addr(INVESTOR), 0, 5).unwrap();
    assert_eq!(s.shares_burned, 375);
}

#[test]
fn finalize_without_legs_burns_nothing() {
    let mut f = fund(1500, 1500);
    let mut p = position(750, 750);
    let mut ws = state(750, 500_000);
    let s = finalize_withdrawal(&mut f, &mut p, &mut ws, &addr(FUND), &addr(INVESTOR), 2000, 5).unwrap();
    assert_eq!((s.shares_burned, s.gross), (0, 0));
    assert_eq!((s.payout.investor, s.payout.manager, s.payout.treasury), (0, 0, 0));
    assert_eq!((f.total_shares, f.total_assets, p.shares), (1500, 1500, 750));
    assert_eq!(ws.status, WithdrawalStatus::Completed);
}

#[test]
fn finalize_refusals() {
    let mut f = fund(1500, 1500);
    let mut p = position(750, 750);
    let mut ws = state(750, 500_000);
    ws.input_allowed_total_sum = 150;
    ws.input_liquidated_sum = 150;
    ws.sol_accumulated = 1000;
    assert_eq!(finalize_withdrawal(&mut f, &mut p, &mut ws, &addr(FUND), &addr(INVESTOR), 999, 1).err(), Some(FundError::InsufficientFunds));
    assert_eq!(finalize_withdrawal(&mut f, &mut p, &mut ws, &addr(21), &addr(INVESTOR), 5000, 1).err(), Some(FundError::InvalidInput));
    let mut thin = position(700, 700);
    assert_eq!(finalize_withdrawal(&mut f, &mut thin, &mut ws, &addr(FUND), &addr(INVESTOR), 5000, 1).err(), Some(FundError::MathOverflow));
    let mut poor = fund(1500, 999);
    assert_eq!(finalize_withdrawal(&mut poor, &mut p, &mut ws, &addr(FUND), &addr(INVESTOR), 5000, 1).err(), Some(FundError::MathOverflow));
    let mut greedy = fund(1500, 1500);
    greedy.performance_fee = 6000;
    assert_eq!(finalize_withdrawal(&mut greedy, &mut p, &mut ws, &addr(FUND), &addr(INVESTOR), 5000, 1).err(), Some(FundError::InvalidFee));
    let mut failed = ws;
    failed.status = WithdrawalStatus::Failed;
    assert_eq!(finalize_withdrawal(&mut f, &mut p, &mut failed, &addr(FUND), &addr(INVESTOR), 5000, 1).err(), Some(FundError::InvalidWithdrawalStatus));
    assert_eq!((f.total_shares, p.shares, ws.status), (1500, 750, WithdrawalStatus::Initiated));
}

#[test]
fn native_leg_unwraps_only_a_whole_holding() {
    let native = addr(60);
    let wsol = TokenHolding { owner: addr(FUND), mint: native, amount: 400 };
    let mut ws = state(750, 1_000_000);
    assert_eq!(liquidate_positions_batch(&mut ws, &addr(FUND), &addr(INVESTOR), &native, &native, &wsol, true, 400), Ok(true));
    assert_eq!(ws.sol_accumulated, 400);
    assert_eq!(ws.status, WithdrawalStatus::ReadyToFinalize);

    let mut half = state(750, 500_000);
    assert_eq!(liquidate_positions_batch(&mut half, &addr(FUND), &addr(INVESTOR), &native, &native, &wsol, true, 0), Err(FundError::InvalidAmount));
    assert_eq!(half.status, WithdrawalStatus::Initiated);
    assert_eq!(liquidate_positions_batch(&mut half, &addr(FUND), &addr(INVESTOR), &native, &native, &wsol, false, 0), Ok(false));
    assert_eq!(half.status, WithdrawalStatus::Liquidating);
    assert_eq!(liquidate_positions_batch(&mut half, &addr(FUND), &addr(INVESTOR), &native, &native, &wsol, false, 201), Err(FundError::InsufficientFunds));
    assert_eq!(liquidate_positions_batch(&mut half, &addr(FUND), &addr(INVESTOR), &addr(61), &native, &wsol, false, 0), Err(FundError::InvalidMint));
    let mut zero = state(1, 0);
    assert_eq!(liquidate_positions_batch(&mut zero, &addr(FUND), &addr(INVESTOR), &native, &native, &wsol, false, 0), Err(FundError::InvalidInput));
}

#[test]
fn leg_ceiling_is_the_fraction_of_the_live_holding() {
    let ws = state(750, 500_000);
    let fresh = WithdrawalMintProgress::empty();
    let check = |held: u64, progress: &WithdrawalMintProgress, request: LegRequest| {
        check_leg(&ws, &addr(WS), &addr(FUND), &addr(INVESTOR), progress, &holding(held), &request, &routers())
    };
    assert_eq!(check(300, &fresh, leg(150, 0)), Ok(150));
    assert_eq!(check(301, &fresh, leg(1, 0)), Ok(150));
    assert_eq!(check(1_000, &fresh, leg(1, 0)), Ok(500));
    let advanced = WithdrawalMintProgress { withdrawal: addr(WS), mint: addr(ASSET), amount_liquidated: 100, bump: 0 };
    assert_eq!(check(300, &advanced, leg(50, 0)), Ok(150));
    assert_eq!(check(300, &advanced, leg(51, 0)), Err(FundError::InvalidAmount));
    assert_eq!(check(400, &advanced, leg(100, 0)), Ok(200));
    assert_eq!(mul_wide(u64::MAX, u64::MAX), (u64::MAX as u128) * (u64::MAX as u128));
}
