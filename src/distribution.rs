use vstd::prelude::*;

use crate::address::Address;
use crate::error::FundError;
use crate::fees::{
    fee_waterfall, net_to_investor_of, performance_fee_of, platform_fee_of,
    platform_performance_share_of, PERFORMANCE_FEE_CAP_BPS,
};
use crate::ledger::{mul_wide, Fund};
use crate::position::InvestorPosition;

verus! {

/// The sum of a sequence of amounts.
pub open spec fn seq_total(s: Seq<u64>) -> int
    decreases s.len(),
{
    if s.len() == 0 {
        0
    } else {
        seq_total(s.drop_last()) + s.last() as int
    }
}

/// The pro-rata part of `pool` for recipient `i`, rounded down.
pub open spec fn pro_rata_part(pool: int, weights: Seq<u64>, i: int) -> int {
    pool * weights[i] as int / seq_total(weights)
}

/// The rounded pro-rata parts of the first `k` recipients, added up.
pub open spec fn parts_before(pool: int, weights: Seq<u64>, k: int) -> int
    decreases k,
{
    if k <= 0 {
        0
    } else {
        parts_before(pool, weights, k - 1) + pro_rata_part(pool, weights, k - 1)
    }
}

/// What recipient `i` of a batch receives: its rounded pro-rata part, except the last
/// recipient, who receives what the others left of the pool.
pub open spec fn batch_amount(pool: int, weights: Seq<u64>, i: int) -> int {
    if i < weights.len() - 1 {
        pro_rata_part(pool, weights, i)
    } else {
        pool - parts_before(pool, weights, weights.len() - 1)
    }
}

/// A total of amounts is never negative.
pub proof fn lemma_seq_total_nonneg(s: Seq<u64>)
    ensures
        seq_total(s) >= 0,
    decreases s.len(),
{
    if s.len() > 0 {
        lemma_seq_total_nonneg(s.drop_last());
    }
}

/// Adding one more element to a prefix adds that element to its total.
pub proof fn lemma_seq_total_push(s: Seq<u64>, i: int)
    requires
        0 <= i < s.len(),
    ensures
        seq_total(s.take(i + 1)) == seq_total(s.take(i)) + s[i] as int,
{
    assert(s.take(i + 1).drop_last() =~= s.take(i));
}

/// A prefix totals no more than a longer prefix.
pub proof fn lemma_seq_total_prefix_le(s: Seq<u64>, i: int, j: int)
    requires
        0 <= i <= j <= s.len(),
    ensures
        seq_total(s.take(i)) <= seq_total(s.take(j)),
    decreases j - i,
{
    if i < j {
        lemma_seq_total_prefix_le(s, i, j - 1);
        lemma_seq_total_push(s, j - 1);
    }
}

/// The total of a sequence of `n` amounts fits in `n * u64::MAX`.
pub proof fn lemma_seq_total_upper(s: Seq<u64>)
    ensures
        seq_total(s) <= s.len() * u64::MAX,
    decreases s.len(),
{
    if s.len() > 0 {
        lemma_seq_total_upper(s.drop_last());
        assert((s.len() - 1) * u64::MAX + u64::MAX == s.len() * u64::MAX) by (nonlinear_arith);
    }
}

/// Rounded-down parts of the first `k` recipients never exceed their exact pro-rata value.
proof fn lemma_parts_before_bound(pool: int, weights: Seq<u64>, k: int)
    requires
        0 <= pool,
        0 <= k <= weights.len(),
        seq_total(weights) > 0,
    ensures
        0 <= parts_before(pool, weights, k),
        parts_before(pool, weights, k) * seq_total(weights) <= pool * seq_total(weights.take(k)),
    decreases k,
{
    let t = seq_total(weights);
    if k == 0 {
        assert(weights.take(0) =~= Seq::<u64>::empty());
    } else {
        lemma_parts_before_bound(pool, weights, k - 1);
        lemma_seq_total_push(weights, k - 1);
        let w = weights[k - 1] as int;
        let prev = parts_before(pool, weights, k - 1);
        let part = pro_rata_part(pool, weights, k - 1);
        let tk = seq_total(weights.take(k - 1));
        assert(part * t <= pool * w && 0 <= part) by (nonlinear_arith)
            requires
                part == pool * w / t,
                t > 0,
                pool >= 0,
                w >= 0,
        ;
        assert((prev + part) * t <= pool * (tk + w)) by (nonlinear_arith)
            requires
                prev * t <= pool * tk,
                part * t <= pool * w,
        ;
    }
}

/// The rounded parts of all but the last recipient leave a non-negative remainder of the pool.
pub proof fn lemma_remainder_nonneg(pool: int, weights: Seq<u64>)
    requires
        0 <= pool,
        weights.len() > 0,
        seq_total(weights) > 0,
    ensures
        0 <= parts_before(pool, weights, weights.len() - 1) <= pool,
{
    let n = weights.len() as int;
    let t = seq_total(weights);
    lemma_parts_before_bound(pool, weights, n - 1);
    lemma_seq_total_prefix_le(weights, n - 1, n);
    assert(weights.take(n) =~= weights);
    let p = parts_before(pool, weights, n - 1);
    let tk = seq_total(weights.take(n - 1));
    lemma_seq_total_nonneg(weights.take(n - 1));
    assert(p <= pool) by (nonlinear_arith)
        requires
            p * t <= pool * tk,
            0 <= tk <= t,
            t > 0,
            pool >= 0,
    ;
}

/// Divides `pool` among recipients in proportion to `weights`: each but the last receives
/// its pro-rata part rounded down, and the last receives the remainder, so the amounts add
/// up to the pool exactly. A batch with no weight at all is refused.
pub fn distribute_pro_rata(pool: u64, weights: &Vec<u64>) -> (r: Result<Vec<u64>, FundError>)
    ensures
        seq_total(weights@) == 0 <==> r is Err,
        r matches Err(e) ==> e == FundError::InvalidShares,
        r matches Ok(amounts) ==> {
            &&& amounts.len() == weights.len()
            &&& forall|i: int|
                0 <= i < weights.len() ==> amounts[i] as int == batch_amount(
                    pool as int,
                    weights@,
                    i,
                )
            &&& seq_total(amounts@) == pool
        },
{
    let n = weights.len();
    let mut total: u128 = 0;
    let mut i: usize = 0;
    while i < n
        invariant
            0 <= i <= n,
            n == weights.len(),
            total == seq_total(weights@.take(i as int)),
        decreases n - i,
    {
        proof {
            lemma_seq_total_push(weights@, i as int);
            lemma_seq_total_upper(weights@.take(i as int + 1));
            assert((i as int + 1) * u64::MAX <= u128::MAX) by (nonlinear_arith)
                requires
                    i < n,
                    n <= usize::MAX,
                    usize::MAX <= u64::MAX,
            ;
        }
        total = total + weights[i] as u128;
        i = i + 1;
    }
    assert(weights@.take(n as int) =~= weights@);
    if total == 0 {
        return Err(FundError::InvalidShares);
    }
    let ghost w = weights@;
    let ghost t = seq_total(w);
    let mut amounts: Vec<u64> = Vec::new();
    let mut distributed: u64 = 0;
    let mut k: usize = 0;
    while k + 1 < n
        invariant
            0 <= k < n,
            n == weights.len(),
            w == weights@,
            t == seq_total(w),
            total == t,
            t > 0,
            amounts.len() == k,
            distributed == parts_before(pool as int, w, k as int),
            distributed == seq_total(amounts@),
            forall|j: int| 0 <= j < k ==> amounts[j] as int == pro_rata_part(pool as int, w, j),
        decreases n - k,
    {
        proof {
            lemma_parts_before_bound(pool as int, w, k as int + 1);
            lemma_seq_total_prefix_le(w, k as int + 1, n as int);
            lemma_seq_total_prefix_le(w, k as int, k as int + 1);
            lemma_seq_total_push(w, k as int);
            assert(w.take(n as int) =~= w);
            lemma_seq_total_nonneg(w.take(k as int));
            let wk = w[k as int] as int;
            assert(pool * wk / t <= pool) by (nonlinear_arith)
                requires
                    0 <= wk <= t,
                    t > 0,
                    pool >= 0,
            ;
            assert(0 <= pool * wk / t) by (nonlinear_arith)
                requires
                    0 <= wk,
                    t > 0,
                    pool >= 0,
            ;
            lemma_parts_before_bound(pool as int, w, k as int + 1);
            lemma_remainder_nonneg(pool as int, w);
            lemma_parts_before_prefix_le(pool as int, w, k as int + 1, n as int - 1);
        }
        let part = (mul_wide(pool, weights[k]) / total) as u64;
        proof {
            assert(amounts@.push(part).drop_last() =~= amounts@);
        }
        amounts.push(part);
        distributed = distributed + part;
        k = k + 1;
    }
    proof {
        lemma_remainder_nonneg(pool as int, w);
    }
    let last = pool - distributed;
    proof {
        assert(amounts@.push(last).drop_last() =~= amounts@);
    }
    amounts.push(last);
    Ok(amounts)
}

/// The running total of rounded parts only grows along the batch.
proof fn lemma_parts_before_prefix_le(pool: int, weights: Seq<u64>, i: int, j: int)
    requires
        0 <= pool,
        0 <= i <= j <= weights.len(),
        seq_total(weights) > 0,
    ensures
        parts_before(pool, weights, i) <= parts_before(pool, weights, j),
    decreases j - i,
{
    if i < j {
        lemma_parts_before_prefix_le(pool, weights, i, j - 1);
        let t = seq_total(weights);
        let w = weights[j - 1] as int;
        assert(0 <= pool * w / t) by (nonlinear_arith)
            requires
                0 <= w,
                t > 0,
                pool >= 0,
        ;
    }
}

/// One recipient of a batch payout: their position and the wallet to pay.
pub struct BatchEntry {
    pub position: InvestorPosition,
    pub recipient: Address,
}

/// The share counts of a batch, in order.
pub open spec fn batch_weights(batch: Seq<BatchEntry>) -> Seq<u64> {
    Seq::new(batch.len(), |i: int| batch[i].position.shares)
}

/// Where a batch payout goes: the treasury, the manager, and each recipient in order.
pub struct BatchPayout {
    pub treasury: u64,
    pub manager: u64,
    pub investors: Vec<u64>,
}

/// Why a batch payout is refused, checked in this order.
pub open spec fn batch_refusal(
    fund: Fund,
    fund_key: Address,
    manager: Address,
    total_amount: u64,
    batch: Seq<BatchEntry>,
) -> Option<FundError> {
    if manager != fund.manager {
        Some(FundError::InvalidInput)
    } else if total_amount == 0 {
        Some(FundError::InvalidAmount)
    } else if fund.performance_fee > PERFORMANCE_FEE_CAP_BPS {
        Some(FundError::InvalidFee)
    } else if exists|i: int|
        0 <= i < batch.len() && (batch[i].position.fund != fund_key || batch[i].position.investor
            != batch[i].recipient) {
        Some(FundError::InvalidInput)
    } else if seq_total(batch_weights(batch)) == 0 {
        Some(FundError::InvalidShares)
    } else if fund.total_assets < total_amount {
        Some(FundError::MathOverflow)
    } else {
        None
    }
}

/// Distributes `total_amount` out of the fund: the fee waterfall with no cost basis (1% to
/// the platform, then the performance fee on the rest, split 20/80 between the platform and
/// the manager), and the investors' pool pro rata to the batch's shares, the last recipient
/// taking the remainder. The fund's assets fall by `total_amount`.
pub fn pay_fund_investors(
    fund: &mut Fund,
    fund_key: &Address,
    manager: &Address,
    total_amount: u64,
    batch: &Vec<BatchEntry>,
) -> (r: Result<BatchPayout, FundError>)
    ensures
        r is Err <==> batch_refusal(*old(fund), *fund_key, *manager, total_amount, batch@) is Some,
        r matches Err(e) ==> {
            &&& batch_refusal(*old(fund), *fund_key, *manager, total_amount, batch@) == Some(e)
            &&& *final(fund) == *old(fund)
        },
        r matches Ok(p) ==> {
            let g = total_amount as int;
            let bps = old(fund).performance_fee as int;
            let perf = performance_fee_of(g, 0, bps);
            let pool = net_to_investor_of(g, 0, bps);
            &&& p.treasury == platform_fee_of(g) + platform_performance_share_of(perf)
            &&& p.manager == perf - platform_performance_share_of(perf)
            &&& p.investors.len() == batch.len()
            &&& forall|i: int|
                0 <= i < batch.len() ==> p.investors[i] as int == batch_amount(
                    pool,
                    batch_weights(batch@),
                    i,
                )
            &&& seq_total(p.investors@) == pool
            &&& p.treasury + p.manager + seq_total(p.investors@) == total_amount
            &&& *final(fund) == (Fund {
                total_assets: (old(fund).total_assets - total_amount) as u64,
                ..*old(fund)
            })
        },
{
    if *manager != fund.manager {
        return Err(FundError::InvalidInput);
    }
    if total_amount == 0 {
        return Err(FundError::InvalidAmount);
    }
    let split = match fee_waterfall(total_amount, 0, fund.performance_fee) {
        Ok(s) => s,
        Err(e) => return Err(e),
    };
    let mut weights: Vec<u64> = Vec::new();
    let mut i: usize = 0;
    while i < batch.len()
        invariant
            0 <= i <= batch.len(),
            weights@ == batch_weights(batch@).take(i as int),
            *fund == *old(fund),
            *manager == fund.manager,
            total_amount != 0,
            fund.performance_fee <= PERFORMANCE_FEE_CAP_BPS,
            forall|j: int|
                0 <= j < i ==> batch@[j].position.fund == *fund_key && batch@[j].position.investor
                    == batch@[j].recipient,
        decreases batch.len() - i,
    {
        let entry = &batch[i];
        if entry.position.fund != *fund_key || entry.position.investor != entry.recipient {
            proof {
                let j = i as int;
                assert(0 <= j < batch@.len() && (batch@[j].position.fund != *fund_key
                    || batch@[j].position.investor != batch@[j].recipient));
            }
            return Err(FundError::InvalidInput);
        }
        weights.push(entry.position.shares);
        proof {
            assert(weights@ =~= batch_weights(batch@).take(i as int + 1));
        }
        i = i + 1;
    }
    proof {
        assert(weights@ =~= batch_weights(batch@));
    }
    let investors = match distribute_pro_rata(split.net_to_investor, &weights) {
        Ok(v) => v,
        Err(e) => return Err(e),
    };
    if fund.total_assets < total_amount {
        return Err(FundError::MathOverflow);
    }
    fund.total_assets = fund.total_assets - total_amount;
    Ok(
        BatchPayout {
            treasury: split.platform_fee + split.platform_performance_share,
            manager: split.manager_performance_share,
            investors,
        },
    )
}

/// Recipient `i` has a transfer in `transfers`.
pub open spec fn has_transfer(transfers: Seq<(usize, u64)>, i: int) -> bool {
    exists|k: int| 0 <= k < transfers.len() && transfers[k].0 == i
}

/// The transfers of a payout by amounts given one per recipient: the index and amount of
/// each positive amount, in order. Refused unless there is an amount for each recipient and
/// at least one.
pub fn pay_rwa_investors(amounts: &Vec<u64>, recipients: usize) -> (r: Result<
    Vec<(usize, u64)>,
    FundError,
>)
    ensures
        r is Err <==> (amounts.len() == 0 || amounts.len() != recipients),
        r matches Err(e) ==> e == FundError::InvalidInput,
        r matches Ok(transfers) ==> {
            &&& forall|k: int|
                0 <= k < transfers.len() ==> {
                    &&& transfers[k].0 < amounts.len()
                    &&& transfers[k].1 == amounts[transfers[k].0 as int]
                    &&& transfers[k].1 > 0
                }
            &&& forall|k: int, l: int|
                0 <= k < l < transfers.len() ==> transfers[k].0 < transfers[l].0
            &&& forall|i: int|
                0 <= i < amounts.len() && amounts[i] > 0 ==> #[trigger] has_transfer(transfers@, i)
        },
{
    if amounts.len() == 0 || amounts.len() != recipients {
        return Err(FundError::InvalidInput);
    }
    let mut transfers: Vec<(usize, u64)> = Vec::new();
    let mut i: usize = 0;
    while i < amounts.len()
        invariant
            0 <= i <= amounts.len(),
            forall|k: int|
                0 <= k < transfers.len() ==> {
                    &&& transfers[k].0 < i
                    &&& transfers[k].1 == amounts[transfers[k].0 as int]
                    &&& transfers[k].1 > 0
                },
            forall|k: int, l: int|
                0 <= k < l < transfers.len() ==> transfers[k].0 < transfers[l].0,
            forall|j: int| 0 <= j < i && amounts[j] > 0 ==> #[trigger] has_transfer(transfers@, j),
        decreases amounts.len() - i,
    {
        if amounts[i] > 0 {
            let ghost before = transfers@;
            transfers.push((i, amounts[i]));
            proof {
                assert(transfers@ == before.push((i, amounts@[i as int])));
                assert forall|j: int| 0 <= j < i && amounts[j] > 0 implies #[trigger] has_transfer(
                    transfers@,
                    j,
                ) by {
                    assert(has_transfer(before, j));
                    let k = choose|k: int| 0 <= k < before.len() && before[k].0 == j;
                    assert(transfers@[k] == before[k]);
                }
                assert(transfers@[transfers.len() - 1].0 == i);
                assert(has_transfer(transfers@, i as int));
            }
        }
        i = i + 1;
    }
    Ok(transfers)
}

} // verus!
