use vstd::prelude::*;

use crate::address::Address;

verus! {

/// Largest management fee a fund may charge, in basis points.
pub const MAX_MANAGEMENT_FEE_BPS: u16 = 500;

/// Largest performance fee a fund may charge, in basis points.
pub const MAX_PERFORMANCE_FEE_BPS: u16 = 2000;

/// A pooled vehicle: what investors own together and how it is priced.
pub struct Fund {
    pub manager: Address,
    pub name: String,
    pub description: String,
    pub base_mint: Address,
    pub vault: Address,
    pub shares_mint: Address,
    /// Annual management fee, in basis points.
    pub management_fee: u16,
    /// Performance fee, in basis points.
    pub performance_fee: u16,
    pub total_shares: u64,
    pub total_assets: u64,
    pub last_fee_collection: i64,
    pub created_at: i64,
    pub bump: u8,
    pub vault_bump: u8,
    pub shares_bump: u8,
}

/// Shares issued for a deposit of `amount`: one for one while the fund has no shares
/// or no assets, else the deposit's exact share of the pool, rounded down.
pub open spec fn shares_for_deposit(total_shares: int, total_assets: int, amount: int) -> int {
    if total_shares == 0 || total_assets == 0 {
        amount
    } else {
        amount * total_shares / total_assets
    }
}

/// Base units owed for `shares`: nothing when the fund has no shares, else the
/// shares' exact claim on the pool, rounded down.
pub open spec fn assets_for_shares(total_shares: int, total_assets: int, shares: int) -> int {
    if total_shares == 0 {
        0
    } else {
        shares * total_assets / total_shares
    }
}

/// The fee settings are within policy.
pub open spec fn fees_within_policy(management_fee: u16, performance_fee: u16) -> bool {
    management_fee <= MAX_MANAGEMENT_FEE_BPS && performance_fee <= MAX_PERFORMANCE_FEE_BPS
}

impl Fund {
    pub open spec fn wf(&self) -> bool {
        fees_within_policy(self.management_fee, self.performance_fee)
    }

    pub open spec fn mint_quote(&self, deposit_amount: u64) -> int {
        shares_for_deposit(self.total_shares as int, self.total_assets as int, deposit_amount as int)
    }

    pub open spec fn redeem_quote(&self, shares_to_burn: u64) -> int {
        assets_for_shares(self.total_shares as int, self.total_assets as int, shares_to_burn as int)
    }

    /// Shares that a deposit of `deposit_amount` base units buys at the current price.
    pub fn calculate_shares_to_mint(&self, deposit_amount: u64) -> (r: u64)
        requires
            self.mint_quote(deposit_amount) <= u64::MAX,
        ensures
            r == self.mint_quote(deposit_amount),
            (self.total_shares == 0 || self.total_assets == 0) ==> r == deposit_amount,
    {
        if self.total_shares == 0 || self.total_assets == 0 {
            deposit_amount
        } else {
            let wide = mul_wide(deposit_amount, self.total_shares);
            (wide / (self.total_assets as u128)) as u64
        }
    }

    /// Base units that burning `shares_to_burn` shares redeems at the current price.
    pub fn calculate_withdrawal_amount(&self, shares_to_burn: u64) -> (r: u64)
        requires
            self.redeem_quote(shares_to_burn) <= u64::MAX,
        ensures
            r == self.redeem_quote(shares_to_burn),
            self.total_shares == 0 ==> r == 0,
    {
        if self.total_shares == 0 {
            0
        } else {
            let wide = mul_wide(shares_to_burn, self.total_assets);
            (wide / (self.total_shares as u128)) as u64
        }
    }

    /// The share quote for a deposit, or `None` where it does not fit in 64 bits.
    pub fn checked_shares_to_mint(&self, deposit_amount: u64) -> (r: Option<u64>)
        ensures
            r == (if self.mint_quote(deposit_amount) <= u64::MAX {
                Some(self.mint_quote(deposit_amount) as u64)
            } else {
                None::<u64>
            }),
    {
        if self.total_shares == 0 || self.total_assets == 0 {
            Some(deposit_amount)
        } else {
            let q = mul_wide(deposit_amount, self.total_shares) / (self.total_assets as u128);
            if q <= u64::MAX as u128 {
                Some(q as u64)
            } else {
                None
            }
        }
    }
}

/// The exact product of two 64-bit values, which always fits in 128 bits.
pub fn mul_wide(a: u64, b: u64) -> (r: u128)
    ensures
        r == a as int * b as int,
{
    proof {
        lemma_mul_u64_fits(a, b);
    }
    (a as u128) * (b as u128)
}

/// The product of two 64-bit values lies between zero and `u64::MAX * u64::MAX`.
pub proof fn lemma_mul_u64_fits(a: u64, b: u64)
    ensures
        0 <= a as int * b as int <= u64::MAX as int * u64::MAX as int,
        a as int * b as int <= u128::MAX,
{
    assert(0 <= a as int * b as int <= u64::MAX as int * u64::MAX as int) by (nonlinear_arith);
}

/// `floor(x * n / d) <= x` whenever `n <= d`.
pub proof fn lemma_scaled_down_le(x: int, n: int, d: int)
    requires
        0 <= x,
        0 <= n <= d,
        0 < d,
    ensures
        0 <= x * n / d <= x,
{
    assert(0 <= x * n <= x * d) by (nonlinear_arith)
        requires
            0 <= x,
            0 <= n <= d,
    ;
    assert(x * n / d <= x * d / d) by (nonlinear_arith)
        requires
            0 <= x * n <= x * d,
            0 < d,
    ;
    assert(x * d / d == x) by (nonlinear_arith)
        requires
            0 < d,
    ;
    assert(0 <= x * n / d) by (nonlinear_arith)
        requires
            0 <= x * n,
            0 < d,
    ;
}

/// While the fund has no shares or no assets, a deposit buys exactly as many shares
/// as it brings base units.
pub proof fn lemma_bootstrap_mint_one_to_one(total_shares: u64, total_assets: u64, amount: u64)
    requires
        total_shares == 0 || total_assets == 0,
    ensures
        shares_for_deposit(total_shares as int, total_assets as int, amount as int) == amount,
{
}

/// At a fixed price, splitting a deposit in two buys at most as many shares as making it
/// at once, and at most one share fewer.
pub proof fn lemma_split_deposit_rounding(total_shares: u64, total_assets: u64, d1: u64, d2: u64)
    requires
        d1 > 0,
        d2 > 0,
    ensures
        ({
            let s = total_shares as int;
            let t = total_assets as int;
            let m1 = shares_for_deposit(s, t, d1 as int);
            let m2 = shares_for_deposit(s, t, d2 as int);
            let m12 = shares_for_deposit(s, t, d1 as int + d2 as int);
            m1 + m2 <= m12 <= m1 + m2 + 1
        }),
{
    let s = total_shares as int;
    let t = total_assets as int;
    if s != 0 && t != 0 {
        let a = d1 as int * s;
        let b = d2 as int * s;
        assert((d1 as int + d2 as int) * s == a + b) by (nonlinear_arith)
            requires
                a == d1 as int * s,
                b == d2 as int * s,
        ;
        assert(a >= 0 && b >= 0) by (nonlinear_arith)
            requires
                a == d1 as int * s,
                b == d2 as int * s,
                s >= 0,
        ;
        lemma_floor_sum(a, b, t);
    }
}

/// `floor(a/t) + floor(b/t) <= floor((a+b)/t) <= floor(a/t) + floor(b/t) + 1`.
pub proof fn lemma_floor_sum(a: int, b: int, t: int)
    requires
        0 <= a,
        0 <= b,
        0 < t,
    ensures
        a / t + b / t <= (a + b) / t <= a / t + b / t + 1,
{
    vstd::arithmetic::div_mod::lemma_fundamental_div_mod(a, t);
    vstd::arithmetic::div_mod::lemma_fundamental_div_mod(b, t);
    vstd::arithmetic::div_mod::lemma_fundamental_div_mod(a + b, t);
    let qa = a / t;
    let qb = b / t;
    let q = (a + b) / t;
    let ra = a % t;
    let rb = b % t;
    let r = (a + b) % t;
    assert(0 <= ra < t && 0 <= rb < t && 0 <= r < t);
    assert(t * q + r == t * qa + ra + t * qb + rb);
    assert(t * (q - qa - qb) == ra + rb - r) by (nonlinear_arith)
        requires
            t * q + r == t * qa + ra + t * qb + rb,
    ;
    assert(-t < ra + rb - r < 2 * t);
    assert(0 <= q - qa - qb <= 1) by (nonlinear_arith)
        requires
            t * (q - qa - qb) == ra + rb - r,
            -t < ra + rb - r < 2 * t,
            0 < t,
    ;
}

/// Depositing `amount` and at once redeeming every share it bought never returns more
/// than `amount`, in a fund that has either both shares and assets or neither.
pub proof fn lemma_round_trip_never_gains(total_shares: u64, total_assets: u64, amount: u64)
    requires
        (total_shares == 0) == (total_assets == 0),
    ensures
        ({
            let s = total_shares as int;
            let t = total_assets as int;
            let m = shares_for_deposit(s, t, amount as int);
            assets_for_shares(s + m, t + amount, m) <= amount
        }),
{
    let s = total_shares as int;
    let t = total_assets as int;
    let a = amount as int;
    let m = shares_for_deposit(s, t, a);
    if s == 0 {
        if a > 0 {
            assert(m * (t + a) / (s + m) == a * a / a);
            assert(a * a / a == a) by (nonlinear_arith)
                requires
                    a > 0,
            ;
        }
    } else {
        lemma_round_trip_core(s, t, a);
    }
}

/// In a fund that has either both shares and assets or neither, depositing `amount` and at
/// once redeeming every share it bought loses at most one base unit exactly when the
/// remainder dropped at deposit (`amount * total_shares % total_assets`) is at most the share
/// count after the deposit. That is so whenever a share is worth at most one base unit; at a
/// higher price the loss can be larger.
pub proof fn lemma_round_trip_shortfall(total_shares: u64, total_assets: u64, amount: u64)
    requires
        (total_shares == 0) == (total_assets == 0),
    ensures
        ({
            let s = total_shares as int;
            let t = total_assets as int;
            let m = shares_for_deposit(s, t, amount as int);
            let dropped = if t == 0 {
                0
            } else {
                (amount as int * s) % t
            };
            amount - assets_for_shares(s + m, t + amount, m) <= 1 <==> dropped <= s + m
        }),
{
    let s = total_shares as int;
    let t = total_assets as int;
    let a = amount as int;
    let m = shares_for_deposit(s, t, a);
    if s == 0 {
        if a > 0 {
            assert(m * (t + a) / (s + m) == a * a / a);
            assert(a * a / a == a) by (nonlinear_arith)
                requires
                    a > 0,
            ;
        }
    } else {
        lemma_round_trip_core(s, t, a);
        let r = (a * s) % t;
        let w = m * (t + a) / (s + m);
        vstd::arithmetic::div_mod::lemma_fundamental_div_mod(m * (t + a), s + m);
        // a * (s + m) - r == m * (t + a), so the redemption is floor(a - r / (s + m)).
        assert(w >= a - 1 <==> r <= s + m) by (nonlinear_arith)
            requires
                m * (t + a) == a * (s + m) - r,
                0 <= r,
                s + m > 0,
                m * (t + a) == (s + m) * w + m * (t + a) % (s + m),
                0 <= m * (t + a) % (s + m) < s + m,
        ;
    }
}

/// With shares and assets both present: the redemption never exceeds the deposit, and the
/// value bought plus the dropped remainder is the deposit's value at the new share count.
proof fn lemma_round_trip_core(s: int, t: int, a: int)
    requires
        s > 0,
        t > 0,
        a >= 0,
    ensures
        ({
            let m = a * s / t;
            &&& m >= 0
            &&& m * (t + a) == a * (s + m) - (a * s) % t
            &&& m * (t + a) / (s + m) <= a
        }),
{
    let m = a * s / t;
    let r = (a * s) % t;
    vstd::arithmetic::div_mod::lemma_fundamental_div_mod(a * s, t);
    assert(a * s >= 0) by (nonlinear_arith)
        requires
            a >= 0,
            s > 0,
    ;
    assert(m >= 0) by (nonlinear_arith)
        requires
            a * s >= 0,
            t > 0,
            m == a * s / t,
    ;
    assert(0 <= r < t);
    assert(a * s == t * m + r);
    assert(m * (t + a) == a * (s + m) - r) by (nonlinear_arith)
        requires
            a * s == t * m + r,
    ;
    assert(m * (t + a) / (s + m) <= a) by (nonlinear_arith)
        requires
            m * (t + a) == a * (s + m) - r,
            0 <= r,
            s + m > 0,
    ;
}

} // verus!
