//! Splitting a gross amount into fee buckets and a net amount.
//!
//! Each bucket is the gross amount times its rate in basis points, divided
//! by ten thousand and rounded down. Buckets are computed independently of
//! one another; the net amount is what the buckets leave.
use vstd::prelude::*;

use crate::errors::BondingCurveError;

verus! {

/// Basis points in a whole.
pub const BPS_DENOMINATOR: u64 = 10000;

/// The rates, in basis points, of the four fee buckets of one trade kind.
#[derive(PartialEq, Eq, Structural, Clone, Copy, Debug)]
pub struct FeeRates {
    pub platform_bps: u16,
    pub creator_bps: u16,
    pub prize_pool_bps: u16,
    pub reserves_bps: u16,
}

/// The fee tables of a curve: one per trade direction and lifecycle side
/// of the graduation threshold.
///
/// While a curve trades only the pre-threshold tables are ever applied:
/// trading stops at graduation, so the post-threshold tables are kept for
/// a curve that might one day trade after graduating.
#[derive(PartialEq, Eq, Structural, Clone, Copy, Debug)]
pub struct FeeSchedule {
    pub pre_threshold_buy: FeeRates,
    pub post_threshold_buy: FeeRates,
    pub pre_threshold_sell: FeeRates,
    pub post_threshold_sell: FeeRates,
}

/// A gross amount cut into its fee buckets and the net remainder.
#[derive(PartialEq, Eq, Structural, Clone, Copy, Debug)]
pub struct FeeSplit {
    pub platform_fee: u64,
    pub creator_fee: u64,
    pub prize_pool_fee: u64,
    pub reserves_fee: u64,
    pub net_amount: u64,
}

/// One bucket: `gross × bps / 10000`, rounded down.
pub open spec fn bucket(gross: int, bps: int) -> int {
    (gross * bps) / (BPS_DENOMINATOR as int)
}

impl FeeRates {
    pub open spec fn total_bps(self) -> int {
        self.platform_bps as int + self.creator_bps as int + self.prize_pool_bps as int
            + self.reserves_bps as int
    }

    /// The buckets together take at most the whole amount.
    pub open spec fn valid(self) -> bool {
        self.total_bps() <= BPS_DENOMINATOR as int
    }

    /// Rates with the platform and creator buckets only.
    pub fn two_way(platform_bps: u16, creator_bps: u16) -> (r: FeeRates)
        ensures
            r == (FeeRates { platform_bps, creator_bps, prize_pool_bps: 0, reserves_bps: 0 }),
    {
        FeeRates { platform_bps, creator_bps, prize_pool_bps: 0, reserves_bps: 0 }
    }

    /// Whether the buckets together take at most the whole amount.
    pub fn is_valid(&self) -> (r: bool)
        ensures
            r == self.valid(),
    {
        let total: u64 = self.platform_bps as u64 + self.creator_bps as u64
            + self.prize_pool_bps as u64 + self.reserves_bps as u64;
        total <= BPS_DENOMINATOR
    }
}

impl FeeSplit {
    pub open spec fn total_fees(self) -> int {
        self.platform_fee as int + self.creator_fee as int + self.prize_pool_fee as int
            + self.reserves_fee as int
    }

    /// The split of `gross` under `rates`, bucket by bucket.
    pub open spec fn of(self, gross: int, rates: FeeRates) -> bool {
        &&& self.platform_fee == bucket(gross, rates.platform_bps as int)
        &&& self.creator_fee == bucket(gross, rates.creator_bps as int)
        &&& self.prize_pool_fee == bucket(gross, rates.prize_pool_bps as int)
        &&& self.reserves_fee == bucket(gross, rates.reserves_bps as int)
        &&& self.net_amount == gross - self.total_fees()
    }
}

impl FeeSchedule {
    pub open spec fn valid(self) -> bool {
        &&& self.pre_threshold_buy.valid()
        &&& self.post_threshold_buy.valid()
        &&& self.pre_threshold_sell.valid()
        &&& self.post_threshold_sell.valid()
    }

    /// The default schedule: buys pay 1% platform, 0.5% creator, 0.3%
    /// prize pool and 0.2% reserves before the threshold and 0.5% platform,
    /// 1% creator, 0.3% and 0.2% after it; sells pay 1% platform and 0.5%
    /// creator before it and 0.5% platform and 1% creator after it.
    pub fn standard() -> (r: FeeSchedule)
        ensures
            r.valid(),
            r.pre_threshold_buy == (FeeRates {
                platform_bps: 100,
                creator_bps: 50,
                prize_pool_bps: 30,
                reserves_bps: 20,
            }),
            r.post_threshold_buy == (FeeRates {
                platform_bps: 50,
                creator_bps: 100,
                prize_pool_bps: 30,
                reserves_bps: 20,
            }),
            r.pre_threshold_sell == (FeeRates {
                platform_bps: 100,
                creator_bps: 50,
                prize_pool_bps: 0,
                reserves_bps: 0,
            }),
            r.post_threshold_sell == (FeeRates {
                platform_bps: 50,
                creator_bps: 100,
                prize_pool_bps: 0,
                reserves_bps: 0,
            }),
    {
        FeeSchedule {
            pre_threshold_buy: FeeRates {
                platform_bps: 100,
                creator_bps: 50,
                prize_pool_bps: 30,
                reserves_bps: 20,
            },
            post_threshold_buy: FeeRates {
                platform_bps: 50,
                creator_bps: 100,
                prize_pool_bps: 30,
                reserves_bps: 20,
            },
            pre_threshold_sell: FeeRates::two_way(100, 50),
            post_threshold_sell: FeeRates::two_way(50, 100),
        }
    }

    /// Accepts the schedule when every table is valid, and fails with
    /// `FeeTooHigh` otherwise.
    pub fn check(&self) -> (r: Result<(), BondingCurveError>)
        ensures
            r is Ok <==> self.valid(),
            r is Err ==> r == Err::<(), BondingCurveError>(BondingCurveError::FeeTooHigh),
    {
        if self.pre_threshold_buy.is_valid() && self.post_threshold_buy.is_valid()
            && self.pre_threshold_sell.is_valid() && self.post_threshold_sell.is_valid() {
            Ok(())
        } else {
            Err(BondingCurveError::FeeTooHigh)
        }
    }
}

/// A bucket is at most its share of the gross amount, and no more than
/// the gross amount when the rate is at most a whole.
pub proof fn lemma_bucket_bounds(gross: int, bps: int)
    requires
        0 <= gross,
        0 <= bps,
    ensures
        0 <= bucket(gross, bps),
        bucket(gross, bps) * 10000 <= gross * bps,
{
    assert(0 <= gross * bps) by (nonlinear_arith)
        requires
            0 <= gross,
            0 <= bps,
    ;
    vstd::arithmetic::div_mod::lemma_div_pos_is_pos(gross * bps, 10000);
    vstd::arithmetic::div_mod::lemma_fundamental_div_mod(gross * bps, 10000);
    vstd::arithmetic::div_mod::lemma_mod_pos_bound(gross * bps, 10000);
}

/// The four buckets of valid rates together take at most the gross amount.
pub proof fn lemma_buckets_within_gross(gross: int, rates: FeeRates)
    requires
        0 <= gross,
        rates.valid(),
    ensures
        0 <= bucket(gross, rates.platform_bps as int) + bucket(gross, rates.creator_bps as int)
            + bucket(gross, rates.prize_pool_bps as int) + bucket(gross, rates.reserves_bps as int)
            <= gross,
{
    let a = rates.platform_bps as int;
    let b = rates.creator_bps as int;
    let c = rates.prize_pool_bps as int;
    let d = rates.reserves_bps as int;
    lemma_bucket_bounds(gross, a);
    lemma_bucket_bounds(gross, b);
    lemma_bucket_bounds(gross, c);
    lemma_bucket_bounds(gross, d);
    let s = bucket(gross, a) + bucket(gross, b) + bucket(gross, c) + bucket(gross, d);
    assert(gross * a + gross * b + gross * c + gross * d == gross * (a + b + c + d))
        by (nonlinear_arith);
    assert(gross * (a + b + c + d) <= gross * 10000) by (nonlinear_arith)
        requires
            0 <= gross,
            a + b + c + d <= 10000,
    ;
    assert(s * 10000 <= gross * 10000);
}

/// Cuts `gross` into its fee buckets under `rates`.
///
/// Every bucket and the net amount are exact, and the buckets and the net
/// amount add up to the gross amount.
pub fn split_fees(gross: u64, rates: &FeeRates) -> (r: FeeSplit)
    requires
        rates.valid(),
    ensures
        r.of(gross as int, *rates),
        r.total_fees() + r.net_amount == gross,
{
    proof {
        lemma_buckets_within_gross(gross as int, *rates);
        lemma_bucket_bounds(gross as int, rates.platform_bps as int);
        lemma_bucket_bounds(gross as int, rates.creator_bps as int);
        lemma_bucket_bounds(gross as int, rates.prize_pool_bps as int);
        lemma_bucket_bounds(gross as int, rates.reserves_bps as int);
    }
    let platform_fee = fee_bucket(gross, rates.platform_bps);
    let creator_fee = fee_bucket(gross, rates.creator_bps);
    let prize_pool_fee = fee_bucket(gross, rates.prize_pool_bps);
    let reserves_fee = fee_bucket(gross, rates.reserves_bps);
    let total: u64 = platform_fee + creator_fee + prize_pool_fee + reserves_fee;
    FeeSplit { platform_fee, creator_fee, prize_pool_fee, reserves_fee, net_amount: gross - total }
}

/// One bucket of `gross` at `bps`, for a rate of at most a whole.
pub fn fee_bucket(gross: u64, bps: u16) -> (r: u64)
    requires
        bps <= BPS_DENOMINATOR,
    ensures
        r == bucket(gross as int, bps as int),
        r <= gross,
{
    proof {
        lemma_bucket_bounds(gross as int, bps as int);
        assert(gross as int * bps as int <= gross as int * 10000) by (nonlinear_arith)
            requires
                0 <= gross,
                0 <= bps <= 10000,
        ;
        assert(gross as int * bps as int <= u128::MAX) by (nonlinear_arith)
            requires
                0 <= gross <= u64::MAX,
                0 <= bps <= 10000,
        ;
    }
    ((gross as u128) * (bps as u128) / (BPS_DENOMINATOR as u128)) as u64
}

} // verus!
