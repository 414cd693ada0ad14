//! Per-token curve state and the operations that change it.
//!
//! Trades that move value outside the library come in two steps: a plan,
//! computed from the curve without changing it, tells the caller which
//! transfers to make; the commit then takes the ledger's answer and either
//! applies the plan or leaves the curve untouched.
//!
//! Creator fees are accumulate-only: the creator bucket of every trade stays
//! with the curve as a pending balance, and is paid out only by a claim.
use vstd::prelude::*;

use crate::errors::BondingCurveError;
use crate::fees::{split_fees, FeeRates, FeeSchedule, FeeSplit};
use crate::identity::Identity;
use crate::pricing::{
    buy_output, buy_quotable, calculate_buy_tokens, calculate_sell_sol, sell_output,
    sell_quotable,
};

verus! {

/// Where a curve is in its one-way lifecycle.
#[derive(PartialEq, Eq, Structural, Clone, Copy, Debug)]
pub enum Phase {
    Trading,
    Graduated,
    Migrated,
}

impl Phase {
    /// The position of the phase in the lifecycle order.
    pub open spec fn rank(self) -> int {
        match self {
            Phase::Trading => 0,
            Phase::Graduated => 1,
            Phase::Migrated => 2,
        }
    }
}

/// The reserve ledger of one token.
#[derive(PartialEq, Eq, Clone, Copy, Debug)]
pub struct BondingCurve {
    pub mint: Identity,
    pub creator: Identity,
    /// The platform identity, which may migrate the curve besides the creator.
    pub platform_authority: Identity,
    /// Baseline SOL liquidity used for pricing only; never changes.
    pub virtual_sol_reserves: u64,
    /// Baseline token liquidity used for pricing only; never changes.
    pub virtual_token_reserves: u64,
    pub real_sol_reserves: u64,
    pub real_token_reserves: u64,
    /// Net tokens handed out to traders.
    pub tokens_sold: u64,
    pub phase: Phase,
    /// Total SOL value, virtual and real, at which a buy graduates the curve.
    pub graduation_threshold: u64,
    pub total_fees_collected: u64,
    pub creator_fees_pending: u64,
    pub fees: FeeSchedule,
}

/// The creation parameters of a curve.
#[derive(PartialEq, Eq, Clone, Copy, Debug)]
pub struct InitializeCurve {
    pub mint: Identity,
    pub creator: Identity,
    pub platform_authority: Identity,
    pub virtual_sol_reserves: u64,
    pub virtual_token_reserves: u64,
    /// Tokens minted to the curve at creation.
    pub bonding_curve_supply: u64,
    pub graduation_threshold: u64,
    pub fees: FeeSchedule,
}

/// A buy request: spend `sol_amount`, and receive no fewer than `min_tokens_out`.
#[derive(PartialEq, Eq, Clone, Copy, Debug)]
pub struct BuyTokens {
    pub buyer: Identity,
    pub sol_amount: u64,
    pub min_tokens_out: u64,
}

/// A sell request: give `token_amount`, and receive a gross SOL output of
/// no less than `min_sol_out`.
#[derive(PartialEq, Eq, Clone, Copy, Debug)]
pub struct SellTokens {
    pub seller: Identity,
    pub token_amount: u64,
    pub min_sol_out: u64,
}

/// A migration request by `authority`.
#[derive(PartialEq, Eq, Clone, Copy, Debug)]
pub struct Graduate {
    pub authority: Identity,
}

/// A claim of the pending creator fees by `creator`.
#[derive(PartialEq, Eq, Clone, Copy, Debug)]
pub struct ClaimCreatorFees {
    pub creator: Identity,
}

/// Record of a created curve.
#[derive(PartialEq, Eq, Clone, Copy, Debug)]
pub struct CurveInitialized {
    pub mint: Identity,
    pub creator: Identity,
    pub virtual_sol_reserves: u64,
    pub virtual_token_reserves: u64,
    pub bonding_curve_supply: u64,
}

/// Record of a graduation, made by the buy that crossed the threshold.
#[derive(PartialEq, Eq, Clone, Copy, Debug)]
pub struct TokenGraduated {
    pub mint: Identity,
    pub total_sol_raised: u64,
    pub tokens_sold: u64,
}

/// Receipt of a buy.
///
/// Transfers: the buyer pays `fees.net_amount` and `fees.creator_fee` to
/// the curve, and each other bucket to its recipient; the curve hands
/// `tokens_received` to the buyer.
#[derive(PartialEq, Eq, Clone, Copy, Debug)]
pub struct TokensPurchased {
    pub buyer: Identity,
    pub mint: Identity,
    pub sol_amount: u64,
    pub tokens_received: u64,
    /// The split of `sol_amount`; its net amount is what reaches the curve.
    pub fees: FeeSplit,
    /// The phase of the curve after the buy.
    pub phase: Phase,
    pub graduated: Option<TokenGraduated>,
}

/// Receipt of a sell.
///
/// Transfers: the seller hands `token_amount` to the curve; the curve pays
/// `fees.net_amount` to the seller and each bucket but the creator's to
/// its recipient. The creator bucket stays with the curve, pending.
#[derive(PartialEq, Eq, Clone, Copy, Debug)]
pub struct TokensSold {
    pub seller: Identity,
    pub mint: Identity,
    pub token_amount: u64,
    /// The gross SOL output that leaves the reserves.
    pub sol_out: u64,
    /// The split of `sol_out`; its net amount is what the seller receives.
    pub fees: FeeSplit,
}

/// Record of a migration: the final reserves handed to the outside market.
#[derive(PartialEq, Eq, Clone, Copy, Debug)]
pub struct TokenFullyGraduated {
    pub mint: Identity,
    pub final_sol_reserves: u64,
    pub remaining_tokens: u64,
}

/// Receipt of a claim: the curve pays `amount` to `creator`.
#[derive(PartialEq, Eq, Clone, Copy, Debug)]
pub struct CreatorFeesClaimed {
    pub creator: Identity,
    pub amount: u64,
}

/// The curve a valid set of parameters creates.
pub open spec fn created_curve(cfg: InitializeCurve) -> BondingCurve {
    BondingCurve {
        mint: cfg.mint,
        creator: cfg.creator,
        platform_authority: cfg.platform_authority,
        virtual_sol_reserves: cfg.virtual_sol_reserves,
        virtual_token_reserves: cfg.virtual_token_reserves,
        real_sol_reserves: 0,
        real_token_reserves: cfg.bonding_curve_supply,
        tokens_sold: 0,
        phase: Phase::Trading,
        graduation_threshold: cfg.graduation_threshold,
        total_fees_collected: 0,
        creator_fees_pending: 0,
        fees: cfg.fees,
    }
}

/// Creates a curve in the `Trading` phase with no real SOL and the whole
/// supply as real tokens.
///
/// Fails with `InvalidAmount` when a virtual reserve is zero, and with
/// `FeeTooHigh` when a fee table charges more than the whole amount.
pub fn initialize_curve(cfg: &InitializeCurve) -> (r: Result<
    (BondingCurve, CurveInitialized),
    BondingCurveError,
>)
    ensures
        cfg.virtual_sol_reserves == 0 || cfg.virtual_token_reserves == 0 ==> r == Err::<
            (BondingCurve, CurveInitialized),
            BondingCurveError,
        >(BondingCurveError::InvalidAmount),
        cfg.virtual_sol_reserves > 0 && cfg.virtual_token_reserves > 0 && !cfg.fees.valid() ==> r
            == Err::<(BondingCurve, CurveInitialized), BondingCurveError>(
            BondingCurveError::FeeTooHigh,
        ),
        cfg.virtual_sol_reserves > 0 && cfg.virtual_token_reserves > 0 && cfg.fees.valid() ==> r
            is Ok,
        r matches Ok((c, ev)) ==> c == created_curve(*cfg) && c.wf() && ev == (CurveInitialized {
            mint: cfg.mint,
            creator: cfg.creator,
            virtual_sol_reserves: cfg.virtual_sol_reserves,
            virtual_token_reserves: cfg.virtual_token_reserves,
            bonding_curve_supply: cfg.bonding_curve_supply,
        }),
{
    if cfg.virtual_sol_reserves == 0 || cfg.virtual_token_reserves == 0 {
        return Err(BondingCurveError::InvalidAmount);
    }
    match cfg.fees.check() {
        Ok(()) => {},
        Err(e) => return Err(e),
    }
    let curve = BondingCurve {
        mint: cfg.mint,
        creator: cfg.creator,
        platform_authority: cfg.platform_authority,
        virtual_sol_reserves: cfg.virtual_sol_reserves,
        virtual_token_reserves: cfg.virtual_token_reserves,
        real_sol_reserves: 0,
        real_token_reserves: cfg.bonding_curve_supply,
        tokens_sold: 0,
        phase: Phase::Trading,
        graduation_threshold: cfg.graduation_threshold,
        total_fees_collected: 0,
        creator_fees_pending: 0,
        fees: cfg.fees,
    };
    let event = CurveInitialized {
        mint: cfg.mint,
        creator: cfg.creator,
        virtual_sol_reserves: cfg.virtual_sol_reserves,
        virtual_token_reserves: cfg.virtual_token_reserves,
        bonding_curve_supply: cfg.bonding_curve_supply,
    };
    Ok((curve, event))
}

impl BondingCurve {
    /// The curve's invariant: positive virtual reserves, never more tokens
    /// sold than the virtual token supply, and valid fee tables.
    pub open spec fn wf(self) -> bool {
        &&& self.virtual_sol_reserves > 0
        &&& self.virtual_token_reserves > 0
        &&& self.tokens_sold <= self.virtual_token_reserves
        &&& self.fees.valid()
    }

    /// The SOL reserve the pricing sees: virtual plus real.
    pub open spec fn sol_reserves(self) -> int {
        self.virtual_sol_reserves + self.real_sol_reserves
    }

    /// The token reserve the pricing sees: virtual minus sold.
    pub open spec fn token_reserves(self) -> int {
        self.virtual_token_reserves - self.tokens_sold
    }

    /// The buy fee table for the curve's side of the threshold.
    pub open spec fn buy_rates(self) -> FeeRates {
        if self.phase == Phase::Trading {
            self.fees.pre_threshold_buy
        } else {
            self.fees.post_threshold_buy
        }
    }

    /// The sell fee table for the curve's side of the threshold.
    pub open spec fn sell_rates(self) -> FeeRates {
        if self.phase == Phase::Trading {
            self.fees.pre_threshold_sell
        } else {
            self.fees.post_threshold_sell
        }
    }

    /// What a buy request comes to on this curve: the rejection, checked in
    /// order, or the receipt.
    pub open spec fn buy_plan(self, req: BuyTokens) -> Result<TokensPurchased, BondingCurveError> {
        let s = self.sol_reserves();
        let t = self.token_reserves();
        let amount = req.sol_amount as int;
        if self.phase != Phase::Trading {
            Err(BondingCurveError::TradingClosed)
        } else if amount == 0 {
            Err(BondingCurveError::InvalidAmount)
        } else if s > u64::MAX || !buy_quotable(amount, s, t) {
            Err(BondingCurveError::InvalidComputation)
        } else if buy_output(amount, s, t) < req.min_tokens_out {
            Err(BondingCurveError::SlippageExceeded)
        } else if buy_output(amount, s, t) > self.real_token_reserves {
            Err(BondingCurveError::InsufficientCurveLiquidity)
        } else {
            let out = buy_output(amount, s, t);
            let split = FeeSplit {
                platform_fee: crate::fees::bucket(amount, self.buy_rates().platform_bps as int) as u64,
                creator_fee: crate::fees::bucket(amount, self.buy_rates().creator_bps as int) as u64,
                prize_pool_fee: crate::fees::bucket(amount, self.buy_rates().prize_pool_bps as int) as u64,
                reserves_fee: crate::fees::bucket(amount, self.buy_rates().reserves_bps as int) as u64,
                net_amount: 0,
            };
            let total = split.total_fees();
            let net = amount - total;
            if self.total_fees_collected + total > u64::MAX || self.creator_fees_pending
                + split.creator_fee > u64::MAX {
                Err(BondingCurveError::InvalidComputation)
            } else {
                let raised = s + net;
                let graduates = raised >= self.graduation_threshold;
                Ok(
                    TokensPurchased {
                        buyer: req.buyer,
                        mint: self.mint,
                        sol_amount: req.sol_amount,
                        tokens_received: out as u64,
                        fees: FeeSplit { net_amount: net as u64, ..split },
                        phase: if graduates {
                            Phase::Graduated
                        } else {
                            Phase::Trading
                        },
                        graduated: if graduates {
                            Some(
                                TokenGraduated {
                                    mint: self.mint,
                                    total_sol_raised: raised as u64,
                                    tokens_sold: (self.tokens_sold + out) as u64,
                                },
                            )
                        } else {
                            None
                        },
                    },
                )
            }
        }
    }

    /// The curve after a buy with receipt `p` is applied.
    pub open spec fn after_buy(self, p: TokensPurchased) -> BondingCurve {
        BondingCurve {
            real_sol_reserves: (self.real_sol_reserves + p.fees.net_amount) as u64,
            real_token_reserves: (self.real_token_reserves - p.tokens_received) as u64,
            tokens_sold: (self.tokens_sold + p.tokens_received) as u64,
            total_fees_collected: (self.total_fees_collected + p.fees.total_fees()) as u64,
            creator_fees_pending: (self.creator_fees_pending + p.fees.creator_fee) as u64,
            phase: p.phase,
            ..self
        }
    }

    /// The result of a buy and the curve after it, given the ledger's
    /// answer: a rejected plan, or a plan whose transfers failed, leaves the
    /// curve as it was.
    pub open spec fn buy_outcome(self, req: BuyTokens, transfers_ok: bool) -> (
        Result<TokensPurchased, BondingCurveError>,
        BondingCurve,
    ) {
        match self.buy_plan(req) {
            Err(e) => (Err(e), self),
            Ok(p) => if transfers_ok {
                (Ok(p), self.after_buy(p))
            } else {
                (Err(BondingCurveError::TransferFailed), self)
            },
        }
    }

    /// The result of a sell and the curve after it, given the ledger's
    /// answer.
    pub open spec fn sell_outcome(self, req: SellTokens, transfers_ok: bool) -> (
        Result<TokensSold, BondingCurveError>,
        BondingCurve,
    ) {
        match self.sell_plan(req) {
            Err(e) => (Err(e), self),
            Ok(p) => if transfers_ok {
                (Ok(p), self.after_sell(p))
            } else {
                (Err(BondingCurveError::TransferFailed), self)
            },
        }
    }

    /// The result of a migration request and the curve after it.
    pub open spec fn graduate_outcome(self, req: Graduate) -> (
        Result<TokenFullyGraduated, BondingCurveError>,
        BondingCurve,
    ) {
        match self.graduate_plan(req) {
            Err(e) => (Err(e), self),
            Ok(p) => (Ok(p), BondingCurve { phase: Phase::Migrated, ..self }),
        }
    }

    /// The result of a claim and the curve after it, given the ledger's
    /// answer for the payout.
    pub open spec fn claim_outcome(self, req: ClaimCreatorFees, transfer_ok: bool) -> (
        Result<CreatorFeesClaimed, BondingCurveError>,
        BondingCurve,
    ) {
        match self.claim_plan(req) {
            Err(e) => (Err(e), self),
            Ok(p) => if transfer_ok {
                (Ok(p), BondingCurve { creator_fees_pending: 0, ..self })
            } else {
                (Err(BondingCurveError::TransferFailed), self)
            },
        }
    }

    /// Whether the curve's invariant holds; the operations need it to.
    pub fn is_well_formed(&self) -> (r: bool)
        ensures
            r == self.wf(),
    {
        self.virtual_sol_reserves > 0 && self.virtual_token_reserves > 0 && self.tokens_sold
            <= self.virtual_token_reserves && self.fees.check().is_ok()
    }

    /// Whether the curve is in the `Trading` phase.
    pub fn is_trading(&self) -> (r: bool)
        ensures
            r == (self.phase == Phase::Trading),
    {
        match self.phase {
            Phase::Trading => true,
            _ => false,
        }
    }

    fn current_buy_rates(&self) -> (r: FeeRates)
        ensures
            r == self.buy_rates(),
    {
        if self.is_trading() {
            self.fees.pre_threshold_buy
        } else {
            self.fees.post_threshold_buy
        }
    }

    fn current_sell_rates(&self) -> (r: FeeRates)
        ensures
            r == self.sell_rates(),
    {
        if self.is_trading() {
            self.fees.pre_threshold_sell
        } else {
            self.fees.post_threshold_sell
        }
    }

    /// Computes what a buy request comes to, without changing the curve.
    pub fn plan_buy(&self, req: &BuyTokens) -> (r: Result<TokensPurchased, BondingCurveError>)
        requires
            self.wf(),
        ensures
            r == self.buy_plan(*req),
    {
        if !self.is_trading() {
            return Err(BondingCurveError::TradingClosed);
        }
        if req.sol_amount == 0 {
            return Err(BondingCurveError::InvalidAmount);
        }
        let sol_reserves = match self.virtual_sol_reserves.checked_add(self.real_sol_reserves) {
            Some(v) => v,
            None => return Err(BondingCurveError::InvalidComputation),
        };
        let token_reserves: u64 = self.virtual_token_reserves - self.tokens_sold;
        let tokens_out = match calculate_buy_tokens(req.sol_amount, sol_reserves, token_reserves) {
            Ok(v) => v,
            Err(e) => return Err(e),
        };
        if tokens_out < req.min_tokens_out {
            return Err(BondingCurveError::SlippageExceeded);
        }
        if tokens_out > self.real_token_reserves {
            return Err(BondingCurveError::InsufficientCurveLiquidity);
        }
        let rates = self.current_buy_rates();
        let fees = split_fees(req.sol_amount, &rates);
        proof {
            crate::fees::lemma_buckets_within_gross(req.sol_amount as int, rates);
            crate::pricing::lemma_output_within_reserve(
                req.sol_amount as int,
                sol_reserves as int,
                token_reserves as int,
            );
        }
        let total_fees: u64 = fees.platform_fee + fees.creator_fee + fees.prize_pool_fee
            + fees.reserves_fee;
        if self.total_fees_collected.checked_add(total_fees).is_none()
            || self.creator_fees_pending.checked_add(fees.creator_fee).is_none() {
            return Err(BondingCurveError::InvalidComputation);
        }
        let raised: u64 = sol_reserves + fees.net_amount;
        let graduates = raised >= self.graduation_threshold;
        let graduated = if graduates {
            Some(
                TokenGraduated {
                    mint: self.mint,
                    total_sol_raised: raised,
                    tokens_sold: self.tokens_sold + tokens_out,
                },
            )
        } else {
            None
        };
        Ok(
            TokensPurchased {
                buyer: req.buyer,
                mint: self.mint,
                sol_amount: req.sol_amount,
                tokens_received: tokens_out,
                fees,
                phase: if graduates {
                    Phase::Graduated
                } else {
                    Phase::Trading
                },
                graduated,
            },
        )
    }

    /// Applies a buy once the ledger has answered for its transfers.
    ///
    /// A request that `plan_buy` rejects is rejected the same way; an
    /// accepted one fails with `TransferFailed` when the transfers did not
    /// go through. Either way a rejection leaves the curve unchanged.
    pub fn buy(&mut self, req: &BuyTokens, transfers_ok: bool) -> (r: Result<
        TokensPurchased,
        BondingCurveError,
    >)
        requires
            old(self).wf(),
        ensures
            final(self).wf(),
            old(self).phase.rank() <= final(self).phase.rank(),
            (r, *final(self)) == old(self).buy_outcome(*req, transfers_ok),
    {
        let plan = self.plan_buy(req);
        match plan {
            Err(e) => Err(e),
            Ok(p) => {
                if !transfers_ok {
                    return Err(BondingCurveError::TransferFailed);
                }
                proof {
                    lemma_buy_keeps_invariant(*self, *req);
                }
                self.real_sol_reserves = self.real_sol_reserves + p.fees.net_amount;
                self.real_token_reserves = self.real_token_reserves - p.tokens_received;
                self.tokens_sold = self.tokens_sold + p.tokens_received;
                self.total_fees_collected = self.total_fees_collected + (p.fees.platform_fee
                    + p.fees.creator_fee + p.fees.prize_pool_fee + p.fees.reserves_fee);
                self.creator_fees_pending = self.creator_fees_pending + p.fees.creator_fee;
                self.phase = p.phase;
                Ok(p)
            },
        }
    }
}

/// An accepted buy keeps the curve's invariant, and every counter it moves
/// stays within 64 bits.
pub proof fn lemma_buy_keeps_invariant(c: BondingCurve, req: BuyTokens)
    requires
        c.wf(),
        c.buy_plan(req) is Ok,
    ensures
        ({
            let p = c.buy_plan(req)->Ok_0;
            &&& c.after_buy(p).wf()
            &&& c.real_sol_reserves + p.fees.net_amount <= u64::MAX
            &&& p.tokens_received <= c.real_token_reserves
            &&& c.tokens_sold + p.tokens_received <= c.virtual_token_reserves
            &&& c.total_fees_collected + p.fees.total_fees() <= u64::MAX
            &&& c.creator_fees_pending + p.fees.creator_fee <= u64::MAX
            &&& p.fees.total_fees() + p.fees.net_amount == p.sol_amount
        }),
{
    let amount = req.sol_amount as int;
    crate::pricing::lemma_output_within_reserve(amount, c.sol_reserves(), c.token_reserves());
    crate::fees::lemma_buckets_within_gross(amount, c.buy_rates());
    crate::fees::lemma_bucket_bounds(amount, c.buy_rates().platform_bps as int);
    crate::fees::lemma_bucket_bounds(amount, c.buy_rates().creator_bps as int);
    crate::fees::lemma_bucket_bounds(amount, c.buy_rates().prize_pool_bps as int);
    crate::fees::lemma_bucket_bounds(amount, c.buy_rates().reserves_bps as int);
}

impl BondingCurve {
    /// What a sell request comes to on this curve: the rejection, checked in
    /// order, or the receipt.
    pub open spec fn sell_plan(self, req: SellTokens) -> Result<TokensSold, BondingCurveError> {
        let s = self.sol_reserves();
        let t = self.token_reserves();
        let amount = req.token_amount as int;
        if self.phase != Phase::Trading {
            Err(BondingCurveError::TradingClosed)
        } else if amount == 0 {
            Err(BondingCurveError::InvalidAmount)
        } else if s > u64::MAX || !sell_quotable(amount, s, t) {
            Err(BondingCurveError::InvalidComputation)
        } else if sell_output(amount, s, t) < req.min_sol_out {
            Err(BondingCurveError::SlippageExceeded)
        } else if sell_output(amount, s, t) > self.real_sol_reserves {
            Err(BondingCurveError::InsufficientCurveLiquidity)
        } else if amount > self.tokens_sold || self.real_token_reserves + amount > u64::MAX {
            Err(BondingCurveError::InvalidComputation)
        } else {
            let out = sell_output(amount, s, t);
            let split = FeeSplit {
                platform_fee: crate::fees::bucket(out, self.sell_rates().platform_bps as int) as u64,
                creator_fee: crate::fees::bucket(out, self.sell_rates().creator_bps as int) as u64,
                prize_pool_fee: crate::fees::bucket(out, self.sell_rates().prize_pool_bps as int) as u64,
                reserves_fee: crate::fees::bucket(out, self.sell_rates().reserves_bps as int) as u64,
                net_amount: 0,
            };
            let total = split.total_fees();
            if self.total_fees_collected + total > u64::MAX || self.creator_fees_pending
                + split.creator_fee > u64::MAX {
                Err(BondingCurveError::InvalidComputation)
            } else {
                Ok(
                    TokensSold {
                        seller: req.seller,
                        mint: self.mint,
                        token_amount: req.token_amount,
                        sol_out: out as u64,
                        fees: FeeSplit { net_amount: (out - total) as u64, ..split },
                    },
                )
            }
        }
    }

    /// The curve after a sell with receipt `p` is applied.
    pub open spec fn after_sell(self, p: TokensSold) -> BondingCurve {
        BondingCurve {
            real_sol_reserves: (self.real_sol_reserves - p.sol_out) as u64,
            real_token_reserves: (self.real_token_reserves + p.token_amount) as u64,
            tokens_sold: (self.tokens_sold - p.token_amount) as u64,
            total_fees_collected: (self.total_fees_collected + p.fees.total_fees()) as u64,
            creator_fees_pending: (self.creator_fees_pending + p.fees.creator_fee) as u64,
            ..self
        }
    }

    /// Computes what a sell request comes to, without changing the curve.
    pub fn plan_sell(&self, req: &SellTokens) -> (r: Result<TokensSold, BondingCurveError>)
        requires
            self.wf(),
        ensures
            r == self.sell_plan(*req),
    {
        if !self.is_trading() {
            return Err(BondingCurveError::TradingClosed);
        }
        if req.token_amount == 0 {
            return Err(BondingCurveError::InvalidAmount);
        }
        let sol_reserves = match self.virtual_sol_reserves.checked_add(self.real_sol_reserves) {
            Some(v) => v,
            None => return Err(BondingCurveError::InvalidComputation),
        };
        let token_reserves: u64 = self.virtual_token_reserves - self.tokens_sold;
        let sol_out = match calculate_sell_sol(req.token_amount, sol_reserves, token_reserves) {
            Ok(v) => v,
            Err(e) => return Err(e),
        };
        if sol_out < req.min_sol_out {
            return Err(BondingCurveError::SlippageExceeded);
        }
        if sol_out > self.real_sol_reserves {
            return Err(BondingCurveError::InsufficientCurveLiquidity);
        }
        if req.token_amount > self.tokens_sold || self.real_token_reserves.checked_add(
            req.token_amount,
        ).is_none() {
            return Err(BondingCurveError::InvalidComputation);
        }
        let rates = self.current_sell_rates();
        let fees = split_fees(sol_out, &rates);
        proof {
            crate::fees::lemma_buckets_within_gross(sol_out as int, rates);
        }
        let total_fees: u64 = fees.platform_fee + fees.creator_fee + fees.prize_pool_fee
            + fees.reserves_fee;
        if self.total_fees_collected.checked_add(total_fees).is_none()
            || self.creator_fees_pending.checked_add(fees.creator_fee).is_none() {
            return Err(BondingCurveError::InvalidComputation);
        }
        Ok(
            TokensSold {
                seller: req.seller,
                mint: self.mint,
                token_amount: req.token_amount,
                sol_out,
                fees,
            },
        )
    }

    /// Applies a sell once the ledger has answered for its transfers.
    ///
    /// A request that `plan_sell` rejects is rejected the same way; an
    /// accepted one fails with `TransferFailed` when the transfers did not
    /// go through. Either way a rejection leaves the curve unchanged. A sell
    /// never changes the phase.
    pub fn sell(&mut self, req: &SellTokens, transfers_ok: bool) -> (r: Result<
        TokensSold,
        BondingCurveError,
    >)
        requires
            old(self).wf(),
        ensures
            final(self).wf(),
            final(self).phase == old(self).phase,
            (r, *final(self)) == old(self).sell_outcome(*req, transfers_ok),
    {
        let plan = self.plan_sell(req);
        match plan {
            Err(e) => Err(e),
            Ok(p) => {
                if !transfers_ok {
                    return Err(BondingCurveError::TransferFailed);
                }
                proof {
                    lemma_sell_keeps_invariant(*self, *req);
                }
                self.real_sol_reserves = self.real_sol_reserves - p.sol_out;
                self.real_token_reserves = self.real_token_reserves + p.token_amount;
                self.tokens_sold = self.tokens_sold - p.token_amount;
                self.total_fees_collected = self.total_fees_collected + (p.fees.platform_fee
                    + p.fees.creator_fee + p.fees.prize_pool_fee + p.fees.reserves_fee);
                self.creator_fees_pending = self.creator_fees_pending + p.fees.creator_fee;
                Ok(p)
            },
        }
    }
}

/// An accepted sell keeps the curve's invariant, and every counter it moves
/// stays within 64 bits.
pub proof fn lemma_sell_keeps_invariant(c: BondingCurve, req: SellTokens)
    requires
        c.wf(),
        c.sell_plan(req) is Ok,
    ensures
        ({
            let p = c.sell_plan(req)->Ok_0;
            &&& c.after_sell(p).wf()
            &&& p.sol_out <= c.real_sol_reserves
            &&& c.real_token_reserves + p.token_amount <= u64::MAX
            &&& p.token_amount <= c.tokens_sold
            &&& c.total_fees_collected + p.fees.total_fees() <= u64::MAX
            &&& c.creator_fees_pending + p.fees.creator_fee <= u64::MAX
            &&& p.fees.total_fees() + p.fees.net_amount == p.sol_out
        }),
{
    let out = sell_output(req.token_amount as int, c.sol_reserves(), c.token_reserves());
    crate::fees::lemma_buckets_within_gross(out, c.sell_rates());
    crate::fees::lemma_bucket_bounds(out, c.sell_rates().platform_bps as int);
    crate::fees::lemma_bucket_bounds(out, c.sell_rates().creator_bps as int);
    crate::fees::lemma_bucket_bounds(out, c.sell_rates().prize_pool_bps as int);
    crate::fees::lemma_bucket_bounds(out, c.sell_rates().reserves_bps as int);
}

impl BondingCurve {
    /// What a migration request comes to on this curve.
    pub open spec fn graduate_plan(self, req: Graduate) -> Result<
        TokenFullyGraduated,
        BondingCurveError,
    > {
        if self.phase == Phase::Trading {
            Err(BondingCurveError::NotYetGraduated)
        } else if self.phase == Phase::Migrated {
            Err(BondingCurveError::AlreadyMigrated)
        } else if !req.authority.same(self.creator) && !req.authority.same(
            self.platform_authority,
        ) {
            Err(BondingCurveError::Unauthorized)
        } else {
            Ok(
                TokenFullyGraduated {
                    mint: self.mint,
                    final_sol_reserves: self.real_sol_reserves,
                    remaining_tokens: self.real_token_reserves,
                },
            )
        }
    }

    /// Marks a graduated curve as migrated to an outside market, on the
    /// request of its creator or of the platform authority, and records the
    /// final reserves. The reserves themselves do not change.
    pub fn graduate(&mut self, req: &Graduate) -> (r: Result<TokenFullyGraduated, BondingCurveError>)
        requires
            old(self).wf(),
        ensures
            final(self).wf(),
            old(self).phase.rank() <= final(self).phase.rank(),
            (r, *final(self)) == old(self).graduate_outcome(*req),
    {
        match self.phase {
            Phase::Trading => return Err(BondingCurveError::NotYetGraduated),
            Phase::Migrated => return Err(BondingCurveError::AlreadyMigrated),
            Phase::Graduated => {},
        }
        if !req.authority.same_as(&self.creator) && !req.authority.same_as(
            &self.platform_authority,
        ) {
            return Err(BondingCurveError::Unauthorized);
        }
        self.phase = Phase::Migrated;
        Ok(
            TokenFullyGraduated {
                mint: self.mint,
                final_sol_reserves: self.real_sol_reserves,
                remaining_tokens: self.real_token_reserves,
            },
        )
    }

    /// What a claim of the creator fees comes to on this curve.
    pub open spec fn claim_plan(self, req: ClaimCreatorFees) -> Result<
        CreatorFeesClaimed,
        BondingCurveError,
    > {
        if !req.creator.same(self.creator) {
            Err(BondingCurveError::Unauthorized)
        } else if self.creator_fees_pending == 0 {
            Err(BondingCurveError::NoClaimableFees)
        } else {
            Ok(CreatorFeesClaimed { creator: self.creator, amount: self.creator_fees_pending })
        }
    }

    /// Computes what a claim comes to, without changing the curve.
    pub fn plan_claim(&self, req: &ClaimCreatorFees) -> (r: Result<
        CreatorFeesClaimed,
        BondingCurveError,
    >)
        ensures
            r == self.claim_plan(*req),
    {
        if !req.creator.same_as(&self.creator) {
            return Err(BondingCurveError::Unauthorized);
        }
        if self.creator_fees_pending == 0 {
            return Err(BondingCurveError::NoClaimableFees);
        }
        Ok(CreatorFeesClaimed { creator: self.creator, amount: self.creator_fees_pending })
    }

    /// Pays out the pending creator fees once the ledger has answered for
    /// the payout transfer: on success the pending balance drops to zero.
    ///
    /// A claim that `plan_claim` rejects is rejected the same way; an
    /// accepted one fails with `TransferFailed` when the transfer did not go
    /// through. Either way a rejection leaves the curve unchanged.
    pub fn claim_creator_fees(&mut self, req: &ClaimCreatorFees, transfer_ok: bool) -> (r: Result<
        CreatorFeesClaimed,
        BondingCurveError,
    >)
        requires
            old(self).wf(),
        ensures
            final(self).wf(),
            final(self).phase == old(self).phase,
            (r, *final(self)) == old(self).claim_outcome(*req, transfer_ok),
    {
        let plan = self.plan_claim(req);
        match plan {
            Err(e) => Err(e),
            Ok(p) => {
                if !transfer_ok {
                    return Err(BondingCurveError::TransferFailed);
                }
                self.creator_fees_pending = 0;
                Ok(p)
            },
        }
    }
}

} // verus!
