//! A fee wrapper for trades routed to an outside market.
//!
//! The wrapper takes a platform bucket and a creator bucket from the amount
//! of each trade it sees, with the same split as the curve, and keeps its
//! own volume and fee counters. It has no say over any curve.
use vstd::prelude::*;

use crate::fees::{bucket, split_fees, FeeRates, FeeSplit, BPS_DENOMINATOR};
use crate::identity::Identity;

verus! {

/// Direction of a wrapped trade.
#[derive(PartialEq, Eq, Structural, Clone, Copy, Debug)]
pub enum TradeType {
    Buy,
    Sell,
}

/// Why a wrapper operation was rejected; a rejection changes nothing.
#[derive(PartialEq, Eq, Structural, Clone, Copy, Debug)]
pub enum ErrorCode {
    WrapperInactive,
    Unauthorized,
    /// The two rates together exceed a whole.
    InvalidFeePercentage,
    /// A counter of the wrapper would leave 64 bits.
    CounterOverflow,
    /// The ledger rejected a fee transfer of the trade.
    TransferFailed,
}

/// The state of a wrapper for one token.
#[derive(PartialEq, Eq, Clone, Copy, Debug)]
pub struct FeeWrapper {
    pub token_mint: Identity,
    pub creator_wallet: Identity,
    pub platform_fee_bps: u16,
    pub creator_fee_bps: u16,
    pub total_volume: u64,
    pub total_fees_collected: u64,
    pub creator_fees_earned: u64,
    pub platform_fees_earned: u64,
    pub is_active: bool,
    /// Creation time, in seconds since the Unix epoch.
    pub created_at: i64,
}

/// Record of a created wrapper.
#[derive(PartialEq, Eq, Clone, Copy, Debug)]
pub struct WrapperInitialized {
    pub token_mint: Identity,
    pub creator_wallet: Identity,
    pub platform_fee_bps: u16,
    pub creator_fee_bps: u16,
}

/// Receipt of a wrapped trade: the user pays `platform_fee` to the platform
/// and `creator_fee` to the creator.
#[derive(PartialEq, Eq, Clone, Copy, Debug)]
pub struct WrapperTradeExecuted {
    pub user: Identity,
    pub trade_amount: u64,
    pub trade_amount_after_fees: u64,
    pub total_fees: u64,
    pub platform_fee: u64,
    pub creator_fee: u64,
    pub trade_type: TradeType,
}

/// Record of a status change.
#[derive(PartialEq, Eq, Clone, Copy, Debug)]
pub struct WrapperStatusUpdated {
    pub is_active: bool,
}

/// Creates an active wrapper with zero counters.
///
/// Fails with `InvalidFeePercentage` when the two rates together exceed
/// ten thousand basis points.
pub fn initialize_wrapper(
    token_mint: Identity,
    creator_wallet: Identity,
    platform_fee_bps: u16,
    creator_fee_bps: u16,
    created_at: i64,
) -> (r: Result<(FeeWrapper, WrapperInitialized), ErrorCode>)
    ensures
        platform_fee_bps + creator_fee_bps > BPS_DENOMINATOR ==> r == Err::<
            (FeeWrapper, WrapperInitialized),
            ErrorCode,
        >(ErrorCode::InvalidFeePercentage),
        platform_fee_bps + creator_fee_bps <= BPS_DENOMINATOR ==> r == Ok::<
            (FeeWrapper, WrapperInitialized),
            ErrorCode,
        >(
            (
                FeeWrapper {
                    token_mint,
                    creator_wallet,
                    platform_fee_bps,
                    creator_fee_bps,
                    total_volume: 0,
                    total_fees_collected: 0,
                    creator_fees_earned: 0,
                    platform_fees_earned: 0,
                    is_active: true,
                    created_at,
                },
                WrapperInitialized { token_mint, creator_wallet, platform_fee_bps, creator_fee_bps },
            ),
        ),
{
    if platform_fee_bps as u64 + creator_fee_bps as u64 > BPS_DENOMINATOR {
        return Err(ErrorCode::InvalidFeePercentage);
    }
    let wrapper = FeeWrapper {
        token_mint,
        creator_wallet,
        platform_fee_bps,
        creator_fee_bps,
        total_volume: 0,
        total_fees_collected: 0,
        creator_fees_earned: 0,
        platform_fees_earned: 0,
        is_active: true,
        created_at,
    };
    Ok((wrapper, WrapperInitialized { token_mint, creator_wallet, platform_fee_bps, creator_fee_bps }))
}

impl FeeWrapper {
    /// The two rates together take at most a whole.
    pub open spec fn wf(self) -> bool {
        self.platform_fee_bps + self.creator_fee_bps <= BPS_DENOMINATOR
    }

    /// What a trade of `trade_amount` comes to under this wrapper.
    pub open spec fn trade_plan(self, user: Identity, trade_amount: u64, trade_type: TradeType) -> Result<
        WrapperTradeExecuted,
        ErrorCode,
    > {
        let platform = bucket(trade_amount as int, self.platform_fee_bps as int);
        let creator = bucket(trade_amount as int, self.creator_fee_bps as int);
        if !self.is_active {
            Err(ErrorCode::WrapperInactive)
        } else if self.total_volume + trade_amount > u64::MAX || self.total_fees_collected
            + platform + creator > u64::MAX || self.platform_fees_earned + platform > u64::MAX
            || self.creator_fees_earned + creator > u64::MAX {
            Err(ErrorCode::CounterOverflow)
        } else {
            Ok(
                WrapperTradeExecuted {
                    user,
                    trade_amount,
                    trade_amount_after_fees: (trade_amount - platform - creator) as u64,
                    total_fees: (platform + creator) as u64,
                    platform_fee: platform as u64,
                    creator_fee: creator as u64,
                    trade_type,
                },
            )
        }
    }

    /// The wrapper after a trade with receipt `p` is counted.
    pub open spec fn after_trade(self, p: WrapperTradeExecuted) -> FeeWrapper {
        FeeWrapper {
            total_volume: (self.total_volume + p.trade_amount) as u64,
            total_fees_collected: (self.total_fees_collected + p.total_fees) as u64,
            platform_fees_earned: (self.platform_fees_earned + p.platform_fee) as u64,
            creator_fees_earned: (self.creator_fees_earned + p.creator_fee) as u64,
            ..self
        }
    }

    /// Computes what a trade comes to, without changing the wrapper. The
    /// fees and the amount after fees add up to the trade amount.
    pub fn plan_wrapper_trade(&self, user: Identity, trade_amount: u64, trade_type: TradeType) -> (r:
        Result<WrapperTradeExecuted, ErrorCode>)
        requires
            self.wf(),
        ensures
            r == self.trade_plan(user, trade_amount, trade_type),
            r matches Ok(p) ==> p.total_fees == p.platform_fee + p.creator_fee
                && p.total_fees + p.trade_amount_after_fees == trade_amount,
    {
        if !self.is_active {
            return Err(ErrorCode::WrapperInactive);
        }
        let rates = FeeRates::two_way(self.platform_fee_bps, self.creator_fee_bps);
        let split: FeeSplit = split_fees(trade_amount, &rates);
        let total_fees: u64 = split.platform_fee + split.creator_fee;
        if self.total_volume.checked_add(trade_amount).is_none()
            || self.total_fees_collected.checked_add(total_fees).is_none()
            || self.platform_fees_earned.checked_add(split.platform_fee).is_none()
            || self.creator_fees_earned.checked_add(split.creator_fee).is_none() {
            return Err(ErrorCode::CounterOverflow);
        }
        Ok(
            WrapperTradeExecuted {
                user,
                trade_amount,
                trade_amount_after_fees: split.net_amount,
                total_fees,
                platform_fee: split.platform_fee,
                creator_fee: split.creator_fee,
                trade_type,
            },
        )
    }

    /// Counts a trade once the ledger has answered for its fee transfers.
    ///
    /// A trade that `plan_wrapper_trade` rejects is rejected the same way;
    /// an accepted one fails with `TransferFailed` when the transfers did
    /// not go through. A rejection leaves the wrapper unchanged.
    pub fn execute_wrapper_trade(
        &mut self,
        user: Identity,
        trade_amount: u64,
        trade_type: TradeType,
        transfers_ok: bool,
    ) -> (r: Result<WrapperTradeExecuted, ErrorCode>)
        requires
            old(self).wf(),
        ensures
            final(self).wf(),
            match old(self).trade_plan(user, trade_amount, trade_type) {
                Err(e) => r == Err::<WrapperTradeExecuted, ErrorCode>(e) && *final(self) == *old(
                    self,
                ),
                Ok(p) => if transfers_ok {
                    r == Ok::<WrapperTradeExecuted, ErrorCode>(p) && *final(self) == old(
                        self,
                    ).after_trade(p)
                } else {
                    r == Err::<WrapperTradeExecuted, ErrorCode>(ErrorCode::TransferFailed)
                        && *final(self) == *old(self)
                },
            },
    {
        let plan = self.plan_wrapper_trade(user, trade_amount, trade_type);
        match plan {
            Err(e) => Err(e),
            Ok(p) => {
                if !transfers_ok {
                    return Err(ErrorCode::TransferFailed);
                }
                self.total_volume = self.total_volume + p.trade_amount;
                self.total_fees_collected = self.total_fees_collected + p.total_fees;
                self.platform_fees_earned = self.platform_fees_earned + p.platform_fee;
                self.creator_fees_earned = self.creator_fees_earned + p.creator_fee;
                Ok(p)
            },
        }
    }

    /// Turns the wrapper on or off; only its creator wallet may.
    pub fn update_wrapper_status(&mut self, signer: &Identity, is_active: bool) -> (r: Result<
        WrapperStatusUpdated,
        ErrorCode,
    >)
        ensures
            signer.same(old(self).creator_wallet) ==> r == Ok::<WrapperStatusUpdated, ErrorCode>(
                WrapperStatusUpdated { is_active },
            ) && *final(self) == (FeeWrapper { is_active, ..*old(self) }),
            !signer.same(old(self).creator_wallet) ==> r == Err::<WrapperStatusUpdated, ErrorCode>(
                ErrorCode::Unauthorized,
            ) && *final(self) == *old(self),
    {
        if !signer.same_as(&self.creator_wallet) {
            return Err(ErrorCode::Unauthorized);
        }
        self.is_active = is_active;
        Ok(WrapperStatusUpdated { is_active })
    }
}

} // verus!
