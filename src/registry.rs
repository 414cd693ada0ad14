//! The curves of all tokens, each keyed by its mint.
//!
//! Operations on one curve never touch another; exclusive access to the
//! registry for the length of one operation serialises the trades on a
//! curve.
use vstd::prelude::*;

use crate::curve::{
    initialize_curve, BondingCurve, BuyTokens, ClaimCreatorFees, CreatorFeesClaimed,
    CurveInitialized, Graduate, InitializeCurve, SellTokens, TokenFullyGraduated,
    TokensPurchased, TokensSold, created_curve,
};
use crate::errors::BondingCurveError;
use crate::identity::Identity;

verus! {

/// The curves of all tokens, at most one per mint.
pub struct CurveRegistry {
    curves: Vec<BondingCurve>,
}

impl View for CurveRegistry {
    type V = Seq<BondingCurve>;

    closed spec fn view(&self) -> Seq<BondingCurve> {
        self.curves@
    }
}

impl CurveRegistry {
    /// Every curve is well formed and no two share a mint.
    pub open spec fn wf(&self) -> bool {
        &&& forall|i: int| 0 <= i < self@.len() ==> #[trigger] self@[i].wf()
        &&& forall|i: int, j: int|
            0 <= i < j < self@.len() ==> !(#[trigger] self@[i]).mint.same(#[trigger] self@[j].mint)
    }

    /// Whether a curve for `mint` exists.
    pub open spec fn has(&self, mint: Identity) -> bool {
        exists|i: int| 0 <= i < self@.len() && #[trigger] self@[i].mint.same(mint)
    }

    pub fn new() -> (r: CurveRegistry)
        ensures
            r@ == Seq::<BondingCurve>::empty(),
            r.wf(),
    {
        CurveRegistry { curves: Vec::new() }
    }

    pub fn len(&self) -> (r: usize)
        ensures
            r == self@.len(),
    {
        self.curves.len()
    }

    /// The position of the curve for `mint`, if there is one.
    pub fn find(&self, mint: &Identity) -> (r: Option<usize>)
        ensures
            r matches Some(i) ==> i < self@.len() && self@[i as int].mint.same(*mint),
            r is None ==> !self.has(*mint),
    {
        let mut i: usize = 0;
        while i < self.curves.len()
            invariant
                0 <= i <= self@.len(),
                self@ == self.curves@,
                forall|j: int| 0 <= j < i ==> !(#[trigger] self@[j]).mint.same(*mint),
            decreases self@.len() - i,
        {
            if self.curves[i].mint.same_as(mint) {
                return Some(i);
            }
            i = i + 1;
        }
        None
    }

    /// The curve at position `i`.
    pub fn curve(&self, i: usize) -> (r: &BondingCurve)
        requires
            i < self@.len(),
        ensures
            *r == self@[i as int],
    {
        &self.curves[i]
    }

    /// Creates the curve for `cfg.mint` and appends it.
    ///
    /// Fails with `CurveAlreadyExists` when the mint has a curve, and
    /// otherwise as `initialize_curve` does.
    pub fn create(&mut self, cfg: &InitializeCurve) -> (r: Result<
        (usize, CurveInitialized),
        BondingCurveError,
    >)
        requires
            old(self).wf(),
        ensures
            final(self).wf(),
            old(self).has(cfg.mint) ==> r == Err::<(usize, CurveInitialized), BondingCurveError>(
                BondingCurveError::CurveAlreadyExists,
            ),
            !old(self).has(cfg.mint) ==> match initialize_curve_result(*cfg) {
                Err(e) => r == Err::<(usize, CurveInitialized), BondingCurveError>(e),
                Ok(_) => r matches Ok((i, _)) && i == old(self)@.len(),
            },
            r is Ok ==> final(self)@ == old(self)@.push(created_curve(*cfg)),
            r is Err ==> final(self)@ == old(self)@,
    {
        if self.find(&cfg.mint).is_some() {
            return Err(BondingCurveError::CurveAlreadyExists);
        }
        match initialize_curve(cfg) {
            Err(e) => Err(e),
            Ok((curve, event)) => {
                let i = self.curves.len();
                self.curves.push(curve);
                proof {
                    assert(forall|j: int| 0 <= j < i ==> self@[j] == old(self)@[j]);
                    assert(self@[i as int] == curve);
                }
                Ok((i, event))
            },
        }
    }

    /// Buys on the curve of `mint`; see `BondingCurve::buy`. Fails with
    /// `UnknownCurve` when the mint has no curve. No other curve changes.
    pub fn buy(&mut self, mint: &Identity, req: &BuyTokens, transfers_ok: bool) -> (r: Result<
        TokensPurchased,
        BondingCurveError,
    >)
        requires
            old(self).wf(),
        ensures
            final(self).wf(),
            !old(self).has(*mint) ==> r == Err::<TokensPurchased, BondingCurveError>(
                BondingCurveError::UnknownCurve,
            ) && final(self)@ == old(self)@,
            forall|i: int|
                0 <= i < old(self)@.len() && #[trigger] old(self)@[i].mint.same(*mint) ==> {
                    let (res, c) = old(self)@[i].buy_outcome(*req, transfers_ok);
                    r == res && final(self)@ == old(self)@.update(i, c)
                },
    {
        match self.find(mint) {
            None => Err(BondingCurveError::UnknownCurve),
            Some(i) => {
                let mut c = self.curves[i];
                proof {
                    assert(c.wf());
                }
                let r = c.buy(req, transfers_ok);
                self.curves.set(i, c);
                proof {
                    self.lemma_unique_position(old(self)@, i as int, *mint);
                }
                r
            },
        }
    }

    /// Sells on the curve of `mint`; see `BondingCurve::sell`. Fails with
    /// `UnknownCurve` when the mint has no curve. No other curve changes.
    pub fn sell(&mut self, mint: &Identity, req: &SellTokens, transfers_ok: bool) -> (r: Result<
        TokensSold,
        BondingCurveError,
    >)
        requires
            old(self).wf(),
        ensures
            final(self).wf(),
            !old(self).has(*mint) ==> r == Err::<TokensSold, BondingCurveError>(
                BondingCurveError::UnknownCurve,
            ) && final(self)@ == old(self)@,
            forall|i: int|
                0 <= i < old(self)@.len() && #[trigger] old(self)@[i].mint.same(*mint) ==> {
                    let (res, c) = old(self)@[i].sell_outcome(*req, transfers_ok);
                    r == res && final(self)@ == old(self)@.update(i, c)
                },
    {
        match self.find(mint) {
            None => Err(BondingCurveError::UnknownCurve),
            Some(i) => {
                let mut c = self.curves[i];
                let r = c.sell(req, transfers_ok);
                self.curves.set(i, c);
                proof {
                    self.lemma_unique_position(old(self)@, i as int, *mint);
                }
                r
            },
        }
    }

    /// Migrates the curve of `mint`; see `BondingCurve::graduate`. Fails
    /// with `UnknownCurve` when the mint has no curve.
    pub fn graduate(&mut self, mint: &Identity, req: &Graduate) -> (r: Result<
        TokenFullyGraduated,
        BondingCurveError,
    >)
        requires
            old(self).wf(),
        ensures
            final(self).wf(),
            !old(self).has(*mint) ==> r == Err::<TokenFullyGraduated, BondingCurveError>(
                BondingCurveError::UnknownCurve,
            ) && final(self)@ == old(self)@,
            forall|i: int|
                0 <= i < old(self)@.len() && #[trigger] old(self)@[i].mint.same(*mint) ==> {
                    let (res, c) = old(self)@[i].graduate_outcome(*req);
                    r == res && final(self)@ == old(self)@.update(i, c)
                },
    {
        match self.find(mint) {
            None => Err(BondingCurveError::UnknownCurve),
            Some(i) => {
                let mut c = self.curves[i];
                let r = c.graduate(req);
                self.curves.set(i, c);
                proof {
                    self.lemma_unique_position(old(self)@, i as int, *mint);
                }
                r
            },
        }
    }

    /// Claims the creator fees of the curve of `mint`; see
    /// `BondingCurve::claim_creator_fees`. Fails with `UnknownCurve` when
    /// the mint has no curve.
    pub fn claim_creator_fees(
        &mut self,
        mint: &Identity,
        req: &ClaimCreatorFees,
        transfer_ok: bool,
    ) -> (r: Result<CreatorFeesClaimed, BondingCurveError>)
        requires
            old(self).wf(),
        ensures
            final(self).wf(),
            !old(self).has(*mint) ==> r == Err::<CreatorFeesClaimed, BondingCurveError>(
                BondingCurveError::UnknownCurve,
            ) && final(self)@ == old(self)@,
            forall|i: int|
                0 <= i < old(self)@.len() && #[trigger] old(self)@[i].mint.same(*mint) ==> {
                    let (res, c) = old(self)@[i].claim_outcome(*req, transfer_ok);
                    r == res && final(self)@ == old(self)@.update(i, c)
                },
    {
        match self.find(mint) {
            None => Err(BondingCurveError::UnknownCurve),
            Some(i) => {
                let mut c = self.curves[i];
                let r = c.claim_creator_fees(req, transfer_ok);
                self.curves.set(i, c);
                proof {
                    self.lemma_unique_position(old(self)@, i as int, *mint);
                }
                r
            },
        }
    }

    /// In a well-formed registry `k` is the only position of `mint`, and
    /// replacing that curve by one with the same mint keeps the registry
    /// well formed.
    proof fn lemma_unique_position(&self, before: Seq<BondingCurve>, k: int, mint: Identity)
        requires
            0 <= k < before.len(),
            before[k].mint.same(mint),
            forall|i: int, j: int|
                0 <= i < j < before.len() ==> !(#[trigger] before[i]).mint.same(
                    #[trigger] before[j].mint,
                ),
            self@ == before.update(k, self@[k]),
            self@[k].mint == before[k].mint,
            self@[k].wf(),
            forall|i: int| 0 <= i < before.len() ==> #[trigger] before[i].wf(),
        ensures
            forall|i: int| 0 <= i < before.len() && #[trigger] before[i].mint.same(mint) ==> i == k,
            self.wf(),
    {
        assert forall|i: int| 0 <= i < before.len() && #[trigger] before[i].mint.same(mint) implies i
            == k by {
            if i < k {
                assert(!before[i].mint.same(before[k].mint));
            } else if i > k {
                assert(!before[k].mint.same(before[i].mint));
            }
        }
        assert forall|i: int| 0 <= i < self@.len() implies #[trigger] self@[i].wf() by {
            if i != k {
                assert(self@[i] == before[i]);
            }
        }
        assert forall|i: int, j: int| 0 <= i < j < self@.len() implies !(#[trigger] self@[i]).mint.same(
            #[trigger] self@[j].mint,
        ) by {
            assert(self@[i].mint == before[i].mint);
            assert(self@[j].mint == before[j].mint);
            assert(!before[i].mint.same(before[j].mint));
        }
    }
}

/// What `initialize_curve` returns for `cfg`, as its contract fixes it.
pub open spec fn initialize_curve_result(cfg: InitializeCurve) -> Result<(), BondingCurveError> {
    if cfg.virtual_sol_reserves == 0 || cfg.virtual_token_reserves == 0 {
        Err(BondingCurveError::InvalidAmount)
    } else if !cfg.fees.valid() {
        Err(BondingCurveError::FeeTooHigh)
    } else {
        Ok(())
    }
}

} // verus!
