use bonding_curve::curve::{
    initialize_curve, BondingCurve, BuyTokens, ClaimCreatorFees, Graduate, InitializeCurve, Phase,
    SellTokens,
};
use bonding_curve::errors::BondingCurveError;
use bonding_curve::fees::{FeeRates, FeeSchedule};
use bonding_curve::identity::Identity;

fn id(b: u8) -> Identity {
    Identity::new([b; 32])
}

const MINT: u8 = 1;
const CREATOR: u8 = 2;
const PLATFORM: u8 = 3;
const TRADER: u8 = 4;

fn config(virtual_sol: u64, virtual_token: u64, supply: u64, threshold: u64) -> InitializeCurve {
    InitializeCurve {
        mint: id(MINT),
        creator: id(CREATOR),
        platform_authority: id(PLATFORM),
        virtual_sol_reserves: virtual_sol,
        virtual_token_reserves: virtual_token,
        bonding_curve_supply: supply,
        graduation_threshold: threshold,
        fees: FeeSchedule::standard(),
    }
}

fn curve(virtual_sol: u64, virtual_token: u64, supply: u64, threshold: u64) -> BondingCurve {
    initialize_curve(&config(virtual_sol, virtual_token, supply, threshold)).unwrap().0
}

fn launch() -> BondingCurve {
    curve(30_000_000_000, 1_073_000_000_000_000, 793_100_000_000_000, 326_000_000_000)
}

fn buy_req(sol_amount: u64, min_tokens_out: u64) -> BuyTokens {
    BuyTokens { buyer: id(TRADER), sol_amount, min_tokens_out }
}

fn sell_req(token_amount: u64, min_sol_out: u64) -> SellTokens {
    SellTokens { seller: id(TRADER), token_amount, min_sol_out }
}

fn graduated_curve() -> BondingCurve {
    let mut c = curve(30, 1_000_000_000, 1_000_000_000, 40);
    c.buy(&buy_req(10, 0), true).unwrap();
    assert_eq!(c.phase, Phase::Graduated);
    c
}

#[test]
fn initialize_sets_up_trading_curve() {
    let (c, ev) = initialize_curve(&config(30, 1_000, 800, 100)).unwrap();
    assert_eq!(c.phase, Phase::Trading);
    assert_eq!(c.real_sol_reserves, 0);
    assert_eq!(c.real_token_reserves, 800);
    assert_eq!(c.tokens_sold, 0);
    assert_eq!(c.creator_fees_pending, 0);
    assert_eq!(c.total_fees_collected, 0);
    assert_eq!(c.graduation_threshold, 100);
    assert_eq!(ev.bonding_curve_supply, 800);
    assert_eq!(ev.virtual_sol_reserves, 30);
    assert_eq!(ev.creator, id(CREATOR));
}

#[test]
fn initialize_rejects_zero_virtual_reserves() {
    assert_eq!(initialize_curve(&config(0, 1_000, 800, 100)).unwrap_err(), BondingCurveError::InvalidAmount);
    assert_eq!(initialize_curve(&config(30, 0, 800, 100)).unwrap_err(), BondingCurveError::InvalidAmount);
}

#[test]
fn initialize_rejects_excessive_fees() {
    let mut cfg = config(30, 1_000, 800, 100);
    cfg.fees.pre_threshold_buy = FeeRates { platform_bps: 9_000, creator_bps: 1_000, prize_pool_bps: 1, reserves_bps: 0 };
    assert_eq!(initialize_curve(&cfg).unwrap_err(), BondingCurveError::FeeTooHigh);
}

#[test]
fn small_buy_keeps_product() {
    let mut c = curve(30, 1_000_000_000, 1_000_000_000, 326_000_000_000);
    let k_before = (c.virtual_sol_reserves + c.real_sol_reserves) as u128
        * (c.virtual_token_reserves - c.tokens_sold) as u128;
    let p = c.buy(&buy_req(10, 0), true).unwrap();
    let total_fees = p.fees.platform_fee + p.fees.creator_fee + p.fees.prize_pool_fee + p.fees.reserves_fee;
    assert_eq!(total_fees, 0);
    assert_eq!(p.fees.net_amount, 10 - total_fees);
    assert_eq!(p.tokens_received, 250_000_000);
    assert_eq!(c.real_sol_reserves, 10);
    assert_eq!(c.real_token_reserves, 750_000_000);
    assert_eq!(c.tokens_sold, 250_000_000);
    let k_after = (c.virtual_sol_reserves + c.real_sol_reserves) as u128
        * (c.virtual_token_reserves - c.tokens_sold) as u128;
    assert_eq!(k_before, k_after);
    assert_eq!(p.phase, Phase::Trading);
}

#[test]
fn buy_with_fees_updates_reserves_and_counters() {
    let mut c = launch();
    let p = c.buy(&buy_req(1_000_000_000, 0), true).unwrap();
    assert_eq!(p.tokens_received, 34_612_903_225_807);
    assert_eq!(p.fees.platform_fee, 10_000_000);
    assert_eq!(p.fees.creator_fee, 5_000_000);
    assert_eq!(p.fees.prize_pool_fee, 3_000_000);
    assert_eq!(p.fees.reserves_fee, 2_000_000);
    assert_eq!(p.fees.net_amount, 980_000_000);
    assert_eq!(c.real_sol_reserves, 980_000_000);
    assert_eq!(c.real_token_reserves, 793_100_000_000_000 - 34_612_903_225_807);
    assert_eq!(c.tokens_sold, 34_612_903_225_807);
    assert_eq!(c.total_fees_collected, 20_000_000);
    assert_eq!(c.creator_fees_pending, 5_000_000);
    assert_eq!(p.graduated, None);
}

#[test]
fn trade_fees_add_up_to_gross() {
    let mut c = launch();
    let p = c.buy(&buy_req(777_777_777, 0), true).unwrap();
    let f = p.fees;
    assert_eq!(f.platform_fee + f.creator_fee + f.prize_pool_fee + f.reserves_fee + f.net_amount, 777_777_777);
    let s = c.sell(&sell_req(p.tokens_received / 3, 0), true).unwrap();
    let f = s.fees;
    assert_eq!(f.platform_fee + f.creator_fee + f.prize_pool_fee + f.reserves_fee + f.net_amount, s.sol_out);
}

#[test]
fn sell_returns_sol_with_fees() {
    let mut c = launch();
    let p = c.buy(&buy_req(1_000_000_000, 0), true).unwrap();
    let half = p.tokens_received / 2;
    let s = c.sell(&sell_req(half, 0), true).unwrap();
    assert_eq!(s.sol_out, 507_868_853);
    assert_eq!(s.fees.platform_fee, 5_078_688);
    assert_eq!(s.fees.creator_fee, 2_539_344);
    assert_eq!(s.fees.prize_pool_fee, 0);
    assert_eq!(s.fees.reserves_fee, 0);
    assert_eq!(s.fees.net_amount, 500_250_821);
    assert_eq!(c.real_sol_reserves, 980_000_000 - 507_868_853);
    assert_eq!(c.tokens_sold, p.tokens_received - half);
    assert_eq!(c.real_token_reserves, 793_100_000_000_000 - p.tokens_received + half);
    assert_eq!(c.creator_fees_pending, 5_000_000 + 2_539_344);
    assert_eq!(c.total_fees_collected, 20_000_000 + 5_078_688 + 2_539_344);
    assert_eq!(c.phase, Phase::Trading);
}

#[test]
fn graduates_on_exact_threshold() {
    let mut c = curve(30, 1_000_000_000, 1_000_000_000, 60);
    let first = c.buy(&buy_req(10, 0), true).unwrap();
    assert_eq!(first.phase, Phase::Trading);
    assert_eq!(c.phase, Phase::Trading);
    let second = c.buy(&buy_req(10, 0), true).unwrap();
    assert_eq!(second.phase, Phase::Trading);
    assert_eq!(c.phase, Phase::Trading);
    assert_eq!(c.real_sol_reserves + c.virtual_sol_reserves, 50);
    let third = c.buy(&buy_req(10, 0), true).unwrap();
    assert_eq!(c.real_sol_reserves + c.virtual_sol_reserves, 60);
    assert_eq!(third.phase, Phase::Graduated);
    assert_eq!(c.phase, Phase::Graduated);
    let g = third.graduated.unwrap();
    assert_eq!(g.total_sol_raised, 60);
    assert_eq!(g.tokens_sold, c.tokens_sold);
    assert_eq!(c.buy(&buy_req(10, 0), true).unwrap_err(), BondingCurveError::TradingClosed);
}

#[test]
fn sell_never_graduates() {
    let mut c = curve(30, 1_000_000_000, 1_000_000_000, 45);
    let p = c.buy(&buy_req(10, 0), true).unwrap();
    c.graduation_threshold = 1;
    c.sell(&sell_req(p.tokens_received / 2, 0), true).unwrap();
    assert_eq!(c.phase, Phase::Trading);
}

#[test]
fn claim_twice() {
    let mut c = launch();
    c.buy(&buy_req(1_000_000, 0), true).unwrap();
    assert_eq!(c.creator_fees_pending, 5_000);
    let claim = ClaimCreatorFees { creator: id(CREATOR) };
    let first = c.claim_creator_fees(&claim, true).unwrap();
    assert_eq!(first.amount, 5_000);
    assert_eq!(first.creator, id(CREATOR));
    assert_eq!(c.creator_fees_pending, 0);
    assert_eq!(c.claim_creator_fees(&claim, true).unwrap_err(), BondingCurveError::NoClaimableFees);
}

#[test]
fn claim_by_other_identity_is_unauthorized() {
    let mut c = launch();
    c.buy(&buy_req(1_000_000, 0), true).unwrap();
    let before = c;
    let claim = ClaimCreatorFees { creator: id(TRADER) };
    assert_eq!(c.claim_creator_fees(&claim, true).unwrap_err(), BondingCurveError::Unauthorized);
    assert_eq!(c, before);
}

#[test]
fn failed_claim_transfer_keeps_balance() {
    let mut c = launch();
    c.buy(&buy_req(1_000_000, 0), true).unwrap();
    let before = c;
    let claim = ClaimCreatorFees { creator: id(CREATOR) };
    assert_eq!(c.plan_claim(&claim).unwrap().amount, 5_000);
    assert_eq!(c.claim_creator_fees(&claim, false).unwrap_err(), BondingCurveError::TransferFailed);
    assert_eq!(c, before);
}

#[test]
fn sell_slippage_leaves_state() {
    let mut c = launch();
    let p = c.buy(&buy_req(1_000_000_000, 0), true).unwrap();
    let quote = c.plan_sell(&sell_req(p.tokens_received / 2, 0)).unwrap().sol_out;
    let before = c;
    let r = c.sell(&sell_req(p.tokens_received / 2, quote + 1), true);
    assert_eq!(r.unwrap_err(), BondingCurveError::SlippageExceeded);
    assert_eq!(c, before);
}

#[test]
fn buy_slippage_is_rejected() {
    let mut c = curve(30, 1_000_000_000, 1_000_000_000, 326_000_000_000);
    let before = c;
    assert_eq!(c.buy(&buy_req(10, 250_000_001), true).unwrap_err(), BondingCurveError::SlippageExceeded);
    assert_eq!(c, before);
    assert!(c.buy(&buy_req(10, 250_000_000), true).is_ok());
}

#[test]
fn zero_amounts_are_rejected() {
    let mut c = launch();
    let before = c;
    assert_eq!(c.buy(&buy_req(0, 0), true).unwrap_err(), BondingCurveError::InvalidAmount);
    assert_eq!(c.sell(&sell_req(0, 0), true).unwrap_err(), BondingCurveError::InvalidAmount);
    assert_eq!(c, before);
}

#[test]
fn buy_beyond_real_tokens_is_rejected() {
    let mut c = curve(30, 1_000_000_000, 100_000_000, 326_000_000_000);
    let before = c;
    assert_eq!(c.buy(&buy_req(10, 0), true).unwrap_err(), BondingCurveError::InsufficientCurveLiquidity);
    assert_eq!(c, before);
}

#[test]
fn sell_beyond_real_sol_is_rejected() {
    let mut c = curve(30, 1_000_000_000, 1_000_000_000, 326_000_000_000);
    let p = c.buy(&buy_req(10, 0), true).unwrap();
    // Selling the tokens bought needs only the 10 SOL paid in.
    assert_eq!(c.plan_sell(&sell_req(p.tokens_received, 0)).unwrap().sol_out, 10);
    // A curve whose real SOL went elsewhere cannot pay.
    let mut drained = c;
    drained.real_sol_reserves = 5;
    let before = drained;
    assert_eq!(drained.sell(&sell_req(p.tokens_received, 0), true).unwrap_err(), BondingCurveError::InsufficientCurveLiquidity);
    assert_eq!(drained, before);
}

#[test]
fn sell_of_more_than_sold_is_rejected() {
    let mut c = curve(1_000, 1_000_000, 1_000_000, 326_000_000_000);
    c.buy(&buy_req(1_000, 0), true).unwrap();
    c.real_sol_reserves = u64::MAX / 2;
    let more = c.tokens_sold + 1;
    assert_eq!(c.sell(&sell_req(more, 0), true).unwrap_err(), BondingCurveError::InvalidComputation);
}

#[test]
fn buy_overflowing_reserves_is_rejected() {
    let mut c = curve(u64::MAX, 1_000_000_000, 1_000_000_000, 326_000_000_000);
    let before = c;
    assert_eq!(c.buy(&buy_req(1, 0), true).unwrap_err(), BondingCurveError::InvalidComputation);
    assert_eq!(c, before);
}

#[test]
fn failed_buy_transfer_leaves_state() {
    let mut c = launch();
    let before = c;
    let plan = c.plan_buy(&buy_req(1_000_000_000, 0)).unwrap();
    assert_eq!(plan.tokens_received, 34_612_903_225_807);
    assert_eq!(c.buy(&buy_req(1_000_000_000, 0), false).unwrap_err(), BondingCurveError::TransferFailed);
    assert_eq!(c, before);
}

#[test]
fn failed_sell_transfer_leaves_state() {
    let mut c = launch();
    let p = c.buy(&buy_req(1_000_000_000, 0), true).unwrap();
    let before = c;
    assert_eq!(c.sell(&sell_req(p.tokens_received / 2, 0), false).unwrap_err(), BondingCurveError::TransferFailed);
    assert_eq!(c, before);
}

#[test]
fn graduated_curve_rejects_every_trade() {
    let mut c = graduated_curve();
    let before = c;
    for amount in [0u64, 1, 10, 1_000_000, u64::MAX] {
        assert_eq!(c.buy(&buy_req(amount, 0), true).unwrap_err(), BondingCurveError::TradingClosed);
        assert_eq!(c.sell(&sell_req(amount, 0), true).unwrap_err(), BondingCurveError::TradingClosed);
        assert_eq!(c.plan_buy(&buy_req(amount, 0)).unwrap_err(), BondingCurveError::TradingClosed);
    }
    assert_eq!(c, before);
}

#[test]
fn post_threshold_fee_rows_are_unreachable_while_trading() {
    // Trading stops at graduation, so a trade never sees the post-threshold rows.
    let mut c = curve(30, 1_000_000_000, 1_000_000_000, 326_000_000_000);
    c.fees.post_threshold_buy = FeeRates { platform_bps: 10_000, creator_bps: 0, prize_pool_bps: 0, reserves_bps: 0 };
    let p = c.buy(&buy_req(1_000_000, 0), true).unwrap();
    assert_eq!(p.fees.platform_fee, 10_000);
}

#[test]
fn migration_needs_graduation_and_authority() {
    let mut c = curve(30, 1_000_000_000, 1_000_000_000, 326_000_000_000);
    assert_eq!(c.graduate(&Graduate { authority: id(CREATOR) }).unwrap_err(), BondingCurveError::NotYetGraduated);
    let mut g = graduated_curve();
    let before = g;
    assert_eq!(g.graduate(&Graduate { authority: id(TRADER) }).unwrap_err(), BondingCurveError::Unauthorized);
    assert_eq!(g, before);
    let rec = g.graduate(&Graduate { authority: id(PLATFORM) }).unwrap();
    assert_eq!(g.phase, Phase::Migrated);
    assert_eq!(rec.final_sol_reserves, 10);
    assert_eq!(rec.remaining_tokens, 750_000_000);
    assert_eq!(g.real_sol_reserves, before.real_sol_reserves);
    assert_eq!(g.graduate(&Graduate { authority: id(CREATOR) }).unwrap_err(), BondingCurveError::AlreadyMigrated);
}

#[test]
fn creator_may_migrate() {
    let mut g = graduated_curve();
    assert!(g.graduate(&Graduate { authority: id(CREATOR) }).is_ok());
    assert_eq!(g.phase, Phase::Migrated);
}

#[test]
fn phase_never_regresses() {
    let mut c = curve(30, 1_000_000_000, 1_000_000_000, 50);
    let rank = |p: Phase| match p {
        Phase::Trading => 0,
        Phase::Graduated => 1,
        Phase::Migrated => 2,
    };
    let mut last = rank(c.phase);
    let p = c.buy(&buy_req(10, 0), true).unwrap();
    assert!(rank(c.phase) >= last);
    last = rank(c.phase);
    c.sell(&sell_req(p.tokens_received / 2, 0), true).unwrap();
    assert!(rank(c.phase) >= last);
    last = rank(c.phase);
    c.buy(&buy_req(20, 0), true).unwrap();
    assert!(rank(c.phase) >= last);
    last = rank(c.phase);
    assert_eq!(c.phase, Phase::Graduated);
    let _ = c.sell(&sell_req(1, 0), true);
    let _ = c.claim_creator_fees(&ClaimCreatorFees { creator: id(CREATOR) }, true);
    assert!(rank(c.phase) >= last);
    c.graduate(&Graduate { authority: id(CREATOR) }).unwrap();
    assert!(rank(c.phase) >= last);
    last = rank(c.phase);
    let _ = c.buy(&buy_req(10, 0), true);
    let _ = c.graduate(&Graduate { authority: id(CREATOR) });
    assert!(rank(c.phase) >= last);
    assert_eq!(c.phase, Phase::Migrated);
}

#[test]
fn supply_bound_holds_over_trades() {
    let mut c = curve(30, 1_000, 1_000, u64::MAX);
    for amount in [1u64, 5, 100, 10_000, 1_000_000] {
        let _ = c.buy(&buy_req(amount, 0), true);
        assert!(c.tokens_sold <= c.virtual_token_reserves);
        let _ = c.sell(&sell_req(c.tokens_sold / 2, 0), true);
        assert!(c.tokens_sold <= c.virtual_token_reserves);
    }
}

#[test]
fn identities_compare_by_bytes() {
    let mut b = [7u8; 32];
    assert!(Identity::new(b).same_as(&Identity::new(b)));
    b[31] = 8;
    assert!(!Identity::new([7u8; 32]).same_as(&Identity::new(b)));
}
