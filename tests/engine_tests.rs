use cdp_engine::engine::{CdpEngine, EngineConfig};
use cdp_engine::fixed::{Fixed, ACCURACY};
use cdp_engine::liquidation::choose_liquidation_strategy;
use cdp_engine::traits::{CdpTreasury, DexManager, EmergencyShutdown, LoansLedger, PriceProvider};
use cdp_engine::types::{Change, CollaboratorError, Error, Event, LiquidationStrategy, Position, RiskManagementParams};
use cdp_engine::validator::{InvalidTransaction, RequestTag, REQUEST_LONGEVITY};
use cdp_engine::scanner::ScanRequest;
use std::collections::HashMap;

const STABLE: u32 = 0;
const X: u32 = 1;
const Y: u32 = 2;
const ALICE: u64 = 7;

fn pct(p: u128) -> Fixed {
    Fixed::from_inner(p * ACCURACY / 100)
}

fn config() -> EngineConfig {
    EngineConfig {
        collateral_currency_ids: vec![X, Y],
        default_liquidation_ratio: pct(150),
        default_debit_exchange_rate: Fixed::one(),
        default_liquidation_penalty: pct(5),
        minimum_debit_value: 2,
        stable_currency_id: STABLE,
        max_slippage_swap_with_dex: pct(10),
        unsigned_priority: 1000,
    }
}

fn engine() -> CdpEngine {
    CdpEngine::new(config(), Fixed::zero())
}

#[derive(Default)]
struct Env {
    positions: HashMap<(u32, u64), Position>,
    totals: HashMap<u32, u128>,
    prices: HashMap<(u32, u32), Fixed>,
    supply_amount: u128,
    slippage: Option<Fixed>,
    shutdown: bool,
    treasury_fails: bool,
    surplus: Vec<u128>,
    calls: Vec<String>,
}

impl LoansLedger for Env {
    fn positions(&self, c: u32, who: u64) -> Position {
        *self.positions.get(&(c, who)).unwrap_or(&Position { collateral: 0, debit: 0 })
    }
    fn total_debits(&self, c: u32) -> u128 {
        *self.totals.get(&c).unwrap_or(&0)
    }
    fn confiscate_collateral_and_debit(&mut self, who: u64, c: u32, collateral: u128, debit: u128) -> Result<(), CollaboratorError> {
        self.calls.push(format!("confiscate {} {} {} {}", c, who, collateral, debit));
        Ok(())
    }
    fn adjust_position(&mut self, who: u64, c: u32, dc: i128, dd: i128) -> Result<(), CollaboratorError> {
        self.calls.push(format!("adjust {} {} {} {}", c, who, dc, dd));
        Ok(())
    }
}

impl CdpTreasury for Env {
    fn on_system_surplus(&mut self, amount: u128) -> Result<(), CollaboratorError> {
        if self.treasury_fails {
            return Err(CollaboratorError { code: 3 });
        }
        self.surplus.push(amount);
        Ok(())
    }
    fn swap_collateral_to_stable(&mut self, c: u32, supply: u128, target: u128) -> Result<(), CollaboratorError> {
        if self.treasury_fails {
            return Err(CollaboratorError { code: 4 });
        }
        self.calls.push(format!("swap {} {} {}", c, supply, target));
        Ok(())
    }
    fn withdraw_collateral(&mut self, to: u64, c: u32, amount: u128) -> Result<(), CollaboratorError> {
        self.calls.push(format!("withdraw {} {} {}", to, c, amount));
        Ok(())
    }
    fn create_collateral_auctions(&mut self, c: u32, amount: u128, target: u128, refund: u64, splited: bool) -> Result<(), CollaboratorError> {
        self.calls.push(format!("auction {} {} {} {} {}", c, amount, target, refund, splited));
        Ok(())
    }
}

impl DexManager for Env {
    fn get_supply_amount(&self, _s: u32, _t: u32, _a: u128) -> u128 {
        self.supply_amount
    }
    fn get_exchange_slippage(&self, _s: u32, _t: u32, _a: u128) -> Option<Fixed> {
        self.slippage
    }
}

impl PriceProvider for Env {
    fn get_relative_price(&self, base: u32, quote: u32) -> Option<Fixed> {
        self.prices.get(&(base, quote)).copied()
    }
}

impl EmergencyShutdown for Env {
    fn is_shutdown(&self) -> bool {
        self.shutdown
    }
}

#[test]
fn fixed_point_arithmetic_is_exact() {
    assert_eq!(pct(150).saturating_mul_int(7), 10);
    assert_eq!(pct(150).saturating_mul(pct(150)), pct(225));
    assert_eq!(pct(5).saturating_mul_acc_int(50_000), 52_500);
    assert_eq!(Fixed::checked_from_rational(1, 3), Some(Fixed::from_inner(333_333_333_333_333_333)));
    assert_eq!(Fixed::checked_from_rational(1, 0), None);
    assert_eq!(Fixed::checked_from_rational(u128::MAX, 1), None);
    assert_eq!(pct(200).saturating_mul_int(u128::MAX), u128::MAX);
    assert_eq!(pct(200).saturating_mul_acc_int(u128::MAX / 2), u128::MAX);
    assert_eq!(pct(50).saturating_add(Fixed::max_value()), Fixed::max_value());
}

#[test]
fn fixed_point_rounding_beyond_128_bits() {
    let big = Fixed::from_inner(170141183460469231731687303715884105727);
    assert_eq!(big.saturating_mul_int(3), 510423550381407695195);
    assert_eq!(big.saturating_mul_int(7), 1190988284223284622122);
    assert_eq!(big.saturating_mul_int(19), 3232682485748915402902);
    assert_eq!(Fixed::from_inner(1_999_999_999_999_999_999).saturating_mul_int(1), 1);
}

#[test]
fn safe_position_at_price_one() {
    let e = engine();
    assert_eq!(e.calculate_collateral_ratio(X, 100, 50, Fixed::one()), pct(200));
    assert!(!e.is_cdp_unsafe(X, 100, 50, Some(Fixed::one())));
}

#[test]
fn unsafe_after_price_drop_and_liquidated_with_penalty() {
    let e = engine();
    assert_eq!(e.calculate_collateral_ratio(X, 100, 50, pct(60)), pct(120));
    assert!(e.is_cdp_unsafe(X, 100, 50, Some(pct(60))));
    let mut env = Env::default();
    env.positions.insert((X, ALICE), Position { collateral: 100_000, debit: 50_000 });
    env.prices.insert((X, STABLE), pct(60));
    let l = e.liquidate(&mut env, X, ALICE).unwrap();
    assert_eq!(l.position, Position { collateral: 100_000, debit: 50_000 });
    assert_eq!(l.bad_debt_value, 50_000);
    assert_eq!(l.target_stable_amount, 52_500);
    assert_eq!(l.strategy, LiquidationStrategy::Auction);
    assert_eq!(env.calls[0], "confiscate 1 7 100000 50000");
    assert_eq!(env.calls[1], "auction 1 100000 52500 7 true");
    assert_eq!(l.event(), Event::LiquidateUnsafeCDP(X, ALICE, 100_000, 50_000, LiquidationStrategy::Auction));
}

#[test]
fn liquidation_through_exchange_refunds_rest() {
    let e = engine();
    let mut env = Env::default();
    env.positions.insert((X, ALICE), Position { collateral: 100_000, debit: 50_000 });
    env.prices.insert((X, STABLE), pct(60));
    env.supply_amount = 90_000;
    env.slippage = Some(pct(5));
    let l = e.liquidate(&mut env, X, ALICE).unwrap();
    assert_eq!(l.strategy, LiquidationStrategy::Exchange);
    assert_eq!(l.refund_collateral_amount, 10_000);
    assert_eq!(env.calls[1], "swap 1 90000 52500");
    assert_eq!(env.calls[2], "withdraw 7 1 10000");
}

#[test]
fn strategy_never_exchange_without_enough_collateral() {
    assert_eq!(choose_liquidation_strategy(100, 101, Some(pct(1)), pct(10)), LiquidationStrategy::Auction);
    assert_eq!(choose_liquidation_strategy(100, 0, Some(pct(1)), pct(10)), LiquidationStrategy::Auction);
    assert_eq!(choose_liquidation_strategy(100, 50, None, pct(10)), LiquidationStrategy::Auction);
    assert_eq!(choose_liquidation_strategy(100, 50, Some(pct(11)), pct(10)), LiquidationStrategy::Auction);
    assert_eq!(choose_liquidation_strategy(100, 100, Some(pct(10)), pct(10)), LiquidationStrategy::Exchange);
}

#[test]
fn liquidation_refused_for_safe_position_and_after_shutdown() {
    let e = engine();
    let mut env = Env::default();
    env.positions.insert((X, ALICE), Position { collateral: 100, debit: 50 });
    env.prices.insert((X, STABLE), Fixed::one());
    assert_eq!(e.liquidate(&mut env, X, ALICE), Err(Error::MustBeUnsafe));
    env.prices.clear();
    assert_eq!(e.liquidate(&mut env, X, ALICE), Err(Error::MustBeUnsafe));
    env.shutdown = true;
    assert_eq!(e.liquidate(&mut env, X, ALICE), Err(Error::AlreadyShutdown));
    assert!(env.calls.is_empty());
}

#[test]
fn settlement_capped_at_collateral() {
    let e = engine();
    let mut env = Env::default();
    env.shutdown = true;
    env.positions.insert((X, ALICE), Position { collateral: 10, debit: 5 });
    env.prices.insert((STABLE, X), pct(200));
    let s = e.settle(&mut env, X, ALICE).unwrap();
    assert_eq!(s.confiscate_amount, 10);
    assert_eq!(s.event(), Event::SettleCDPInDebit(X, ALICE));
    assert_eq!(env.calls[0], "confiscate 1 7 10 5");
    env.prices.insert((STABLE, X), pct(300));
    assert_eq!(e.settle(&mut env, X, ALICE).unwrap().confiscate_amount, 10);
    env.prices.insert((STABLE, X), pct(100));
    assert_eq!(e.settle(&mut env, X, ALICE).unwrap().confiscate_amount, 5);
}

#[test]
fn settlement_errors() {
    let e = engine();
    let mut env = Env::default();
    env.positions.insert((X, ALICE), Position { collateral: 10, debit: 5 });
    assert_eq!(e.settle(&mut env, X, ALICE), Err(Error::MustAfterShutdown));
    env.shutdown = true;
    assert_eq!(e.settle(&mut env, X, ALICE), Err(Error::InvalidFeedPrice));
    env.positions.insert((X, ALICE), Position { collateral: 10, debit: 0 });
    env.prices.insert((STABLE, X), pct(200));
    assert_eq!(e.settle(&mut env, X, ALICE), Err(Error::NoDebitValue));
    assert_eq!(e.settlement_amount(X, Position { collateral: 10, debit: 5 }, None), Err(Error::InvalidFeedPrice));
}

#[test]
fn zero_debit_value_gives_largest_ratio() {
    let e = engine();
    assert_eq!(e.calculate_collateral_ratio(X, 100, 0, Fixed::one()), Fixed::max_value());
    assert_eq!(e.calculate_collateral_ratio(X, 0, 0, Fixed::zero()), Fixed::max_value());
    assert!(!e.is_cdp_unsafe(X, 0, 0, Some(Fixed::one())));
}

#[test]
fn no_price_is_never_unsafe() {
    let e = engine();
    assert!(!e.is_cdp_unsafe(X, 0, 1_000_000, None));
    assert!(e.is_cdp_unsafe(X, 0, 1_000_000, Some(Fixed::one())));
}

#[test]
fn update_stability_fee_only() {
    let mut e = engine();
    let before_y = e.collateral_params(Y);
    let events = e
        .set_collateral_params(X, Change::NewValue(Some(pct(1))), Change::NoChange, Change::NoChange, Change::NoChange, Change::NoChange)
        .unwrap();
    assert_eq!(events, vec![Event::StabilityFeeUpdated(X, Some(pct(1)))]);
    let p = e.collateral_params(X);
    assert_eq!(p, RiskManagementParams { stability_fee: Some(pct(1)), ..RiskManagementParams::default() });
    assert_eq!(e.collateral_params(Y), before_y);
    assert_eq!(e.get_stability_fee(X), pct(1));
}

#[test]
fn update_all_params_and_invalid_type() {
    let mut e = engine();
    let events = e
        .set_collateral_params(
            Y,
            Change::NewValue(None),
            Change::NewValue(Some(pct(200))),
            Change::NewValue(Some(pct(20))),
            Change::NewValue(Some(pct(250))),
            Change::NewValue(10_000),
        )
        .unwrap();
    assert_eq!(events.len(), 5);
    assert_eq!(events[4], Event::MaximumTotalDebitValueUpdated(Y, 10_000));
    assert_eq!(e.get_liquidation_ratio(Y), pct(200));
    assert_eq!(e.get_liquidation_penalty(Y), pct(20));
    assert_eq!(e.required_collateral_ratio(Y), Some(pct(250)));
    assert_eq!(e.maximum_total_debit_value(Y), 10_000);
    assert_eq!(
        e.set_collateral_params(9, Change::NoChange, Change::NoChange, Change::NoChange, Change::NoChange, Change::NoChange),
        Err(Error::InvalidCollateralType)
    );
    assert_eq!(e.set_global_params(pct(2)), Event::GlobalStabilityFeeUpdated(pct(2)));
    assert_eq!(e.get_stability_fee(Y), pct(2));
}

#[test]
fn position_checks() {
    let mut e = engine();
    e.set_collateral_params(X, Change::NoChange, Change::NoChange, Change::NoChange, Change::NewValue(Some(pct(180))), Change::NewValue(100))
        .unwrap();
    assert_eq!(e.check_position_valid(X, 0, 0, None), Ok(()));
    assert_eq!(e.check_position_valid(X, 100, 50, None), Err(Error::InvalidFeedPrice));
    assert_eq!(e.check_position_valid(X, 100, 50, Some(Fixed::one())), Ok(()));
    assert_eq!(e.check_position_valid(X, 85, 50, Some(Fixed::one())), Err(Error::BelowRequiredCollateralRatio));
    e.set_collateral_params(X, Change::NoChange, Change::NoChange, Change::NoChange, Change::NewValue(None), Change::NoChange)
        .unwrap();
    assert_eq!(e.check_position_valid(X, 70, 50, Some(Fixed::one())), Err(Error::BelowLiquidationRatio));
    assert_eq!(e.check_position_valid(X, 100, 1, Some(Fixed::one())), Err(Error::RemainDebitValueTooSmall));
    assert_eq!(e.check_debit_cap(X, 100), Ok(()));
    assert_eq!(e.check_debit_cap(X, 101), Err(Error::ExceedDebitValueHardCap));
    assert_eq!(e.get_bad_debt_value(X, 40), 40);
}

#[test]
fn adjust_position_checks_collateral_type() {
    let e = engine();
    let mut env = Env::default();
    assert_eq!(e.adjust_position(&mut env, ALICE, 9, 1, 1), Err(Error::InvalidCollateralType));
    assert!(env.calls.is_empty());
    assert_eq!(e.adjust_position(&mut env, ALICE, X, 10, -3), Ok(()));
    assert_eq!(env.calls[0], "adjust 1 7 10 -3");
}

#[test]
fn accrual_raises_rate_only_with_surplus() {
    let mut e = engine();
    e.set_collateral_params(X, Change::NewValue(Some(pct(10))), Change::NoChange, Change::NoChange, Change::NoChange, Change::NoChange)
        .unwrap();
    let mut env = Env::default();
    env.totals.insert(X, 1_000);
    env.totals.insert(Y, 1_000);
    let mut treasury = Env::default();
    e.on_finalize(false, &env, &mut treasury);
    assert_eq!(e.get_debit_exchange_rate(X), pct(110));
    assert_eq!(e.debit_exchange_rate(Y), None);
    assert_eq!(treasury.surplus, vec![100]);
    assert_eq!(e.accrual_of(X, 1_000), Some((121, pct(121))));
    treasury.treasury_fails = true;
    e.on_finalize(false, &env, &mut treasury);
    assert_eq!(e.get_debit_exchange_rate(X), pct(110));
    treasury.treasury_fails = false;
    e.on_finalize(true, &env, &mut treasury);
    assert_eq!(e.get_debit_exchange_rate(X), pct(110));
    e.on_finalize(false, &env, &mut treasury);
    assert_eq!(e.get_debit_exchange_rate(X), pct(121));
    assert_eq!(e.get_debit_value(X, 100), 121);
}

#[test]
fn accrual_skips_zero_debit_and_zero_fee() {
    let mut e = engine();
    let env = Env::default();
    let mut treasury = Env::default();
    e.on_finalize(false, &env, &mut treasury);
    assert_eq!(e.debit_exchange_rate(X), None);
    assert_eq!(e.accrual_of(X, 0), None);
    assert!(treasury.surplus.is_empty());
}

#[test]
fn validator_rejects_stale_requests() {
    let e = engine();
    let unsafe_pos = Position { collateral: 100, debit: 50 };
    let v = e.validate_unsigned(ScanRequest::Liquidate(X, ALICE), unsafe_pos, Some(pct(60)), false, 12).unwrap();
    assert_eq!(v.provides, RequestTag { period: 12, currency_id: X, owner: ALICE });
    assert_eq!(v.priority, 1000);
    assert_eq!(v.longevity, REQUEST_LONGEVITY);
    assert!(v.propagate);
    assert_eq!(
        e.validate_unsigned(ScanRequest::Liquidate(X, ALICE), unsafe_pos, Some(Fixed::one()), false, 12),
        Err(InvalidTransaction::Stale)
    );
    assert_eq!(
        e.validate_unsigned(ScanRequest::Liquidate(X, ALICE), unsafe_pos, Some(pct(60)), true, 12),
        Err(InvalidTransaction::Stale)
    );
    assert!(e.validate_unsigned(ScanRequest::Settle(X, ALICE), unsafe_pos, None, true, 3).is_ok());
    assert_eq!(
        e.validate_unsigned(ScanRequest::Settle(X, ALICE), unsafe_pos, None, false, 3),
        Err(InvalidTransaction::Stale)
    );
    assert_eq!(
        e.validate_unsigned(ScanRequest::Settle(X, ALICE), Position { collateral: 1, debit: 0 }, None, true, 3),
        Err(InvalidTransaction::Stale)
    );
}

#[test]
fn zero_debit_position_is_never_liquidated() {
    let e = engine();
    let mut env = Env::default();
    env.positions.insert((X, ALICE), Position { collateral: 0, debit: 0 });
    env.prices.insert((X, STABLE), pct(1));
    assert_eq!(e.liquidate(&mut env, X, ALICE), Err(Error::MustBeUnsafe));
    assert!(env.calls.is_empty());
    assert_eq!(e.liquidation_plan(X, Position { collateral: 5, debit: 0 }, Some(pct(1))), Err(Error::MustBeUnsafe));
}

#[test]
fn liquidation_plan_gives_price_debt_and_target() {
    let e = engine();
    let pos = Position { collateral: 100_000, debit: 50_000 };
    assert_eq!(e.liquidation_plan(X, pos, Some(pct(60))), Ok((pct(60), 50_000, 52_500)));
    assert_eq!(e.liquidation_plan(X, pos, Some(Fixed::one())), Err(Error::MustBeUnsafe));
    assert_eq!(e.liquidation_plan(X, pos, None), Err(Error::MustBeUnsafe));
}

#[test]
fn collaborator_failure_is_passed_on() {
    let e = engine();
    let mut env = Env::default();
    env.positions.insert((X, ALICE), Position { collateral: 100_000, debit: 50_000 });
    env.prices.insert((X, STABLE), pct(60));
    env.supply_amount = 90_000;
    env.slippage = Some(pct(5));
    env.treasury_fails = true;
    assert_eq!(e.liquidate(&mut env, X, ALICE), Err(Error::Collaborator(CollaboratorError { code: 4 })));
}

#[test]
fn commit_accrual_only_on_accepted_surplus() {
    let mut e = engine();
    e.commit_accrual(0, Some((5, pct(105))), false);
    assert_eq!(e.debit_exchange_rate(X), None);
    e.commit_accrual(0, None, true);
    assert_eq!(e.debit_exchange_rate(X), None);
    e.commit_accrual(0, Some((5, pct(105))), true);
    assert_eq!(e.debit_exchange_rate(X), Some(pct(105)));
    assert_eq!(e.debit_exchange_rate(Y), None);
}
