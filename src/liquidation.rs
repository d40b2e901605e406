//! Liquidation of unsafe positions and settlement after shutdown.
use crate::engine::CdpEngine;
use crate::fixed::{mul_int_spec, saturate, Price, Ratio};
use crate::traits::{CdpTreasury, DexManager, EmergencyShutdown, LoansLedger, PriceProvider};
use crate::types::{AccountId, Balance, CurrencyId, Error, Event, LiquidationStrategy, Position};
use vstd::prelude::*;

verus! {

/// The exchange is chosen only for a nonzero supply amount that the
/// collateral covers, at a known slippage no larger than the limit.
pub open spec fn strategy_spec(
    collateral: Balance,
    supply_collateral_amount: Balance,
    slippage: Option<Ratio>,
    max_slippage: Ratio,
) -> LiquidationStrategy {
    if supply_collateral_amount != 0 && collateral >= supply_collateral_amount && (slippage matches Some(s)
        && s.inner <= max_slippage.inner) {
        LiquidationStrategy::Exchange
    } else {
        LiquidationStrategy::Auction
    }
}

/// Chooses how to dispose of `collateral` when `supply_collateral_amount`
/// of it would buy the target amount of stablecoin at `slippage`.
pub fn choose_liquidation_strategy(
    collateral: Balance,
    supply_collateral_amount: Balance,
    slippage: Option<Ratio>,
    max_slippage: Ratio,
) -> (r: LiquidationStrategy)
    ensures
        r == strategy_spec(collateral, supply_collateral_amount, slippage, max_slippage),
        r == LiquidationStrategy::Exchange ==> supply_collateral_amount != 0 && collateral >= supply_collateral_amount,
{
    let acceptable = match slippage {
        Some(s) => s.inner <= max_slippage.inner,
        None => false,
    };
    if supply_collateral_amount != 0 && collateral >= supply_collateral_amount && acceptable {
        LiquidationStrategy::Exchange
    } else {
        LiquidationStrategy::Auction
    }
}

/// What a liquidation did.
#[derive(Clone, Copy, Debug, PartialEq, Eq, Structural)]
pub struct Liquidation {
    pub currency_id: CurrencyId,
    pub owner: AccountId,
    /// The position as it was confiscated.
    pub position: Position,
    /// The price at which the position was found unsafe.
    pub feed_price: Price,
    /// Stablecoin value of the confiscated debit.
    pub bad_debt_value: Balance,
    /// Bad debt value plus the liquidation penalty.
    pub target_stable_amount: Balance,
    /// Collateral that the exchange asked for the target amount.
    pub supply_collateral_amount: Balance,
    /// The exchange's slippage for that amount, where it was asked.
    pub exchange_slippage: Option<Ratio>,
    pub strategy: LiquidationStrategy,
    /// Collateral returned to the owner after an exchange.
    pub refund_collateral_amount: Balance,
}

impl Liquidation {
    /// The notification for this liquidation.
    pub fn event(&self) -> (r: Event)
        ensures
            r == Event::LiquidateUnsafeCDP(
                self.currency_id,
                self.owner,
                self.position.collateral,
                self.bad_debt_value,
                self.strategy,
            ),
    {
        Event::LiquidateUnsafeCDP(
            self.currency_id,
            self.owner,
            self.position.collateral,
            self.bad_debt_value,
            self.strategy,
        )
    }
}

/// What a settlement did.
#[derive(Clone, Copy, Debug, PartialEq, Eq, Structural)]
pub struct Settlement {
    pub currency_id: CurrencyId,
    pub owner: AccountId,
    /// The position before settlement.
    pub position: Position,
    /// The price of stablecoin in the collateral.
    pub settle_price: Price,
    /// Collateral confiscated, with all of the debit.
    pub confiscate_amount: Balance,
}

impl Settlement {
    /// The notification for this settlement.
    pub fn event(&self) -> (r: Event)
        ensures
            r == Event::SettleCDPInDebit(self.currency_id, self.owner),
    {
        Event::SettleCDPInDebit(self.currency_id, self.owner)
    }
}

impl CdpEngine {
    /// Bad debt value plus the liquidation penalty on it.
    pub open spec fn target_of(&self, c: CurrencyId, bad_debt_value: Balance) -> Balance {
        saturate(mul_int_spec(self.liquidation_penalty_of(c).inner, bad_debt_value) + bad_debt_value)
    }

    /// What settlement confiscates from `position` at `settle_price`.
    pub open spec fn settlement_spec(&self, c: CurrencyId, position: Position, settle_price: Option<Price>) -> Result<Balance, Error> {
        if position.debit == 0 {
            Err(Error::NoDebitValue)
        } else {
            match settle_price {
                None => Err(Error::InvalidFeedPrice),
                Some(p) => {
                    let v = mul_int_spec(p.inner, self.debit_value_of(c, position.debit));
                    Ok(if v < position.collateral { v } else { position.collateral })
                },
            }
        }
    }

    /// The stablecoin that liquidating `debit` units of debit must raise:
    /// their value, and that value plus the penalty.
    pub fn liquidation_target(&self, c: CurrencyId, debit: Balance) -> (r: (Balance, Balance))
        requires
            self.wf(),
        ensures
            r.0 == self.debit_value_of(c, debit),
            r.1 == self.target_of(c, r.0),
    {
        let bad_debt_value = self.get_debit_value(c, debit);
        let target_stable_amount = self.get_liquidation_penalty(c).saturating_mul_acc_int(bad_debt_value);
        (bad_debt_value, target_stable_amount)
    }

    /// Collateral to confiscate when settling `position` at `settle_price`
    /// (the price of stablecoin in the collateral): `price * debit value`,
    /// capped at the collateral held.
    pub fn settlement_amount(&self, c: CurrencyId, position: Position, settle_price: Option<Price>) -> (r: Result<
        Balance,
        Error,
    >)
        requires
            self.wf(),
        ensures
            r == self.settlement_spec(c, position, settle_price),
            r matches Ok(a) ==> a <= position.collateral,
    {
        if position.debit == 0 {
            return Err(Error::NoDebitValue);
        }
        let p = match settle_price {
            Some(p) => p,
            None => return Err(Error::InvalidFeedPrice),
        };
        let bad_debt_value = self.get_debit_value(c, position.debit);
        let v = p.saturating_mul_int(bad_debt_value);
        Ok(if v < position.collateral { v } else { position.collateral })
    }

    /// What a successful settlement of `who`'s position under `c` records:
    /// a position with debit, confiscated at `settlement_spec`.
    pub open spec fn settlement_done(&self, c: CurrencyId, who: AccountId, s: Settlement) -> bool {
        &&& s.currency_id == c
        &&& s.owner == who
        &&& s.position.debit != 0
        &&& self.settlement_spec(c, s.position, Some(s.settle_price)) == Ok::<Balance, Error>(s.confiscate_amount)
        &&& s.confiscate_amount <= s.position.collateral
    }

    /// What a successful liquidation of `who`'s position under `c` records:
    /// the position was unsafe at the price read, the bad debt and target
    /// follow from its debit, and the strategy and refund from the
    /// exchange's answers.
    pub open spec fn liquidation_done(&self, c: CurrencyId, who: AccountId, l: Liquidation) -> bool {
        &&& l.currency_id == c
        &&& l.owner == who
        &&& self.unsafe_at(c, l.position.collateral, l.position.debit, Some(l.feed_price))
        &&& self.debit_value_of(c, l.position.debit) != 0
        &&& l.bad_debt_value == self.debit_value_of(c, l.position.debit)
        &&& l.target_stable_amount == self.target_of(c, l.bad_debt_value)
        &&& l.strategy == strategy_spec(
            l.position.collateral,
            l.supply_collateral_amount,
            l.exchange_slippage,
            self.config.max_slippage_swap_with_dex,
        )
        &&& l.strategy == LiquidationStrategy::Exchange ==> l.supply_collateral_amount != 0
            && l.position.collateral >= l.supply_collateral_amount
            && l.refund_collateral_amount == l.position.collateral - l.supply_collateral_amount
        &&& l.strategy == LiquidationStrategy::Auction ==> l.refund_collateral_amount == 0
    }

    /// The decision to liquidate `position` at the oracle's price
    /// `feed_price`: refused with `MustBeUnsafe` unless it is unsafe there
    /// (so always when its debit value is zero); else the price, the bad
    /// debt value and the target stablecoin amount.
    pub fn liquidation_plan(&self, c: CurrencyId, position: Position, feed_price: Option<Price>) -> (r: Result<
        (Price, Balance, Balance),
        Error,
    >)
        requires
            self.wf(),
        ensures
            r is Err <==> !self.unsafe_at(c, position.collateral, position.debit, feed_price),
            r matches Err(e) ==> e == Error::MustBeUnsafe,
            r matches Ok(v) ==> feed_price == Some(v.0) && v.1 == self.debit_value_of(c, position.debit) && v.2
                == self.target_of(c, v.1),
            self.debit_value_of(c, position.debit) == 0 ==> r is Err,
    {
        if !self.is_cdp_unsafe(c, position.collateral, position.debit, feed_price) {
            return Err(Error::MustBeUnsafe);
        }
        let p = match feed_price {
            Some(p) => p,
            None => return Err(Error::MustBeUnsafe),
        };
        let (bad_debt_value, target_stable_amount) = self.liquidation_target(c, position.debit);
        Ok((p, bad_debt_value, target_stable_amount))
    }

    /// Settles a position with debit after shutdown: confiscates its debit
    /// and the collateral that covers it, never more than it holds. A
    /// refusal of the engine's own leaves `env` untouched; the caller runs
    /// it in a transaction that is rolled back on a collaborator's error.
    pub fn settle_cdp_has_debit<E: LoansLedger + PriceProvider>(&self, env: &mut E, who: AccountId, c: CurrencyId) -> (r: Result<
        Settlement,
        Error,
    >)
        requires
            self.wf(),
        ensures
            r matches Ok(s) ==> self.settlement_done(c, who, s),
            match r {
                Err(Error::Collaborator(_)) => true,
                Err(_) => *final(env) == *old(env),
                Ok(_) => true,
            },
    {
        let position = env.positions(c, who);
        if position.debit == 0 {
            return Err(Error::NoDebitValue);
        }
        let settle_price = env.get_relative_price(self.config.stable_currency_id, c);
        let confiscate_amount = match self.settlement_amount(c, position, settle_price) {
            Ok(a) => a,
            Err(e) => return Err(e),
        };
        let p = match settle_price {
            Some(p) => p,
            None => return Err(Error::InvalidFeedPrice),
        };
        match env.confiscate_collateral_and_debit(who, c, confiscate_amount, position.debit) {
            Ok(()) => {},
            Err(e) => return Err(Error::Collaborator(e)),
        }
        Ok(Settlement { currency_id: c, owner: who, position, settle_price: p, confiscate_amount })
    }

    /// Liquidates an unsafe position: confiscates all of it, then swaps
    /// collateral for the target stablecoin on the exchange and refunds the
    /// rest, or hands all collateral to auctions. Refused with
    /// `MustBeUnsafe`, before anything changes, when the position is not
    /// unsafe at the oracle's price. The caller runs it in a transaction
    /// that is rolled back on a collaborator's error, so that a failed
    /// disposal leaves no confiscation behind.
    pub fn liquidate_unsafe_cdp<E: LoansLedger + PriceProvider + DexManager + CdpTreasury>(
        &self,
        env: &mut E,
        who: AccountId,
        c: CurrencyId,
    ) -> (r: Result<Liquidation, Error>)
        requires
            self.wf(),
        ensures
            r matches Ok(l) ==> self.liquidation_done(c, who, l),
            r matches Err(e) ==> e == Error::MustBeUnsafe || e is Collaborator,
            r == Err::<Liquidation, Error>(Error::MustBeUnsafe) ==> *final(env) == *old(env),
    {
        let position = env.positions(c, who);
        let stable = self.config.stable_currency_id;
        let feed_price = env.get_relative_price(c, stable);
        let (p, bad_debt_value, target_stable_amount) = match self.liquidation_plan(c, position, feed_price) {
            Ok(v) => v,
            Err(e) => return Err(e),
        };
        match env.confiscate_collateral_and_debit(who, c, position.collateral, position.debit) {
            Ok(()) => {},
            Err(e) => return Err(Error::Collaborator(e)),
        }
        let supply_collateral_amount = env.get_supply_amount(c, stable, target_stable_amount);
        let exchange_slippage = if supply_collateral_amount != 0 && position.collateral >= supply_collateral_amount {
            env.get_exchange_slippage(c, stable, supply_collateral_amount)
        } else {
            None
        };
        let strategy = choose_liquidation_strategy(
            position.collateral,
            supply_collateral_amount,
            exchange_slippage,
            self.config.max_slippage_swap_with_dex,
        );
        let mut refund_collateral_amount: Balance = 0;
        match strategy {
            LiquidationStrategy::Exchange => {
                match env.swap_collateral_to_stable(c, supply_collateral_amount, target_stable_amount) {
                    Ok(()) => {},
                    Err(e) => return Err(Error::Collaborator(e)),
                }
                refund_collateral_amount = position.collateral - supply_collateral_amount;
                match env.withdraw_collateral(who, c, refund_collateral_amount) {
                    Ok(()) => {},
                    Err(e) => return Err(Error::Collaborator(e)),
                }
            },
            LiquidationStrategy::Auction => {
                match env.create_collateral_auctions(c, position.collateral, target_stable_amount, who, true) {
                    Ok(()) => {},
                    Err(e) => return Err(Error::Collaborator(e)),
                }
            },
        }
        Ok(Liquidation {
            currency_id: c,
            owner: who,
            position,
            feed_price: p,
            bad_debt_value,
            target_stable_amount,
            supply_collateral_amount,
            exchange_slippage,
            strategy,
            refund_collateral_amount,
        })
    }

    /// Liquidates an unsafe position; refused once the system is shut down.
    /// Refusals of the engine's own leave `env` untouched.
    pub fn liquidate<E: LoansLedger + PriceProvider + DexManager + CdpTreasury + EmergencyShutdown>(
        &self,
        env: &mut E,
        c: CurrencyId,
        who: AccountId,
    ) -> (r: Result<Liquidation, Error>)
        requires
            self.wf(),
        ensures
            r matches Ok(l) ==> self.liquidation_done(c, who, l),
            r matches Err(e) ==> e == Error::AlreadyShutdown || e == Error::MustBeUnsafe || e is Collaborator,
            match r {
                Err(Error::Collaborator(_)) => true,
                Err(_) => *final(env) == *old(env),
                Ok(_) => true,
            },
    {
        if env.is_shutdown() {
            return Err(Error::AlreadyShutdown);
        }
        self.liquidate_unsafe_cdp(env, who, c)
    }

    /// Settles a position with debit; allowed only after shutdown.
    /// Refusals of the engine's own leave `env` untouched.
    pub fn settle<E: LoansLedger + PriceProvider + EmergencyShutdown>(&self, env: &mut E, c: CurrencyId, who: AccountId) -> (r: Result<
        Settlement,
        Error,
    >)
        requires
            self.wf(),
        ensures
            r matches Ok(s) ==> self.settlement_done(c, who, s),
            match r {
                Err(Error::Collaborator(_)) => true,
                Err(_) => *final(env) == *old(env),
                Ok(_) => true,
            },
    {
        if !env.is_shutdown() {
            return Err(Error::MustAfterShutdown);
        }
        self.settle_cdp_has_debit(env, who, c)
    }
}

} // verus!
