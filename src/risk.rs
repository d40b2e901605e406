//! Position checks for the ledger and administrative parameter updates.
use crate::accrual::rate_step;
use crate::engine::{find_collateral, CdpEngine};
use crate::fixed::{Price, Rate, Ratio};
use crate::traits::{Amount, LoansLedger};
use crate::types::{AccountId, Balance, Change, CurrencyId, Error, Event, RiskManagementParams};
use vstd::prelude::*;

verus! {

/// The value after an update.
pub open spec fn changed<V>(v: V, ch: Change<V>) -> V {
    match ch {
        Change::NewValue(n) => n,
        Change::NoChange => v,
    }
}

/// The notification for an update, if it gives a new value.
pub open spec fn change_event<V>(ch: Change<V>, ev: spec_fn(V) -> Event) -> Seq<Event> {
    match ch {
        Change::NewValue(n) => seq![ev(n)],
        Change::NoChange => seq![],
    }
}

impl CdpEngine {
    /// What `check_position_valid` decides.
    pub open spec fn position_check(
        &self,
        c: CurrencyId,
        collateral: Balance,
        debit: Balance,
        feed_price: Option<Price>,
    ) -> Result<(), Error> {
        if debit == 0 {
            Ok(())
        } else {
            match feed_price {
                None => Err(Error::InvalidFeedPrice),
                Some(p) => {
                    let ratio = self.collateral_ratio_of(c, collateral, debit, p);
                    if self.params_of(c).required_collateral_ratio matches Some(req) && ratio.inner < req.inner {
                        Err(Error::BelowRequiredCollateralRatio)
                    } else if ratio.inner < self.liquidation_ratio_of(c).inner {
                        Err(Error::BelowLiquidationRatio)
                    } else if self.debit_value_of(c, debit) < self.config.minimum_debit_value {
                        Err(Error::RemainDebitValueTooSmall)
                    } else {
                        Ok(())
                    }
                },
            }
        }
    }

    /// Whether a position may be left as it is after an adjustment, at the
    /// oracle's price `feed_price` of `c` in stablecoin. A position without
    /// debit is always valid; one with debit needs a price, a collateral
    /// ratio at or above the required and the liquidation ratio, and a debit
    /// value at or above the dust amount.
    pub fn check_position_valid(
        &self,
        c: CurrencyId,
        collateral_balance: Balance,
        debit_balance: Balance,
        feed_price: Option<Price>,
    ) -> (r: Result<(), Error>)
        requires
            self.wf(),
        ensures
            r == self.position_check(c, collateral_balance, debit_balance, feed_price),
    {
        if debit_balance != 0 {
            let debit_value = self.get_debit_value(c, debit_balance);
            let p = match feed_price {
                Some(p) => p,
                None => return Err(Error::InvalidFeedPrice),
            };
            let collateral_ratio = self.calculate_collateral_ratio(c, collateral_balance, debit_balance, p);
            if let Some(required) = self.required_collateral_ratio(c) {
                if collateral_ratio.inner < required.inner {
                    return Err(Error::BelowRequiredCollateralRatio);
                }
            }
            if collateral_ratio.inner < self.get_liquidation_ratio(c).inner {
                return Err(Error::BelowLiquidationRatio);
            }
            if debit_value < self.config.minimum_debit_value {
                return Err(Error::RemainDebitValueTooSmall);
            }
        }
        Ok(())
    }

    /// Refuses a total debit whose value exceeds the collateral type's cap.
    pub fn check_debit_cap(&self, c: CurrencyId, total_debit_balance: Balance) -> (r: Result<(), Error>)
        requires
            self.wf(),
        ensures
            r is Ok <==> self.debit_value_of(c, total_debit_balance) <= self.params_of(c).maximum_total_debit_value,
            r matches Err(e) ==> e == Error::ExceedDebitValueHardCap,
    {
        let hard_cap = self.maximum_total_debit_value(c);
        let total_debit_value = self.get_debit_value(c, total_debit_balance);
        if total_debit_value <= hard_cap {
            Ok(())
        } else {
            Err(Error::ExceedDebitValueHardCap)
        }
    }

    /// Adjusts a position through the ledger, for a configured collateral
    /// type only.
    pub fn adjust_position<L: LoansLedger>(
        &self,
        loans: &mut L,
        who: AccountId,
        c: CurrencyId,
        collateral_adjustment: Amount,
        debit_adjustment: Amount,
    ) -> (r: Result<(), Error>)
        requires
            self.wf(),
        ensures
            !self.is_collateral(c) ==> r == Err::<(), Error>(Error::InvalidCollateralType),
            !self.is_collateral(c) ==> *final(loans) == *old(loans),
    {
        if find_collateral(&self.config.collateral_currency_ids, c).is_none() {
            return Err(Error::InvalidCollateralType);
        }
        match loans.adjust_position(who, c, collateral_adjustment, debit_adjustment) {
            Ok(()) => Ok(()),
            Err(e) => Err(Error::Collaborator(e)),
        }
    }

    /// Replaces the global stability fee.
    pub fn set_global_params(&mut self, global_stability_fee: Rate) -> (r: Event)
        ensures
            final(self).global_stability_fee == global_stability_fee,
            final(self).config == old(self).config,
            final(self).collateral_params == old(self).collateral_params,
            final(self).debit_exchange_rates == old(self).debit_exchange_rates,
            rate_step(*old(self), *final(self)),
            r == Event::GlobalStabilityFeeUpdated(global_stability_fee),
    {
        self.global_stability_fee = global_stability_fee;
        Event::GlobalStabilityFeeUpdated(global_stability_fee)
    }

    /// Updates the risk parameters of collateral type `c`, each field
    /// independently, and returns one notification per field given a new
    /// value. A currency that is not a collateral type is refused and
    /// nothing changes.
    pub fn set_collateral_params(
        &mut self,
        c: CurrencyId,
        stability_fee: Change<Option<Rate>>,
        liquidation_ratio: Change<Option<Ratio>>,
        liquidation_penalty: Change<Option<Rate>>,
        required_collateral_ratio: Change<Option<Ratio>>,
        maximum_total_debit_value: Change<Balance>,
    ) -> (r: Result<Vec<Event>, Error>)
        requires
            old(self).wf(),
        ensures
            final(self).wf(),
            final(self).config == old(self).config,
            final(self).global_stability_fee == old(self).global_stability_fee,
            final(self).debit_exchange_rates == old(self).debit_exchange_rates,
            rate_step(*old(self), *final(self)),
            !old(self).is_collateral(c) ==> r == Err::<Vec<Event>, Error>(Error::InvalidCollateralType),
            !old(self).is_collateral(c) ==> *final(self) == *old(self),
            old(self).is_collateral(c) ==> r is Ok,
            old(self).is_collateral(c) ==> final(self).params_of(c) == (RiskManagementParams {
                maximum_total_debit_value: changed(
                    old(self).params_of(c).maximum_total_debit_value,
                    maximum_total_debit_value,
                ),
                stability_fee: changed(old(self).params_of(c).stability_fee, stability_fee),
                liquidation_ratio: changed(old(self).params_of(c).liquidation_ratio, liquidation_ratio),
                liquidation_penalty: changed(old(self).params_of(c).liquidation_penalty, liquidation_penalty),
                required_collateral_ratio: changed(
                    old(self).params_of(c).required_collateral_ratio,
                    required_collateral_ratio,
                ),
            }),
            forall|d: CurrencyId| d != c ==> #[trigger] final(self).params_of(d) == old(self).params_of(d),
            r matches Ok(events) ==> events@ == change_event(stability_fee, |v| Event::StabilityFeeUpdated(c, v))
                + change_event(liquidation_ratio, |v| Event::LiquidationRatioUpdated(c, v))
                + change_event(liquidation_penalty, |v| Event::LiquidationPenaltyUpdated(c, v))
                + change_event(required_collateral_ratio, |v| Event::RequiredCollateralRatioUpdated(c, v))
                + change_event(maximum_total_debit_value, |v| Event::MaximumTotalDebitValueUpdated(c, v)),
    {
        let i = match find_collateral(&self.config.collateral_currency_ids, c) {
            Some(i) => i,
            None => return Err(Error::InvalidCollateralType),
        };
        let mut params = self.collateral_params[i];
        let mut events: Vec<Event> = Vec::new();
        if let Change::NewValue(update) = stability_fee {
            params.stability_fee = update;
            events.push(Event::StabilityFeeUpdated(c, update));
        }
        assert(events@ =~= change_event(stability_fee, |v| Event::StabilityFeeUpdated(c, v)));
        let ghost e1 = events@;
        if let Change::NewValue(update) = liquidation_ratio {
            params.liquidation_ratio = update;
            events.push(Event::LiquidationRatioUpdated(c, update));
        }
        assert(events@ =~= e1 + change_event(liquidation_ratio, |v| Event::LiquidationRatioUpdated(c, v)));
        let ghost e2 = events@;
        if let Change::NewValue(update) = liquidation_penalty {
            params.liquidation_penalty = update;
            events.push(Event::LiquidationPenaltyUpdated(c, update));
        }
        assert(events@ =~= e2 + change_event(liquidation_penalty, |v| Event::LiquidationPenaltyUpdated(c, v)));
        let ghost e3 = events@;
        if let Change::NewValue(update) = required_collateral_ratio {
            params.required_collateral_ratio = update;
            events.push(Event::RequiredCollateralRatioUpdated(c, update));
        }
        assert(events@ =~= e3 + change_event(required_collateral_ratio, |v| Event::RequiredCollateralRatioUpdated(c, v)));
        let ghost e4 = events@;
        if let Change::NewValue(val) = maximum_total_debit_value {
            params.maximum_total_debit_value = val;
            events.push(Event::MaximumTotalDebitValueUpdated(c, val));
        }
        assert(events@ =~= e4 + change_event(maximum_total_debit_value, |v| Event::MaximumTotalDebitValueUpdated(c, v)));
        self.collateral_params.set(i, params);
        proof {
            assert forall|d: CurrencyId| d != c implies #[trigger] self.params_of(d) == old(self).params_of(d) by {
                let k = self.index_of(d);
                if 0 <= k {
                    assert(self.config.collateral_currency_ids@[k] == d);
                }
            }
        }
        Ok(events)
    }
}

} // verus!
