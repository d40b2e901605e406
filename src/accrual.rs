//! Per-period accrual of the stability fee into the debit exchange rates.
use crate::engine::{lemma_first_index_of_unique, CdpEngine};
use crate::fixed::{mul_int_spec, saturate, ExchangeRate, Fixed, Rate};
use crate::traits::{CdpTreasury, LoansLedger};
use crate::types::{Balance, CurrencyId};
use vstd::prelude::*;

verus! {

/// `rate + rate * fee`, saturating.
pub open spec fn accrued_rate(rate: ExchangeRate, fee: Rate) -> ExchangeRate {
    Fixed { inner: saturate(rate.inner + mul_int_spec(rate.inner, fee.inner)) }
}

/// What one period's accrual may leave behind: configuration, parameters
/// and global fee as they were, and each stored rate either unchanged or
/// accrued once at its collateral type's nonzero fee.
pub open spec fn accrual_outcome(before: CdpEngine, after: CdpEngine) -> bool {
    &&& after.wf()
    &&& after.config == before.config
    &&& after.global_stability_fee == before.global_stability_fee
    &&& after.collateral_params == before.collateral_params
    &&& forall|c: CurrencyId|
        #[trigger] after.stored_rate_of(c) == before.stored_rate_of(c) || (before.stability_fee_of(c).inner != 0
            && after.stored_rate_of(c) == Some(accrued_rate(before.exchange_rate_of(c), before.stability_fee_of(c))))
}

/// One step in the engine's life as far as debit exchange rates go: a
/// period's accrual, or an operation that leaves the configuration and the
/// rates as they were (a parameter update; liquidation and settlement do not
/// change the engine at all).
pub open spec fn rate_step(before: CdpEngine, after: CdpEngine) -> bool {
    accrual_outcome(before, after) || (after.config == before.config && after.debit_exchange_rates
        == before.debit_exchange_rates)
}

/// One step never lowers the debit exchange rate of any currency.
pub proof fn lemma_rate_step_monotone(before: CdpEngine, after: CdpEngine, c: CurrencyId)
    requires
        rate_step(before, after),
    ensures
        before.exchange_rate_of(c).inner <= after.exchange_rate_of(c).inner,
{
    if accrual_outcome(before, after) {
        assert(after.stored_rate_of(c) == before.stored_rate_of(c) || (before.stability_fee_of(c).inner != 0
            && after.stored_rate_of(c) == Some(accrued_rate(before.exchange_rate_of(c), before.stability_fee_of(c)))));
    }
}

/// The debit exchange rate of every currency is non-decreasing over any
/// sequence of accrual periods, parameter updates, liquidations and
/// settlements: from an earlier state to a later one it never goes down.
pub proof fn lemma_exchange_rate_never_decreases(states: Seq<CdpEngine>, c: CurrencyId, i: int, j: int)
    requires
        forall|k: int| 0 <= k < states.len() - 1 ==> rate_step(#[trigger] states[k], states[k + 1]),
        0 <= i <= j < states.len(),
    ensures
        states[i].exchange_rate_of(c).inner <= states[j].exchange_rate_of(c).inner,
    decreases j - i,
{
    if i < j {
        lemma_exchange_rate_never_decreases(states, c, i, j - 1);
        lemma_rate_step_monotone(states[j - 1], states[j], c);
    }
}

impl CdpEngine {
    /// The surplus to issue and the rate to commit for one period, or
    /// `None` when the fee or the total debit is zero.
    pub open spec fn accrual_spec(&self, c: CurrencyId, total_debits: Balance) -> Option<(Balance, ExchangeRate)> {
        let fee = self.stability_fee_of(c);
        if fee.inner == 0 || total_debits == 0 {
            None
        } else {
            let rate = self.exchange_rate_of(c);
            let increment = mul_int_spec(rate.inner, fee.inner);
            Some((mul_int_spec(increment, self.debit_value_of(c, total_debits)), accrued_rate(rate, fee)))
        }
    }

    /// One period's accrual for `c` with `total_debits` of debit outstanding:
    /// the increment is `rate * fee`, the surplus is the increment times the
    /// total debit value, and the new rate is `rate + increment`.
    pub fn accrual_of(&self, c: CurrencyId, total_debits: Balance) -> (r: Option<(Balance, ExchangeRate)>)
        requires
            self.wf(),
        ensures
            r == self.accrual_spec(c, total_debits),
    {
        let debit_exchange_rate = self.get_debit_exchange_rate(c);
        let stability_fee_rate = self.get_stability_fee(c);
        if stability_fee_rate.is_zero() || total_debits == 0 {
            return None;
        }
        let increment = debit_exchange_rate.saturating_mul(stability_fee_rate);
        let total_debit_value = self.get_debit_value(c, total_debits);
        let issued = increment.saturating_mul_int(total_debit_value);
        Some((issued, debit_exchange_rate.saturating_add(increment)))
    }

    /// Commits one collateral type's accrual: the rate at table index `i`
    /// becomes the accrued one when there is an accrual and the treasury
    /// accepted its surplus, and stays as it is otherwise.
    pub fn commit_accrual(&mut self, i: usize, accrual: Option<(Balance, ExchangeRate)>, surplus_accepted: bool)
        requires
            old(self).wf(),
            i < old(self).debit_exchange_rates@.len(),
        ensures
            final(self).wf(),
            final(self).config == old(self).config,
            final(self).global_stability_fee == old(self).global_stability_fee,
            final(self).collateral_params == old(self).collateral_params,
            final(self).debit_exchange_rates@ == (if surplus_accepted && accrual is Some {
                old(self).debit_exchange_rates@.update(i as int, Some(accrual->Some_0.1))
            } else {
                old(self).debit_exchange_rates@
            }),
    {
        if surplus_accepted {
            if let Some((_, new_rate)) = accrual {
                self.debit_exchange_rates.set(i, Some(new_rate));
            }
        }
    }

    /// Accrues one period of stability fee for every collateral type, unless
    /// the system is shut down. A rate moves only after the treasury accepted
    /// the matching surplus, and never goes down.
    pub fn on_finalize<L: LoansLedger, T: CdpTreasury>(&mut self, is_shutdown: bool, loans: &L, treasury: &mut T)
        requires
            old(self).wf(),
        ensures
            accrual_outcome(*old(self), *final(self)),
            rate_step(*old(self), *final(self)),
            is_shutdown ==> final(self).debit_exchange_rates == old(self).debit_exchange_rates,
            forall|c: CurrencyId| #[trigger] final(self).exchange_rate_of(c).inner >= old(self).exchange_rate_of(c).inner,
    {
        if is_shutdown {
            return;
        }
        let n = self.config.collateral_currency_ids.len();
        let ghost ids = self.config.collateral_currency_ids@;
        let mut i: usize = 0;
        while i < n
            invariant
                self.wf(),
                n == ids.len(),
                i <= n,
                ids == self.config.collateral_currency_ids@,
                self.config == old(self).config,
                self.global_stability_fee == old(self).global_stability_fee,
                self.collateral_params == old(self).collateral_params,
                forall|j: int| i <= j < n ==> self.debit_exchange_rates@[j] == old(self).debit_exchange_rates@[j],
                forall|j: int|
                    0 <= j < i ==> #[trigger] self.debit_exchange_rates@[j] == old(self).debit_exchange_rates@[j] || (
                    old(self).stability_fee_of(ids[j]).inner != 0 && self.debit_exchange_rates@[j] == Some(
                        accrued_rate(old(self).exchange_rate_of(ids[j]), old(self).stability_fee_of(ids[j])),
                    )),
            decreases n - i,
        {
            let c = self.config.collateral_currency_ids[i];
            proof {
                lemma_first_index_of_unique(ids, i as int);
            }
            let total_debits = loans.total_debits(c);
            let accrual = self.accrual_of(c, total_debits);
            let surplus_accepted = match accrual {
                Some((issued, _)) => treasury.on_system_surplus(issued).is_ok(),
                None => false,
            };
            self.commit_accrual(i, accrual, surplus_accepted);
            i = i + 1;
        }
        proof {
            assert forall|c: CurrencyId|
                #[trigger] self.stored_rate_of(c) == old(self).stored_rate_of(c) || (old(self).stability_fee_of(c).inner != 0
                    && self.stored_rate_of(c) == Some(accrued_rate(old(self).exchange_rate_of(c), old(self).stability_fee_of(c)))) by {
                let k = self.index_of(c);
                if 0 <= k {
                    assert(ids[k] == c);
                    assert(self.debit_exchange_rates@[k] == old(self).debit_exchange_rates@[k] || (
                        old(self).stability_fee_of(ids[k]).inner != 0 && self.debit_exchange_rates@[k] == Some(
                        accrued_rate(old(self).exchange_rate_of(ids[k]), old(self).stability_fee_of(ids[k])))));
                }
            }
            assert forall|c: CurrencyId| #[trigger] self.exchange_rate_of(c).inner >= old(self).exchange_rate_of(c).inner by {
                assert(self.stored_rate_of(c) == old(self).stored_rate_of(c) || (old(self).stability_fee_of(c).inner != 0
                    && self.stored_rate_of(c) == Some(accrued_rate(old(self).exchange_rate_of(c), old(self).stability_fee_of(c)))));
            }
        }
    }
}

} // verus!
