//! The engine's state: risk parameters, the global fee and the debit
//! exchange rates, with the arithmetic that reads them.
use crate::fixed::{mul_div, mul_int_spec, saturate, ExchangeRate, Fixed, Price, Rate, Ratio, ACCURACY};
use crate::types::{Balance, CurrencyId, RiskManagementParams};
use vstd::prelude::*;

verus! {

/// Protocol-wide settings, fixed when the engine is configured.
#[derive(Clone, Debug)]
pub struct EngineConfig {
    /// The configured collateral types, in rotation order.
    pub collateral_currency_ids: Vec<CurrencyId>,
    /// Liquidation ratio of a collateral type that sets none.
    pub default_liquidation_ratio: Ratio,
    /// Debit exchange rate of a collateral type before any accrual.
    pub default_debit_exchange_rate: ExchangeRate,
    /// Liquidation penalty of a collateral type that sets none.
    pub default_liquidation_penalty: Rate,
    /// Smallest debit value that a position with debit may keep.
    pub minimum_debit_value: Balance,
    /// The stablecoin.
    pub stable_currency_id: CurrencyId,
    /// Largest slippage accepted when liquidating through the exchange.
    pub max_slippage_swap_with_dex: Ratio,
    /// Base priority of liquidation and settlement requests.
    pub unsigned_priority: u64,
}

/// Index of the first occurrence of `c` in `ids`, or -1.
pub open spec fn first_index(ids: Seq<CurrencyId>, c: CurrencyId) -> int {
    if exists|i: int| 0 <= i < ids.len() && ids[i] == c && forall|j: int| 0 <= j < i ==> ids[j] != c {
        choose|i: int| 0 <= i < ids.len() && ids[i] == c && forall|j: int| 0 <= j < i ==> ids[j] != c
    } else {
        -1
    }
}

/// `price * collateral` against `debit_value`: the largest ratio when the
/// debit value is zero or the quotient does not fit.
pub open spec fn ratio_spec(locked_collateral_value: u128, debit_value: u128) -> Ratio {
    let q = mul_div(locked_collateral_value as int, ACCURACY as int, debit_value as int);
    if debit_value == 0 || q > u128::MAX {
        Fixed { inner: u128::MAX }
    } else {
        Fixed { inner: q as u128 }
    }
}

/// Finds the first index of `c` in `ids`.
pub fn find_collateral(ids: &Vec<CurrencyId>, c: CurrencyId) -> (r: Option<usize>)
    ensures
        r matches Some(i) ==> i == first_index(ids@, c),
        r is None ==> first_index(ids@, c) == -1,
        r is None <==> !ids@.contains(c),
{
    let mut i: usize = 0;
    while i < ids.len()
        invariant
            i <= ids.len(),
            forall|j: int| 0 <= j < i ==> ids@[j] != c,
        decreases ids.len() - i,
    {
        if ids[i] == c {
            let ghost w = first_index(ids@, c);
            assert(0 <= i < ids@.len() && ids@[i as int] == c && forall|j: int| 0 <= j < i ==> ids@[j] != c);
            assert(w == i) by {
                let k = choose|k: int| 0 <= k < ids@.len() && ids@[k] == c && forall|j: int| 0 <= j < k ==> ids@[j] != c;
                assert(!(k < i));
                assert(!(i < k));
            }
            return Some(i);
        }
        i = i + 1;
    }
    assert(!ids@.contains(c));
    None
}

/// In a list without duplicates, the first index of an element is its index.
pub proof fn lemma_first_index_of_unique(ids: Seq<CurrencyId>, i: int)
    requires
        ids.no_duplicates(),
        0 <= i < ids.len(),
    ensures
        first_index(ids, ids[i]) == i,
{
    let c = ids[i];
    assert(0 <= i < ids.len() && ids[i] == c && forall|j: int| 0 <= j < i ==> ids[j] != c);
    let k = choose|k: int| 0 <= k < ids.len() && ids[k] == c && forall|j: int| 0 <= j < k ==> ids[j] != c;
    assert(!(k < i));
    assert(!(i < k));
}

/// The engine's persisted state.
#[derive(Clone, Debug)]
pub struct CdpEngine {
    pub config: EngineConfig,
    /// Fee rate added to every collateral type's own fee.
    pub global_stability_fee: Rate,
    /// Risk parameters, one per configured collateral type, in the same order.
    pub collateral_params: Vec<RiskManagementParams>,
    /// Debit exchange rates, one per configured collateral type, in the
    /// same order; `None` until the first accrual.
    pub debit_exchange_rates: Vec<Option<ExchangeRate>>,
}

impl CdpEngine {
    /// Both tables hold one entry per configured collateral type.
    pub open spec fn wf(&self) -> bool {
        &&& self.collateral_params@.len() == self.config.collateral_currency_ids@.len()
        &&& self.debit_exchange_rates@.len() == self.config.collateral_currency_ids@.len()
        &&& self.config.collateral_currency_ids@.no_duplicates()
        &&& self.config.collateral_currency_ids@.len() <= u32::MAX
    }

    pub open spec fn index_of(&self, c: CurrencyId) -> int {
        first_index(self.config.collateral_currency_ids@, c)
    }

    /// Whether `c` is a configured collateral type.
    pub open spec fn is_collateral(&self, c: CurrencyId) -> bool {
        self.config.collateral_currency_ids@.contains(c)
    }

    /// The stored parameters of `c`; empty ones for any other currency.
    pub open spec fn params_of(&self, c: CurrencyId) -> RiskManagementParams {
        let i = self.index_of(c);
        if 0 <= i { self.collateral_params@[i] } else { RiskManagementParams::empty() }
    }

    /// The stored debit exchange rate of `c`, if any.
    pub open spec fn stored_rate_of(&self, c: CurrencyId) -> Option<ExchangeRate> {
        let i = self.index_of(c);
        if 0 <= i { self.debit_exchange_rates@[i] } else { None }
    }

    /// The debit exchange rate in force for `c`.
    pub open spec fn exchange_rate_of(&self, c: CurrencyId) -> ExchangeRate {
        match self.stored_rate_of(c) {
            Some(r) => r,
            None => self.config.default_debit_exchange_rate,
        }
    }

    /// The collateral type's own fee (zero when unset) plus the global fee.
    pub open spec fn stability_fee_of(&self, c: CurrencyId) -> Rate {
        let own = match self.params_of(c).stability_fee {
            Some(f) => f.inner as int,
            None => 0,
        };
        Fixed { inner: saturate(own + self.global_stability_fee.inner) }
    }

    pub open spec fn liquidation_ratio_of(&self, c: CurrencyId) -> Ratio {
        match self.params_of(c).liquidation_ratio {
            Some(r) => r,
            None => self.config.default_liquidation_ratio,
        }
    }

    pub open spec fn liquidation_penalty_of(&self, c: CurrencyId) -> Rate {
        match self.params_of(c).liquidation_penalty {
            Some(r) => r,
            None => self.config.default_liquidation_penalty,
        }
    }

    /// `debit * exchange rate`, clamped to the largest balance.
    pub open spec fn debit_value_of(&self, c: CurrencyId, debit: Balance) -> Balance {
        mul_int_spec(self.exchange_rate_of(c).inner, debit)
    }

    /// Locked collateral value against debit value.
    pub open spec fn collateral_ratio_of(&self, c: CurrencyId, collateral: Balance, debit: Balance, price: Price) -> Ratio {
        ratio_spec(mul_int_spec(price.inner, collateral), self.debit_value_of(c, debit))
    }

    /// A position is unsafe when a price is known and its collateral ratio
    /// is below the liquidation ratio.
    pub open spec fn unsafe_at(&self, c: CurrencyId, collateral: Balance, debit: Balance, feed_price: Option<Price>) -> bool {
        match feed_price {
            Some(p) => self.collateral_ratio_of(c, collateral, debit, p).inner < self.liquidation_ratio_of(c).inner,
            None => false,
        }
    }

    /// A new engine: no collateral type sets any parameter and no debit
    /// exchange rate has accrued yet.
    pub fn new(config: EngineConfig, global_stability_fee: Rate) -> (r: CdpEngine)
        requires
            config.collateral_currency_ids@.no_duplicates(),
            config.collateral_currency_ids@.len() <= u32::MAX,
        ensures
            r.wf(),
            r.config == config,
            r.global_stability_fee == global_stability_fee,
            forall|c: CurrencyId| #[trigger] r.params_of(c) == RiskManagementParams::empty(),
            forall|c: CurrencyId| #[trigger] r.stored_rate_of(c) is None,
    {
        let n = config.collateral_currency_ids.len();
        let mut collateral_params: Vec<RiskManagementParams> = Vec::new();
        let mut debit_exchange_rates: Vec<Option<ExchangeRate>> = Vec::new();
        let mut i: usize = 0;
        while i < n
            invariant
                n == config.collateral_currency_ids@.len(),
                i <= n,
                collateral_params@.len() == i,
                debit_exchange_rates@.len() == i,
                forall|j: int| 0 <= j < i ==> collateral_params@[j] == RiskManagementParams::empty(),
                forall|j: int| 0 <= j < i ==> debit_exchange_rates@[j] is None,
            decreases n - i,
        {
            collateral_params.push(RiskManagementParams::default());
            debit_exchange_rates.push(None);
            i = i + 1;
        }
        CdpEngine { config, global_stability_fee, collateral_params, debit_exchange_rates }
    }

    /// Tests `wf`: one table entry per collateral type, no collateral type
    /// twice, and no more of them than a `u32` counts.
    pub fn is_well_formed(&self) -> (r: bool)
        ensures
            r == self.wf(),
    {
        let ids = &self.config.collateral_currency_ids;
        let n = ids.len();
        if self.collateral_params.len() != n || self.debit_exchange_rates.len() != n || n > u32::MAX as usize {
            return false;
        }
        let mut i: usize = 0;
        while i < n
            invariant
                ids@ == self.config.collateral_currency_ids@,
                n == ids@.len(),
                i <= n,
                forall|a: int, b: int| 0 <= a < b < i ==> ids@[a] != ids@[b],
            decreases n - i,
        {
            let mut j: usize = 0;
            while j < i
                invariant
                    ids@ == self.config.collateral_currency_ids@,
                    n == ids@.len(),
                    j <= i < n,
                    forall|a: int| 0 <= a < j ==> ids@[a] != ids@[i as int],
                decreases i - j,
            {
                if ids[j] == ids[i] {
                    proof {
                        let s = self.config.collateral_currency_ids@;
                        assert(s == ids@);
                        let (a, b) = (j as int, i as int);
                        assert(0 <= a < s.len() && 0 <= b < s.len() && a != b && s[a] == s[b]);
                    }
                    return false;
                }
                j = j + 1;
            }
            i = i + 1;
        }
        assert(ids@.no_duplicates()) by {
            assert forall|a: int, b: int| 0 <= a < n && 0 <= b < n && a != b implies ids@[a] != ids@[b] by {
                if a > b {
                    assert(ids@[b] != ids@[a]);
                }
            }
        }
        true
    }

    /// The stored risk parameters of `c` (empty ones for a currency that
    /// is not a collateral type).
    pub fn collateral_params(&self, c: CurrencyId) -> (r: RiskManagementParams)
        requires
            self.wf(),
        ensures
            r == self.params_of(c),
    {
        match find_collateral(&self.config.collateral_currency_ids, c) {
            Some(i) => self.collateral_params[i],
            None => RiskManagementParams::default(),
        }
    }

    /// The stored debit exchange rate of `c`, if one has accrued.
    pub fn debit_exchange_rate(&self, c: CurrencyId) -> (r: Option<ExchangeRate>)
        requires
            self.wf(),
        ensures
            r == self.stored_rate_of(c),
    {
        match find_collateral(&self.config.collateral_currency_ids, c) {
            Some(i) => self.debit_exchange_rates[i],
            None => None,
        }
    }

    pub fn global_stability_fee(&self) -> (r: Rate)
        ensures
            r == self.global_stability_fee,
    {
        self.global_stability_fee
    }

    pub fn maximum_total_debit_value(&self, c: CurrencyId) -> (r: Balance)
        requires
            self.wf(),
        ensures
            r == self.params_of(c).maximum_total_debit_value,
    {
        self.collateral_params(c).maximum_total_debit_value
    }

    pub fn required_collateral_ratio(&self, c: CurrencyId) -> (r: Option<Ratio>)
        requires
            self.wf(),
        ensures
            r == self.params_of(c).required_collateral_ratio,
    {
        self.collateral_params(c).required_collateral_ratio
    }

    /// The collateral type's own fee (zero when unset) plus the global fee,
    /// saturating.
    pub fn get_stability_fee(&self, c: CurrencyId) -> (r: Rate)
        requires
            self.wf(),
        ensures
            r == self.stability_fee_of(c),
    {
        let own = match self.collateral_params(c).stability_fee {
            Some(f) => f,
            None => Fixed::zero(),
        };
        own.saturating_add(self.global_stability_fee)
    }

    /// The collateral type's liquidation ratio, else the default one.
    pub fn get_liquidation_ratio(&self, c: CurrencyId) -> (r: Ratio)
        requires
            self.wf(),
        ensures
            r == self.liquidation_ratio_of(c),
    {
        match self.collateral_params(c).liquidation_ratio {
            Some(r) => r,
            None => self.config.default_liquidation_ratio,
        }
    }

    /// The collateral type's liquidation penalty, else the default one.
    pub fn get_liquidation_penalty(&self, c: CurrencyId) -> (r: Rate)
        requires
            self.wf(),
        ensures
            r == self.liquidation_penalty_of(c),
    {
        match self.collateral_params(c).liquidation_penalty {
            Some(r) => r,
            None => self.config.default_liquidation_penalty,
        }
    }

    /// The accrued debit exchange rate of `c`, else the default one.
    pub fn get_debit_exchange_rate(&self, c: CurrencyId) -> (r: ExchangeRate)
        requires
            self.wf(),
        ensures
            r == self.exchange_rate_of(c),
    {
        match self.debit_exchange_rate(c) {
            Some(r) => r,
            None => self.config.default_debit_exchange_rate,
        }
    }

    /// Stablecoin value of `debit` units of debit under `c`.
    pub fn get_debit_value(&self, c: CurrencyId, debit_balance: Balance) -> (r: Balance)
        requires
            self.wf(),
        ensures
            r == self.debit_value_of(c, debit_balance),
    {
        self.get_debit_exchange_rate(c).saturating_mul_int(debit_balance)
    }

    /// The bad debt value of `debit` units of debit: their stablecoin value.
    pub fn get_bad_debt_value(&self, c: CurrencyId, debit_balance: Balance) -> (r: Balance)
        requires
            self.wf(),
        ensures
            r == self.debit_value_of(c, debit_balance),
    {
        self.get_debit_value(c, debit_balance)
    }

    /// `price * collateral / debit value`; the largest ratio when the debit
    /// value is zero or the quotient does not fit.
    pub fn calculate_collateral_ratio(
        &self,
        c: CurrencyId,
        collateral_balance: Balance,
        debit_balance: Balance,
        price: Price,
    ) -> (r: Ratio)
        requires
            self.wf(),
        ensures
            r == self.collateral_ratio_of(c, collateral_balance, debit_balance, price),
            self.debit_value_of(c, debit_balance) == 0 ==> r.inner == u128::MAX,
    {
        let locked_collateral_value = price.saturating_mul_int(collateral_balance);
        let debit_value = self.get_debit_value(c, debit_balance);
        match Fixed::checked_from_rational(locked_collateral_value, debit_value) {
            Some(r) => r,
            None => Fixed::max_value(),
        }
    }

    /// Whether the position is unsafe at the oracle's price `feed_price` of
    /// `c` in stablecoin: never without a price.
    pub fn is_cdp_unsafe(
        &self,
        c: CurrencyId,
        collateral: Balance,
        debit: Balance,
        feed_price: Option<Price>,
    ) -> (r: bool)
        requires
            self.wf(),
        ensures
            r == self.unsafe_at(c, collateral, debit, feed_price),
            feed_price is None ==> !r,
    {
        match feed_price {
            Some(p) => {
                let ratio = self.calculate_collateral_ratio(c, collateral, debit, p);
                ratio.inner < self.get_liquidation_ratio(c).inner
            },
            None => false,
        }
    }
}

} // verus!
