//! Identifiers, positions, risk parameters, errors and notifications.
use crate::fixed::{Rate, Ratio};
use vstd::prelude::*;

verus! {

/// Identifier of a currency; collateral types are currencies.
pub type CurrencyId = u32;

/// Identifier of a position's owner.
pub type AccountId = u64;

/// Amount of a currency.
pub type Balance = u128;

/// An owner's locked collateral and outstanding debit for one collateral type.
#[derive(Clone, Copy, Debug, PartialEq, Eq, Structural)]
pub struct Position {
    pub collateral: Balance,
    pub debit: Balance,
}

/// How the collateral of an unsafe position is disposed of.
#[derive(Clone, Copy, Debug, PartialEq, Eq, Structural)]
pub enum LiquidationStrategy {
    /// Sell the collateral in collateral auctions.
    Auction,
    /// Swap the collateral for stablecoin on the exchange.
    Exchange,
}

/// Per-collateral risk parameters; an absent field falls back to a default.
#[derive(Clone, Copy, Debug, PartialEq, Eq, Structural)]
pub struct RiskManagementParams {
    /// Hard cap on the total debit value issued under the collateral type.
    pub maximum_total_debit_value: Balance,
    /// Extra stability fee rate.
    pub stability_fee: Option<Rate>,
    /// Collateral ratio under which a position is unsafe.
    pub liquidation_ratio: Option<Ratio>,
    /// Penalty rate charged on the debit value at liquidation.
    pub liquidation_penalty: Option<Rate>,
    /// Collateral ratio that an adjusted position must keep.
    pub required_collateral_ratio: Option<Ratio>,
}

impl RiskManagementParams {
    /// Parameters with no cap and no field set.
    pub open spec fn empty() -> RiskManagementParams {
        RiskManagementParams {
            maximum_total_debit_value: 0,
            stability_fee: None,
            liquidation_ratio: None,
            liquidation_penalty: None,
            required_collateral_ratio: None,
        }
    }
}

impl Default for RiskManagementParams {
    fn default() -> (r: RiskManagementParams)
        ensures
            r == RiskManagementParams::empty(),
    {
        RiskManagementParams {
            maximum_total_debit_value: 0,
            stability_fee: None,
            liquidation_ratio: None,
            liquidation_penalty: None,
            required_collateral_ratio: None,
        }
    }
}

/// An update of one parameter: leave it as it is, or give it a new value.
#[derive(Clone, Copy, Debug, PartialEq, Eq, Structural)]
pub enum Change<V> {
    NoChange,
    NewValue(V),
}

/// Why an operation was refused; the state is then left unchanged.
#[derive(Clone, Copy, Debug, PartialEq, Eq, Structural)]
pub enum Error {
    /// The total debit value would exceed the collateral type's hard cap.
    ExceedDebitValueHardCap,
    /// The collateral ratio is below the required collateral ratio.
    BelowRequiredCollateralRatio,
    /// The collateral ratio is below the liquidation ratio.
    BelowLiquidationRatio,
    /// Only an unsafe position can be liquidated.
    MustBeUnsafe,
    /// The currency is not a configured collateral type.
    InvalidCollateralType,
    /// The remaining debit value is below the dust amount.
    RemainDebitValueTooSmall,
    /// A required price is unavailable.
    InvalidFeedPrice,
    /// A position without debit cannot be settled.
    NoDebitValue,
    /// The system is already shut down.
    AlreadyShutdown,
    /// Only allowed after the system has shut down.
    MustAfterShutdown,
    /// A collaborator refused its part; passed on as it came.
    Collaborator(CollaboratorError),
}

/// A failure that a collaborator (the ledger, the treasury) reports, with
/// the collaborator's own code.
#[derive(Clone, Copy, Debug, PartialEq, Eq, Structural)]
pub struct CollaboratorError {
    pub code: u32,
}

/// Notifications emitted by the engine.
#[derive(Clone, Copy, Debug, PartialEq, Eq, Structural)]
pub enum Event {
    /// An unsafe position was liquidated: collateral type, owner, collateral
    /// amount, bad debt value, strategy.
    LiquidateUnsafeCDP(CurrencyId, AccountId, Balance, Balance, LiquidationStrategy),
    /// A position with debit was settled: collateral type, owner.
    SettleCDPInDebit(CurrencyId, AccountId),
    StabilityFeeUpdated(CurrencyId, Option<Rate>),
    LiquidationRatioUpdated(CurrencyId, Option<Ratio>),
    LiquidationPenaltyUpdated(CurrencyId, Option<Rate>),
    RequiredCollateralRatioUpdated(CurrencyId, Option<Ratio>),
    MaximumTotalDebitValueUpdated(CurrencyId, Balance),
    GlobalStabilityFeeUpdated(Rate),
}

} // verus!
