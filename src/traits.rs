//! Collaborators that the engine calls: the position ledger, the treasury,
//! the exchange, the price oracle and the shutdown switch. Their results
//! are taken as they come; the engine's contracts hold whatever they return.
use crate::fixed::{Price, Ratio};
use crate::types::{AccountId, Balance, CollaboratorError, CurrencyId, Position};
use vstd::prelude::*;

verus! {

/// Signed change of a balance.
pub type Amount = i128;

/// The ledger that owns the positions.
pub trait LoansLedger {
    /// The position of `who` under collateral type `c`.
    fn positions(&self, c: CurrencyId, who: AccountId) -> Position;

    /// The total debit of all positions under `c`.
    fn total_debits(&self, c: CurrencyId) -> Balance;

    /// Moves `collateral` and `debit` out of the position, both or neither.
    fn confiscate_collateral_and_debit(
        &mut self,
        who: AccountId,
        c: CurrencyId,
        collateral: Balance,
        debit: Balance,
    ) -> Result<(), CollaboratorError>;

    /// Adjusts the position by the given signed amounts.
    fn adjust_position(
        &mut self,
        who: AccountId,
        c: CurrencyId,
        collateral_adjustment: Amount,
        debit_adjustment: Amount,
    ) -> Result<(), CollaboratorError>;
}

/// The treasury that holds surplus, swaps and auctions collateral.
pub trait CdpTreasury {
    /// Records `amount` of stablecoin as system surplus.
    fn on_system_surplus(&mut self, amount: Balance) -> Result<(), CollaboratorError>;

    /// Swaps `supply_amount` of collateral `c` for `target_amount` of stablecoin.
    fn swap_collateral_to_stable(
        &mut self,
        c: CurrencyId,
        supply_amount: Balance,
        target_amount: Balance,
    ) -> Result<(), CollaboratorError>;

    /// Pays `amount` of collateral `c` out to `to`.
    fn withdraw_collateral(&mut self, to: AccountId, c: CurrencyId, amount: Balance) -> Result<(), CollaboratorError>;

    /// Puts `amount` of collateral `c` up for auction, aiming at `target`
    /// stablecoin; what is left returns to `refund_receiver`.
    fn create_collateral_auctions(
        &mut self,
        c: CurrencyId,
        amount: Balance,
        target: Balance,
        refund_receiver: AccountId,
        splited: bool,
    ) -> Result<(), CollaboratorError>;
}

/// The automated exchange.
pub trait DexManager {
    /// How much of `supply` buys `target_amount` of `target`; zero when no
    /// amount does.
    fn get_supply_amount(&self, supply: CurrencyId, target: CurrencyId, target_amount: Balance) -> Balance;

    /// The slippage of selling `supply_amount` of `supply` for `target`.
    fn get_exchange_slippage(&self, supply: CurrencyId, target: CurrencyId, supply_amount: Balance) -> Option<Ratio>;
}

/// The price oracle.
pub trait PriceProvider {
    /// The price of `base` in `quote`, if known.
    fn get_relative_price(&self, base: CurrencyId, quote: CurrencyId) -> Option<Price>;
}

/// The emergency shutdown switch.
pub trait EmergencyShutdown {
    fn is_shutdown(&self) -> bool;
}

} // verus!
