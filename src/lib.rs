//! Risk management and liquidation engine for collateralized debt positions.
//!
//! The engine keeps per-collateral risk parameters, accrues the stability fee
//! into a debit exchange rate, decides whether a position is unsafe, drives
//! liquidation and settlement, and plans the resumable position scan that
//! finds positions to liquidate or settle.
pub mod fixed;
pub mod types;
pub mod engine;
pub mod traits;
pub mod risk;
pub mod accrual;
pub mod liquidation;
pub mod scanner;
pub mod scan_laws;
pub mod validator;
