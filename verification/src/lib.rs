//! Decision and risk core of a trading cycle on a binary-outcome market:
//! ledger statistics, the risk gate, recovery of a structured decision from
//! free-form advice, prompt sections, and request signing.

pub mod auth;
mod clock;
pub mod context;
pub mod cycle;
pub mod decision;
pub mod indicators;
pub mod ledger;
pub mod ports;
pub mod prompt;
pub mod risk;
pub mod stats;
pub mod text;
