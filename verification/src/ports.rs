//! The ports through which a cycle reaches its adviser and its notifier.
//! What stands behind a port is not this library's: a method promises
//! nothing of what it returns.

use vstd::prelude::*;
use crate::context::DecisionContext;
use crate::decision::TradeDecision;
use crate::ledger::Side;

verus! {

/// A call through a port that did not come back with a result.
#[derive(Clone, Debug, PartialEq, Eq)]
pub struct PortError {
    pub message: String,
}

/// The adviser that decides on a trade.
pub trait Brain: Send + Sync {
    /// Asks whether to open a position in the market of `context`.
    fn decide(&self, context: &DecisionContext) -> Result<TradeDecision, PortError>;

    /// Asks whether to close a position of `position_shares` contracts on
    /// `entry_side`, bought at `entry_price` cents, before expiry.
    fn decide_exit(
        &self,
        context: &DecisionContext,
        entry_side: Side,
        entry_price: u32,
        position_shares: u32,
    ) -> Result<TradeDecision, PortError>;
}

/// The channel on which a halt or a failure is reported.
pub trait Notifier: Send + Sync {
    /// Sends `message`.
    fn alert(&self, message: &str) -> Result<(), PortError>;
}

} // verus!
