//! The risk gate: whether trading must halt, and why.

use vstd::prelude::*;
use vstd::string::*;
use crate::stats::Stats;
use crate::text::{decimal, push_decimal, push_signed, signed_decimal};

verus! {

/// The thresholds of the risk gate. The stop loss is a share of the starting
/// balance in basis points: 2000 is one fifth.
#[derive(Clone, Copy, Debug, PartialEq, Eq, Structural)]
pub struct Config {
    pub min_balance_cents: u64,
    pub stop_loss_bps: u32,
    pub max_daily_loss_cents: i64,
    pub max_consecutive_losses: u32,
}

/// Why trading must halt.
#[derive(Clone, Copy, Debug, PartialEq, Eq, Structural)]
pub enum HaltReason {
    /// The balance is under the configured minimum.
    LowBalance { balance_cents: u64, minimum_cents: u64 },
    /// The total loss has reached the stop-loss share of the starting balance.
    StopLoss { pnl_cents: i64, stop_loss_bps: u32, starting_cents: i128 },
    /// Today's loss has reached the daily limit.
    DailyLoss { pnl_cents: i64 },
    /// The run of losses has reached the limit.
    LosingStreak { losses: u64 },
}

/// The balance before any settled trade, implied by the balance now and the
/// total profit and loss.
pub open spec fn starting_balance(stats: Stats, balance_cents: u64) -> int {
    balance_cents - stats.total_pnl_cents
}

/// Whether the stop loss strikes: the total profit and loss is at or below
/// minus the stop-loss share of the starting balance. The share is taken
/// exactly, with no rounding: both sides are compared in ten-thousandths of
/// a cent. It is not tested where the implied starting balance is not
/// positive.
pub open spec fn stop_loss_hit(stats: Stats, balance_cents: u64, config: Config) -> bool {
    let starting = starting_balance(stats, balance_cents);
    starting > 0 && stats.total_pnl_cents * 10000 <= -(starting * config.stop_loss_bps)
}

/// Whether the daily loss has reached its limit.
pub open spec fn daily_loss_hit(stats: Stats, config: Config) -> bool {
    stats.today_pnl_cents <= -config.max_daily_loss_cents
}

/// Whether the run of losses has reached its limit.
pub open spec fn losing_streak_hit(stats: Stats, config: Config) -> bool {
    stats.current_streak <= -config.max_consecutive_losses
}

/// The verdict of the risk gate: the first of the four tests that strikes, in
/// this order, or `None` to proceed.
pub open spec fn verdict(stats: Stats, balance_cents: u64, config: Config) -> Option<HaltReason> {
    if balance_cents < config.min_balance_cents {
        Some(
            HaltReason::LowBalance { balance_cents, minimum_cents: config.min_balance_cents },
        )
    } else if stop_loss_hit(stats, balance_cents, config) {
        Some(
            HaltReason::StopLoss {
                pnl_cents: stats.total_pnl_cents,
                stop_loss_bps: config.stop_loss_bps,
                starting_cents: starting_balance(stats, balance_cents) as i128,
            },
        )
    } else if daily_loss_hit(stats, config) {
        Some(HaltReason::DailyLoss { pnl_cents: stats.today_pnl_cents })
    } else if losing_streak_hit(stats, config) {
        Some(HaltReason::LosingStreak { losses: (-stats.current_streak) as u64 })
    } else {
        None
    }
}

/// A share in basis points as a whole percentage, rounded to the nearest
/// and, halfway between two, to the even one.
pub open spec fn whole_percent(bps: int) -> int {
    let q = bps / 100;
    let r = bps % 100;
    if r > 50 || (r == 50 && q % 2 == 1) {
        q + 1
    } else {
        q
    }
}

/// The message that states `reason`.
pub open spec fn reason_text(reason: HaltReason) -> Seq<char> {
    match reason {
        HaltReason::LowBalance { balance_cents, minimum_cents } => "Balance "@ + decimal(
            balance_cents as nat,
        ) + "¢ < "@ + decimal(minimum_cents as nat) + "¢ minimum"@,
        HaltReason::StopLoss { pnl_cents, stop_loss_bps, starting_cents } => "Stop loss: P&L "@
            + signed_decimal(pnl_cents as int) + "¢ exceeds "@ + decimal(
            whole_percent(stop_loss_bps as int) as nat,
        ) + "% of starting balance ("@ + signed_decimal(starting_cents as int) + "¢)"@,
        HaltReason::DailyLoss { pnl_cents } => "Daily loss: "@ + signed_decimal(pnl_cents as int)
            + "¢"@,
        HaltReason::LosingStreak { losses } => decimal(losses as nat) + "× consecutive losses"@,
    }
}

/// The share `bps` as a whole percentage.
fn percent_of(bps: u32) -> (r: u32)
    ensures
        r == whole_percent(bps as int),
{
    let q: u32 = bps / 100;
    let r: u32 = bps % 100;
    if r > 50 || (r == 50 && q % 2 == 1) {
        q + 1
    } else {
        q
    }
}

impl HaltReason {
    /// The message that states this reason.
    pub fn message(&self) -> (r: String)
        ensures
            r@ == reason_text(*self),
    {
        let mut out = String::new();
        match *self {
            HaltReason::LowBalance { balance_cents, minimum_cents } => {
                out.append("Balance ");
                push_decimal(&mut out, balance_cents as u128);
                out.append("¢ < ");
                push_decimal(&mut out, minimum_cents as u128);
                out.append("¢ minimum");
            },
            HaltReason::StopLoss { pnl_cents, stop_loss_bps, starting_cents } => {
                out.append("Stop loss: P&L ");
                push_signed(&mut out, pnl_cents as i128);
                out.append("¢ exceeds ");
                push_decimal(&mut out, percent_of(stop_loss_bps) as u128);
                out.append("% of starting balance (");
                push_signed(&mut out, starting_cents);
                out.append("¢)");
            },
            HaltReason::DailyLoss { pnl_cents } => {
                out.append("Daily loss: ");
                push_signed(&mut out, pnl_cents as i128);
                out.append("¢");
            },
            HaltReason::LosingStreak { losses } => {
                push_decimal(&mut out, losses as u128);
                out.append("× consecutive losses");
            },
        }
        assert(out@ =~= reason_text(*self));
        out
    }
}

/// Decides whether trading must halt. The tests run in a fixed order and the
/// first that strikes gives the reason: the balance under its minimum; the
/// stop loss; the daily loss; the run of losses.
pub fn evaluate(stats: &Stats, balance_cents: u64, config: &Config) -> (r: Option<HaltReason>)
    ensures
        r == verdict(*stats, balance_cents, *config),
{
    if balance_cents < config.min_balance_cents {
        return Some(
            HaltReason::LowBalance { balance_cents, minimum_cents: config.min_balance_cents },
        );
    }
    let pnl: i128 = stats.total_pnl_cents as i128;
    let starting: i128 = balance_cents as i128 - pnl;
    if starting > 0 {
        let share: i128 = config.stop_loss_bps as i128;
        assert(0 <= starting * share <= 0x2_0000_0000_0000_0000 * 0x1_0000_0000) by (nonlinear_arith)
            requires
                0 < starting <= 0x2_0000_0000_0000_0000,
                0 <= share <= 0x1_0000_0000,
        ;
        if pnl * 10000 <= -(starting * share) {
            return Some(
                HaltReason::StopLoss {
                    pnl_cents: stats.total_pnl_cents,
                    stop_loss_bps: config.stop_loss_bps,
                    starting_cents: starting,
                },
            );
        }
    }
    if stats.today_pnl_cents as i128 <= -(config.max_daily_loss_cents as i128) {
        return Some(HaltReason::DailyLoss { pnl_cents: stats.today_pnl_cents });
    }
    let run: i128 = stats.current_streak as i128;
    if run <= -(config.max_consecutive_losses as i128) {
        return Some(HaltReason::LosingStreak { losses: (-run) as u64 });
    }
    None
}

/// The risk gate: `None` to proceed, or the message of the first test that
/// strikes.
pub fn check(stats: &Stats, balance_cents: u64, config: &Config) -> (r: Option<String>)
    ensures
        match verdict(*stats, balance_cents, *config) {
            Some(reason) => r matches Some(message) && message@ == reason_text(reason),
            None => r is None,
        },
        balance_cents < config.min_balance_cents ==> (r matches Some(message) && message@
            == reason_text(
            (HaltReason::LowBalance { balance_cents, minimum_cents: config.min_balance_cents }),
        )),
{
    match evaluate(stats, balance_cents, config) {
        Some(reason) => Some(reason.message()),
        None => None,
    }
}

/// A balance under the minimum is the reason given, whatever else is
/// breached: the daily loss, the stop loss or the run of losses behind it
/// never take its place.
pub proof fn lemma_low_balance_comes_first(stats: Stats, balance_cents: u64, config: Config)
    requires
        balance_cents < config.min_balance_cents,
    ensures
        verdict(stats, balance_cents, config) == Some(
            HaltReason::LowBalance { balance_cents, minimum_cents: config.min_balance_cents },
        ),
        !(verdict(stats, balance_cents, config) matches Some(HaltReason::DailyLoss { .. })),
{
}

/// The risk gate lets the cycle proceed exactly where none of the four tests
/// strikes.
pub proof fn lemma_proceeds_iff_nothing_strikes(stats: Stats, balance_cents: u64, config: Config)
    ensures
        verdict(stats, balance_cents, config) is None <==> {
            &&& balance_cents >= config.min_balance_cents
            &&& !stop_loss_hit(stats, balance_cents, config)
            &&& stats.today_pnl_cents > -config.max_daily_loss_cents
            &&& stats.current_streak > -config.max_consecutive_losses
        },
{
}

/// The reason given is that of the first test that strikes, in the order:
/// balance, stop loss, daily loss, run of losses. A later test gives the
/// reason only where every earlier one lets pass.
pub proof fn lemma_reason_is_of_the_first_test(stats: Stats, balance_cents: u64, config: Config)
    ensures
        verdict(stats, balance_cents, config) matches Some(HaltReason::LowBalance { .. })
            <==> balance_cents < config.min_balance_cents,
        verdict(stats, balance_cents, config) matches Some(HaltReason::StopLoss { .. })
            <==> balance_cents >= config.min_balance_cents && stop_loss_hit(
            stats,
            balance_cents,
            config,
        ),
        verdict(stats, balance_cents, config) matches Some(HaltReason::DailyLoss { .. })
            <==> balance_cents >= config.min_balance_cents && !stop_loss_hit(
            stats,
            balance_cents,
            config,
        ) && daily_loss_hit(stats, config),
        verdict(stats, balance_cents, config) matches Some(HaltReason::LosingStreak { .. })
            <==> balance_cents >= config.min_balance_cents && !stop_loss_hit(
            stats,
            balance_cents,
            config,
        ) && !daily_loss_hit(stats, config) && losing_streak_hit(stats, config),
{
}

} // verus!
