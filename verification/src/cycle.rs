//! One trading cycle as a state machine. The caller does the work of each
//! phase (a call to the exchange, the price feed, the adviser, the notifier)
//! and reports how it went; `advance` decides what comes next.

use vstd::prelude::*;
use vstd::string::*;
use crate::decision::{action_text, Order};
use crate::ledger::side_capitals;
use crate::risk::{reason_text, HaltReason};
use crate::text::{decimal, push_decimal};

verus! {

/// Where a cycle stands.
#[derive(Clone, Copy, Debug, PartialEq, Eq, Structural)]
pub enum Phase {
    Start,
    ObserveMarket,
    ObservePriceFeed,
    ComputeIndicators,
    ComputeStats,
    RiskCheck,
    Halted,
    Decide,
    ParseDecision,
    Act,
    Skip,
    RecordOutcome,
    Notify,
    End,
}

/// How the work of a phase went.
#[derive(Clone, Copy, Debug, PartialEq, Eq, Structural)]
pub enum Event {
    /// The work is done. A price feed that has nothing to give is done too.
    Done,
    /// A collaborator failed, or the statistics could not be had.
    Failed,
    /// The verdict of the risk gate.
    Verdict(Option<HaltReason>),
    /// The order that the parsed decision asks for, if any.
    Parsed(Option<Order>),
}

/// What a cycle came to, for the notifier.
#[derive(Clone, Copy, Debug, PartialEq, Eq, Structural)]
pub enum Report {
    /// The risk gate halted trading.
    Halted(HaltReason),
    /// The cycle stopped in this phase.
    Aborted(Phase),
    /// This order was placed and recorded.
    Placed(Order),
    /// The decision asked for no order.
    Skipped,
}

/// A cycle: its phase and what it has found so far.
#[derive(Clone, Copy, Debug, PartialEq, Eq, Structural)]
pub struct Cycle {
    pub phase: Phase,
    /// The reason of the halt, once the risk gate has given one.
    pub halt: Option<HaltReason>,
    /// The order to place, once the decision has been parsed into one.
    pub order: Option<Order>,
    /// The phase in which the cycle stopped, if it did.
    pub failed_at: Option<Phase>,
}

/// The cycle stopped in its phase: it goes to the notifier with that.
pub open spec fn aborted(c: Cycle) -> Cycle {
    Cycle { phase: Phase::Notify, halt: c.halt, order: c.order, failed_at: Some(c.phase) }
}

/// The cycle goes on to `phase`.
pub open spec fn moved(c: Cycle, phase: Phase) -> Cycle {
    Cycle { phase, halt: c.halt, order: c.order, failed_at: c.failed_at }
}

/// The cycle after `event` in its phase. An event that the phase does not
/// expect stops the cycle as a failure does.
pub open spec fn next(c: Cycle, event: Event) -> Cycle {
    match c.phase {
        Phase::Start => moved(c, Phase::ObserveMarket),
        Phase::ObserveMarket => match event {
            Event::Done => moved(c, Phase::ObservePriceFeed),
            _ => aborted(c),
        },
        Phase::ObservePriceFeed => match event {
            Event::Done => moved(c, Phase::ComputeIndicators),
            _ => aborted(c),
        },
        Phase::ComputeIndicators => match event {
            Event::Done => moved(c, Phase::ComputeStats),
            _ => aborted(c),
        },
        Phase::ComputeStats => match event {
            Event::Done => moved(c, Phase::RiskCheck),
            _ => aborted(c),
        },
        Phase::RiskCheck => match event {
            Event::Verdict(Some(reason)) => Cycle {
                phase: Phase::Halted,
                halt: Some(reason),
                order: c.order,
                failed_at: c.failed_at,
            },
            Event::Verdict(None) => moved(c, Phase::Decide),
            _ => aborted(c),
        },
        Phase::Halted => moved(c, Phase::Notify),
        Phase::Decide => match event {
            Event::Done => moved(c, Phase::ParseDecision),
            _ => aborted(c),
        },
        Phase::ParseDecision => match event {
            Event::Parsed(Some(order)) => Cycle {
                phase: Phase::Act,
                halt: c.halt,
                order: Some(order),
                failed_at: c.failed_at,
            },
            Event::Parsed(None) => moved(c, Phase::Skip),
            _ => aborted(c),
        },
        Phase::Act => match event {
            Event::Done => moved(c, Phase::RecordOutcome),
            _ => aborted(c),
        },
        Phase::Skip => moved(c, Phase::RecordOutcome),
        Phase::RecordOutcome => match event {
            Event::Done => moved(c, Phase::Notify),
            _ => aborted(c),
        },
        Phase::Notify => moved(c, Phase::End),
        Phase::End => c,
    }
}

/// What the cycle came to: a halt, a stop, an order placed, or nothing to do.
pub open spec fn report_of(c: Cycle) -> Report {
    match (c.halt, c.failed_at, c.order) {
        (Some(reason), _, _) => Report::Halted(reason),
        (None, Some(phase), _) => Report::Aborted(phase),
        (None, None, Some(order)) => Report::Placed(order),
        (None, None, None) => Report::Skipped,
    }
}

/// The most steps that a cycle in `phase` still takes to its end.
pub open spec fn steps_left(phase: Phase) -> nat {
    match phase {
        Phase::Start => 12,
        Phase::ObserveMarket => 11,
        Phase::ObservePriceFeed => 10,
        Phase::ComputeIndicators => 9,
        Phase::ComputeStats => 8,
        Phase::RiskCheck => 7,
        Phase::Decide => 6,
        Phase::ParseDecision => 5,
        Phase::Act => 4,
        Phase::Skip => 3,
        Phase::Halted => 2,
        Phase::RecordOutcome => 2,
        Phase::Notify => 1,
        Phase::End => 0,
    }
}

/// What holds of every cycle that began at `Cycle::start`: a halt and an
/// order exclude one another, and each phase has what it needs.
pub open spec fn well_formed(c: Cycle) -> bool {
    &&& c.halt is Some ==> (c.phase == Phase::Halted || c.phase == Phase::Notify || c.phase
        == Phase::End) && c.order is None
    &&& c.phase == Phase::Halted ==> c.halt is Some && c.failed_at is None
    &&& c.phase == Phase::Act ==> c.order is Some
    &&& c.order is Some ==> c.phase == Phase::Act || c.phase == Phase::RecordOutcome || c.phase
        == Phase::Notify || c.phase == Phase::End
    &&& c.failed_at is Some ==> c.phase == Phase::Notify || c.phase == Phase::End
}

/// The cycle after each of `events` in turn.
pub open spec fn run(c: Cycle, events: Seq<Event>) -> Cycle
    decreases events.len(),
{
    if events.len() == 0 {
        c
    } else {
        next(run(c, events.drop_last()), events.last())
    }
}

impl Cycle {
    /// A cycle at its start.
    pub fn start() -> (r: Cycle)
        ensures
            r == (Cycle { phase: Phase::Start, halt: None, order: None, failed_at: None }),
            well_formed(r),
    {
        Cycle { phase: Phase::Start, halt: None, order: None, failed_at: None }
    }

    /// The cycle after `event`.
    pub fn advance(self, event: Event) -> (r: Cycle)
        ensures
            r == next(self, event),
            well_formed(self) ==> well_formed(r),
            self.phase != Phase::End ==> steps_left(r.phase) < steps_left(self.phase),
    {
        let stopped = Cycle {
            phase: Phase::Notify,
            halt: self.halt,
            order: self.order,
            failed_at: Some(self.phase),
        };
        let onward = match (self.phase, event) {
            (Phase::Start, _) => Phase::ObserveMarket,
            (Phase::ObserveMarket, Event::Done) => Phase::ObservePriceFeed,
            (Phase::ObservePriceFeed, Event::Done) => Phase::ComputeIndicators,
            (Phase::ComputeIndicators, Event::Done) => Phase::ComputeStats,
            (Phase::ComputeStats, Event::Done) => Phase::RiskCheck,
            (Phase::RiskCheck, Event::Verdict(Some(reason))) => {
                return Cycle {
                    phase: Phase::Halted,
                    halt: Some(reason),
                    order: self.order,
                    failed_at: self.failed_at,
                };
            },
            (Phase::RiskCheck, Event::Verdict(None)) => Phase::Decide,
            (Phase::Halted, _) => Phase::Notify,
            (Phase::Decide, Event::Done) => Phase::ParseDecision,
            (Phase::ParseDecision, Event::Parsed(Some(order))) => {
                return Cycle {
                    phase: Phase::Act,
                    halt: self.halt,
                    order: Some(order),
                    failed_at: self.failed_at,
                };
            },
            (Phase::ParseDecision, Event::Parsed(None)) => Phase::Skip,
            (Phase::Act, Event::Done) => Phase::RecordOutcome,
            (Phase::Skip, _) => Phase::RecordOutcome,
            (Phase::RecordOutcome, Event::Done) => Phase::Notify,
            (Phase::Notify, _) => Phase::End,
            (Phase::End, _) => Phase::End,
            _ => {
                return stopped;
            },
        };
        Cycle { phase: onward, halt: self.halt, order: self.order, failed_at: self.failed_at }
    }

    /// What the cycle came to.
    pub fn report(&self) -> (r: Report)
        ensures
            r == report_of(*self),
    {
        match (self.halt, self.failed_at, self.order) {
            (Some(reason), _, _) => Report::Halted(reason),
            (None, Some(phase), _) => Report::Aborted(phase),
            (None, None, Some(order)) => Report::Placed(order),
            (None, None, None) => Report::Skipped,
        }
    }
}

/// The name of a phase.
pub open spec fn phase_text(phase: Phase) -> Seq<char> {
    match phase {
        Phase::Start => "Start"@,
        Phase::ObserveMarket => "ObserveMarket"@,
        Phase::ObservePriceFeed => "ObservePriceFeed"@,
        Phase::ComputeIndicators => "ComputeIndicators"@,
        Phase::ComputeStats => "ComputeStats"@,
        Phase::RiskCheck => "RiskCheck"@,
        Phase::Halted => "Halted"@,
        Phase::Decide => "Decide"@,
        Phase::ParseDecision => "ParseDecision"@,
        Phase::Act => "Act"@,
        Phase::Skip => "Skip"@,
        Phase::RecordOutcome => "RecordOutcome"@,
        Phase::Notify => "Notify"@,
        Phase::End => "End"@,
    }
}

/// An order in words: the action, the shares, the side and the price limit.
pub open spec fn order_text(order: Order) -> Seq<char> {
    action_text(order.action) + " "@ + decimal(order.shares as nat) + "x "@ + side_capitals(
        order.side,
    ) + " @ "@ + decimal(order.max_price_cents as nat) + "¢"@
}

/// What the notifier is told of a cycle. `note` is what the caller adds: the
/// error behind a stop, the reasoning behind a decision.
pub open spec fn report_text(report: Report, note: Seq<char>) -> Seq<char> {
    match report {
        Report::Halted(reason) => "Trading halted: "@ + reason_text(reason),
        Report::Aborted(phase) => "Cycle aborted in "@ + phase_text(phase) + ": "@ + note,
        Report::Placed(order) => "Order placed: "@ + order_text(order) + ": "@ + note,
        Report::Skipped => "No trade: "@ + note,
    }
}

impl Phase {
    /// The name of the phase.
    pub fn name(self) -> (r: &'static str)
        ensures
            r@ == phase_text(self),
    {
        match self {
            Phase::Start => "Start",
            Phase::ObserveMarket => "ObserveMarket",
            Phase::ObservePriceFeed => "ObservePriceFeed",
            Phase::ComputeIndicators => "ComputeIndicators",
            Phase::ComputeStats => "ComputeStats",
            Phase::RiskCheck => "RiskCheck",
            Phase::Halted => "Halted",
            Phase::Decide => "Decide",
            Phase::ParseDecision => "ParseDecision",
            Phase::Act => "Act",
            Phase::Skip => "Skip",
            Phase::RecordOutcome => "RecordOutcome",
            Phase::Notify => "Notify",
            Phase::End => "End",
        }
    }
}

fn order_line(order: &Order) -> (r: String)
    ensures
        r@ == order_text(*order),
{
    let mut out = String::from_str(order.action.name());
    out.append(" ");
    push_decimal(&mut out, order.shares as u128);
    out.append("x ");
    out.append(order.side.capitals());
    out.append(" @ ");
    push_decimal(&mut out, order.max_price_cents as u128);
    out.append("¢");
    out
}

impl Report {
    /// The message for the notifier.
    pub fn message(&self, note: &str) -> (r: String)
        ensures
            r@ == report_text(*self, note@),
    {
        match self {
            Report::Halted(reason) => {
                let mut out = String::from_str("Trading halted: ");
                out.append(reason.message().as_str());
                out
            },
            Report::Aborted(phase) => {
                let mut out = String::from_str("Cycle aborted in ");
                out.append(phase.name());
                out.append(": ");
                out.append(note);
                out
            },
            Report::Placed(order) => {
                let mut out = String::from_str("Order placed: ");
                out.append(order_line(order).as_str());
                out.append(": ");
                out.append(note);
                out
            },
            Report::Skipped => {
                let mut out = String::from_str("No trade: ");
                out.append(note);
                out
            },
        }
    }
}

/// Every step keeps a cycle well formed and, short of the end, brings it
/// nearer to the end: a cycle ends within twelve steps of its start.
pub proof fn lemma_step(c: Cycle, event: Event)
    requires
        well_formed(c),
    ensures
        well_formed(next(c, event)),
        c.phase != Phase::End ==> steps_left(next(c, event).phase) < steps_left(c.phase),
        c.phase == Phase::End ==> next(c, event) == c,
{
}

/// Whatever happens, a cycle that began at the start stays well formed.
pub proof fn lemma_run_well_formed(c: Cycle, events: Seq<Event>)
    requires
        well_formed(c),
    ensures
        well_formed(run(c, events)),
    decreases events.len(),
{
    if events.len() > 0 {
        lemma_run_well_formed(c, events.drop_last());
        lemma_step(run(c, events.drop_last()), events.last());
    }
}

/// The adviser is asked only where the risk gate has just let the cycle
/// proceed.
pub proof fn lemma_decide_follows_a_clear_verdict(c: Cycle, event: Event)
    requires
        c.phase != Phase::Decide,
        next(c, event).phase == Phase::Decide,
    ensures
        c.phase == Phase::RiskCheck,
        event == Event::Verdict(None),
{
}

/// A verdict to halt leads to `Halted` at once, with its reason kept.
pub proof fn lemma_halt_verdict_halts(c: Cycle, reason: HaltReason)
    requires
        c.phase == Phase::RiskCheck,
    ensures
        next(c, Event::Verdict(Some(reason))).phase == Phase::Halted,
        next(c, Event::Verdict(Some(reason))).halt == Some(reason),
{
}

/// Once halted, a cycle never asks the adviser and never places or records
/// an order, whatever happens next: it goes to the notifier with the reason
/// of the halt, and ends.
pub proof fn lemma_halted_never_trades(c: Cycle, events: Seq<Event>)
    requires
        well_formed(c),
        c.halt is Some,
    ensures
        run(c, events).halt == c.halt,
        run(c, events).phase == Phase::Halted || run(c, events).phase == Phase::Notify || run(
            c,
            events,
        ).phase == Phase::End,
        report_of(run(c, events)) == Report::Halted(c.halt->0),
    decreases events.len(),
{
    if events.len() > 0 {
        lemma_halted_never_trades(c, events.drop_last());
        lemma_run_well_formed(c, events.drop_last());
    }
}

/// An order is placed only for a decision that was parsed into one, and it
/// is that order.
pub proof fn lemma_act_needs_an_order(c: Cycle, event: Event)
    requires
        c.phase != Phase::Act,
        next(c, event).phase == Phase::Act,
    ensures
        c.phase == Phase::ParseDecision,
        event matches Event::Parsed(Some(order)) && next(c, event).order == Some(order),
{
}

/// The ledger is written only after an order was placed or the decision
/// asked for none: a failure, in whatever phase, leads past it.
pub proof fn lemma_record_follows_act_or_skip(c: Cycle, event: Event)
    requires
        c.phase != Phase::RecordOutcome,
        next(c, event).phase == Phase::RecordOutcome,
    ensures
        (c.phase == Phase::Act && event == Event::Done) || c.phase == Phase::Skip,
{
}

/// A failure, short of the notifier, sends the cycle to the notifier with
/// the phase in which it stopped; a failure of the notifier ends the cycle
/// as its success does.
pub proof fn lemma_failure_goes_to_the_notifier(c: Cycle)
    ensures
        c.phase != Phase::Start && c.phase != Phase::Halted && c.phase != Phase::Skip && c.phase
            != Phase::Notify && c.phase != Phase::End ==> next(c, Event::Failed) == aborted(c),
        c.phase == Phase::Notify ==> next(c, Event::Failed).phase == Phase::End,
{
}

} // verus!
