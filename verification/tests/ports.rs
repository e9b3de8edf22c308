use std::sync::Mutex;

use decision_core::context::{DecisionContext, MarketState, OrderBook};
use decision_core::cycle::{Cycle, Event, Phase};
use decision_core::decision::{parse_decision, Action, Order, RawDecision, TradeDecision};
use decision_core::ledger::{find_open_position, LedgerRow, Outcome, Side};
use decision_core::ports::{Brain, Notifier, PortError};
use decision_core::prompt::{decision_prompt, exit_prompt};
use decision_core::risk::{evaluate, Config};
use decision_core::stats::compute_on;

/// An adviser that answers with a fixed reply, and keeps the prompts it was asked.
struct CannedBrain {
    reply: Option<String>,
    asked: Mutex<Vec<String>>,
}

fn decode(text: &str) -> Option<RawDecision> {
    let object: serde_json::Value = serde_json::from_str(text).ok()?;
    let number = |name: &str| object.get(name).and_then(|v| v.as_u64()).map(|n| n as u32);
    Some(RawDecision {
        action: object.get("action")?.as_str()?.to_string(),
        side: object.get("side").and_then(|v| v.as_str()).map(|s| s.to_string()),
        shares: number("shares"),
        max_price_cents: number("max_price_cents"),
        reasoning: object.get("reasoning")?.as_str()?.to_string(),
    })
}

impl CannedBrain {
    fn new(reply: Option<&str>) -> Self {
        CannedBrain { reply: reply.map(|r| r.to_string()), asked: Mutex::new(Vec::new()) }
    }

    fn answer(&self, prompt: String) -> Result<TradeDecision, PortError> {
        self.asked.lock().unwrap().push(prompt);
        match &self.reply {
            Some(reply) => Ok(parse_decision(reply, decode)),
            None => Err(PortError { message: "timed out".to_string() }),
        }
    }
}

impl Brain for CannedBrain {
    fn decide(&self, context: &DecisionContext) -> Result<TradeDecision, PortError> {
        self.answer(decision_prompt(context))
    }

    fn decide_exit(
        &self,
        context: &DecisionContext,
        entry_side: Side,
        entry_price: u32,
        position_shares: u32,
    ) -> Result<TradeDecision, PortError> {
        self.answer(exit_prompt(context, entry_side, entry_price, position_shares))
    }
}

/// A notifier that keeps what it was told.
struct Recorder {
    told: Mutex<Vec<String>>,
    fails: bool,
}

impl Notifier for Recorder {
    fn alert(&self, message: &str) -> Result<(), PortError> {
        self.told.lock().unwrap().push(message.to_string());
        if self.fails {
            Err(PortError { message: "unreachable".to_string() })
        } else {
            Ok(())
        }
    }
}

fn market() -> MarketState {
    MarketState {
        ticker: "KX".to_string(),
        title: "t".to_string(),
        yes_bid: Some(40),
        yes_ask: Some(44),
        no_bid: Some(55),
        no_ask: Some(60),
        last_price: None,
        volume: 1,
        volume_24h: 2,
        open_interest: 3,
        expiration_time: "2024-03-01T15:00:00Z".to_string(),
        minutes_to_expiry: "9.0".to_string(),
    }
}

fn row(result: Outcome, pnl_cents: i64) -> LedgerRow {
    LedgerRow {
        timestamp: "2024-03-01T10:00:00Z".to_string(),
        ticker: "KX".to_string(),
        side: Side::No,
        shares: 4,
        price_cents: 58,
        result,
        pnl_cents,
    }
}

fn config() -> Config {
    Config {
        min_balance_cents: 1000,
        stop_loss_bps: 2000,
        max_daily_loss_cents: 3000,
        max_consecutive_losses: 3,
    }
}

/// Runs one cycle over a ledger in memory; gives the phases passed and the
/// ledger as it is left.
fn run(
    brain: &impl Brain,
    notifier: &impl Notifier,
    ledger: &[LedgerRow],
    balance_cents: u64,
) -> (Vec<Phase>, Vec<LedgerRow>) {
    let mut ledger = ledger.to_vec();
    let mut cycle = Cycle::start();
    let mut passed = vec![cycle.phase];
    let mut stats = None;
    let mut order: Option<Order> = None;
    let mut note = String::new();
    while cycle.phase != Phase::End {
        let event = match cycle.phase {
            Phase::ComputeStats => {
                stats = compute_on(&ledger, "2024-03-01");
                if stats.is_some() { Event::Done } else { Event::Failed }
            }
            Phase::RiskCheck => Event::Verdict(evaluate(&stats.unwrap(), balance_cents, &config())),
            Phase::Decide => {
                let context = DecisionContext::assemble(
                    "Trade well.".to_string(),
                    stats.unwrap(),
                    "50.0".to_string(),
                    &ledger,
                    5,
                    market(),
                    OrderBook { yes: vec![(40, 10)], no: vec![(55, 10)] },
                    None,
                );
                let held = find_open_position(&ledger, "KX").map(|i| ledger[i].clone());
                let answer = match &held {
                    Some(held) => brain
                        .decide_exit(&context, held.side, held.price_cents, held.shares)
                        .map(|d| (d.exit_order(held.side), d.reasoning)),
                    None => brain.decide(&context).map(|d| (d.order(), d.reasoning)),
                };
                match answer {
                    Ok((asked, reasoning)) => {
                        order = asked;
                        note = reasoning;
                        Event::Done
                    }
                    Err(error) => {
                        note = error.message;
                        Event::Failed
                    }
                }
            }
            Phase::ParseDecision => Event::Parsed(order),
            Phase::RecordOutcome => {
                if let Some(placed) = cycle.order {
                    ledger.push(LedgerRow::opened(
                        "2024-03-01T12:00:00Z".to_string(),
                        "KX".to_string(),
                        placed.side,
                        placed.shares,
                        placed.max_price_cents,
                    ));
                }
                Event::Done
            }
            Phase::Notify => match notifier.alert(&cycle.report().message(&note)) {
                Ok(()) => Event::Done,
                Err(_) => Event::Failed,
            },
            _ => Event::Done,
        };
        cycle = cycle.advance(event);
        passed.push(cycle.phase);
    }
    (passed, ledger)
}

fn recorder() -> Recorder {
    Recorder { told: Mutex::new(Vec::new()), fails: false }
}

#[test]
fn cycle_places_and_records_the_order_that_the_adviser_asks_for() {
    let brain = CannedBrain::new(Some(
        "Sure!\n```json\n{\"action\": \"buy\", \"side\": \"YES\", \"shares\": 3, \"max_price_cents\": 44, \"reasoning\": \"cheap\"}\n```",
    ));
    let notifier = recorder();
    let before = vec![row(Outcome::Win, 100), row(Outcome::Loss, -50)];
    let (passed, after) = run(&brain, &notifier, &before, 50_000);
    assert!(passed.contains(&Phase::Act));
    assert_eq!(after.len(), 3);
    assert_eq!(
        after[2],
        LedgerRow::opened("2024-03-01T12:00:00Z".to_string(), "KX".to_string(), Side::Yes, 3, 44)
    );
    assert_eq!(*notifier.told.lock().unwrap(), vec!["Order placed: BUY 3x YES @ 44¢: cheap"]);
    let asked = brain.asked.lock().unwrap();
    assert_eq!(asked.len(), 1);
    assert!(asked[0].starts_with("Trade well.\n\n---\n## STATS\nTrades: 2 | W/L: 1/1 | Win rate: 50.0% | P&L: 50¢"));
    assert!(asked[0].contains("\n\n---\n## LAST 2 TRADES\n"));
}

#[test]
fn halted_cycle_tells_the_notifier_and_never_asks_the_adviser() {
    let brain = CannedBrain::new(Some("{\"action\": \"BUY\", \"side\": \"YES\", \"shares\": 3, \"max_price_cents\": 44, \"reasoning\": \"x\"}"));
    let notifier = recorder();
    let before = vec![row(Outcome::Loss, -10), row(Outcome::Loss, -10), row(Outcome::Loss, -10)];
    let (passed, after) = run(&brain, &notifier, &before, 50_000);
    assert_eq!(
        &passed[5..],
        &[Phase::RiskCheck, Phase::Halted, Phase::Notify, Phase::End]
    );
    assert_eq!(after, before);
    assert!(brain.asked.lock().unwrap().is_empty());
    assert_eq!(
        *notifier.told.lock().unwrap(),
        vec!["Trading halted: 3× consecutive losses"]
    );
}

#[test]
fn balance_under_the_minimum_halts_before_anything_else() {
    let brain = CannedBrain::new(None);
    let notifier = recorder();
    let before = vec![row(Outcome::Loss, -4000), row(Outcome::Loss, -10), row(Outcome::Loss, -10)];
    let (_, after) = run(&brain, &notifier, &before, 999);
    assert_eq!(after, before);
    assert!(brain.asked.lock().unwrap().is_empty());
    assert_eq!(
        *notifier.told.lock().unwrap(),
        vec!["Trading halted: Balance 999¢ < 1000¢ minimum"]
    );
}

#[test]
fn reply_that_cannot_be_read_places_nothing() {
    let brain = CannedBrain::new(Some("I cannot decide right now"));
    let notifier = recorder();
    let before = vec![row(Outcome::Win, 100)];
    let (passed, after) = run(&brain, &notifier, &before, 50_000);
    assert!(passed.contains(&Phase::Skip));
    assert!(!passed.contains(&Phase::Act));
    assert_eq!(after, before);
    assert_eq!(*notifier.told.lock().unwrap(), vec!["No trade: Failed to parse AI response"]);
}

#[test]
fn failure_of_the_adviser_aborts_without_touching_the_ledger() {
    let brain = CannedBrain::new(None);
    let notifier = recorder();
    let before = vec![row(Outcome::Win, 100)];
    let (passed, after) = run(&brain, &notifier, &before, 50_000);
    assert!(!passed.contains(&Phase::RecordOutcome));
    assert_eq!(after, before);
    assert_eq!(*notifier.told.lock().unwrap(), vec!["Cycle aborted in Decide: timed out"]);
}

#[test]
fn open_position_is_asked_about_its_exit_and_can_only_be_sold() {
    let before = vec![row(Outcome::Win, 100), row(Outcome::Pending, 0)];
    let sell = CannedBrain::new(Some(
        "{\"action\": \"SELL\", \"shares\": 4, \"max_price_cents\": 70, \"reasoning\": \"lock in\"}",
    ));
    let notifier = recorder();
    let (passed, after) = run(&sell, &notifier, &before, 50_000);
    assert!(passed.contains(&Phase::Act));
    assert_eq!(after.len(), 3);
    assert_eq!(*notifier.told.lock().unwrap(), vec!["Order placed: SELL 4x NO @ 70¢: lock in"]);
    assert!(sell.asked.lock().unwrap()[0].starts_with("You hold 4x NO @ 58¢ on KX.\n"));

    let buy = CannedBrain::new(Some(
        "{\"action\": \"BUY\", \"side\": \"YES\", \"shares\": 4, \"max_price_cents\": 70, \"reasoning\": \"more\"}",
    ));
    let notifier = recorder();
    let (passed, after) = run(&buy, &notifier, &before, 50_000);
    assert!(!passed.contains(&Phase::Act));
    assert_eq!(after, before);
    assert_eq!(*notifier.told.lock().unwrap(), vec!["No trade: more"]);
}

#[test]
fn failure_of_the_notifier_does_not_stop_the_cycle() {
    let brain = CannedBrain::new(Some("{\"action\": \"PASS\", \"reasoning\": \"wait\"}"));
    let notifier = Recorder { told: Mutex::new(Vec::new()), fails: true };
    let before = vec![row(Outcome::Win, 100)];
    let (passed, after) = run(&brain, &notifier, &before, 50_000);
    assert_eq!(passed.last(), Some(&Phase::End));
    assert_eq!(after, before);
    assert_eq!(*notifier.told.lock().unwrap(), vec!["No trade: wait"]);
}

#[test]
fn orders_keep_the_action_that_was_asked() {
    let decision = parse_decision(
        "{\"action\": \"Sell\", \"side\": \"NO\", \"shares\": 1, \"max_price_cents\": 2, \"reasoning\": \"r\"}",
        decode,
    );
    assert_eq!(
        decision.order(),
        Some(Order { action: Action::Sell, side: Side::No, shares: 1, max_price_cents: 2 })
    );
}
