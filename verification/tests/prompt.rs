use decision_core::context::{
    CandleFigures, DecisionContext, MarketState, MomentumDirection, OrderBook, PriceSnapshot,
};
use decision_core::ledger::{LedgerRow, Outcome, Side};
use decision_core::prompt::{
    decision_prompt, exit_prompt, format_btc_price, format_ledger, format_market, format_ob_side,
    format_stats,
};
use decision_core::stats::Stats;

fn stats() -> Stats {
    Stats {
        total_trades: 12,
        wins: 7,
        losses: 5,
        total_pnl_cents: -340,
        today_pnl_cents: 125,
        current_streak: -2,
        max_drawdown_cents: 900,
        win_pnl_cents: 1400,
        loss_pnl_cents: -1740,
    }
}

fn market() -> MarketState {
    MarketState {
        ticker: "KXBTC-25MAR01".to_string(),
        title: "Bitcoin above 60k?".to_string(),
        yes_bid: Some(42),
        yes_ask: Some(45),
        no_bid: None,
        no_ask: Some(58),
        last_price: Some(44),
        volume: 1200,
        volume_24h: 5300,
        open_interest: 800,
        expiration_time: "2024-03-01T15:00:00Z".to_string(),
        minutes_to_expiry: "12.5".to_string(),
    }
}

fn trade(timestamp: &str, side: Side, result: Outcome, pnl_cents: i64) -> LedgerRow {
    LedgerRow {
        timestamp: timestamp.to_string(),
        ticker: "KXBTC-25MAR01".to_string(),
        side,
        shares: 10,
        price_cents: 45,
        result,
        pnl_cents,
    }
}

fn candle(open: &str, high: &str, low: &str, close: &str, volume: &str) -> CandleFigures {
    CandleFigures {
        open: open.to_string(),
        high: high.to_string(),
        low: low.to_string(),
        close: close.to_string(),
        volume: volume.to_string(),
    }
}

fn snapshot(candles: Vec<CandleFigures>) -> PriceSnapshot {
    PriceSnapshot {
        spot_price: "60123.45".to_string(),
        pct_change_15m: "+0.123".to_string(),
        pct_change_1h: "-1.500".to_string(),
        momentum: MomentumDirection::Up,
        sma_15m: "60100.00".to_string(),
        price_vs_sma: "above +0.039%".to_string(),
        volatility_1m: "0.0312".to_string(),
        last_3_candles: candles,
    }
}

fn context(trades: Vec<LedgerRow>, btc_price: Option<PriceSnapshot>) -> DecisionContext {
    DecisionContext {
        prompt_md: "You trade one market.".to_string(),
        stats: stats(),
        win_rate_pct: "58.3".to_string(),
        last_n_trades: trades,
        market: market(),
        orderbook: OrderBook { yes: vec![(42, 100), (41, 50)], no: vec![] },
        btc_price,
    }
}

const MARKET_LINE: &str = "Ticker: KXBTC-25MAR01 | Title: Bitcoin above 60k? | Yes bid/ask: Some(42)/Some(45) | No bid/ask: None/Some(58) | Last: Some(44) | Vol: 1200 | 24h Vol: 5300 | OI: 800 | Expiry: 2024-03-01T15:00:00Z (12.5min)";

const STATS_LINE: &str = "Trades: 12 | W/L: 7/5 | Win rate: 58.3% | P&L: -340¢ | Today: 125¢ | Streak: -2 | Drawdown: 900¢";

const INDICATOR_LINES: &str = "Spot: $60123.45 | 15m change: +0.123% | 1h change: -1.500% | Momentum: UP\nSMA(15x1m): $60100.00 | Price vs SMA: above +0.039% | 1m volatility: 0.0312%";

#[test]
fn stats_are_written_in_one_line() {
    assert_eq!(format_stats(&stats(), "58.3"), STATS_LINE);
}

#[test]
fn stats_of_nothing_are_written_with_zeros() {
    let none = Stats {
        total_trades: 0,
        wins: 0,
        losses: 0,
        total_pnl_cents: 0,
        today_pnl_cents: 0,
        current_streak: 0,
        max_drawdown_cents: 0,
        win_pnl_cents: 0,
        loss_pnl_cents: 0,
    };
    assert_eq!(
        format_stats(&none, "0.0"),
        "Trades: 0 | W/L: 0/0 | Win rate: 0.0% | P&L: 0¢ | Today: 0¢ | Streak: 0 | Drawdown: 0¢"
    );
}

#[test]
fn empty_ledger_is_noted() {
    assert_eq!(format_ledger(&[]), "No trades yet.");
}

#[test]
fn ledger_rows_are_written_one_line_each() {
    let trades = vec![
        trade("2024-03-01T10:00:00Z", Side::Yes, Outcome::Win, 550),
        trade("2024-03-01T10:15:00Z", Side::No, Outcome::Loss, -450),
        trade("2024-03-01T10:30:00Z", Side::Yes, Outcome::Pending, 0),
    ];
    assert_eq!(
        format_ledger(&trades),
        "2024-03-01T10:00:00Z | KXBTC-25MAR01 | yes | 10x @ 45¢ | win | 550¢\n\
         2024-03-01T10:15:00Z | KXBTC-25MAR01 | no | 10x @ 45¢ | loss | -450¢\n\
         2024-03-01T10:30:00Z | KXBTC-25MAR01 | yes | 10x @ 45¢ | pending | 0¢"
    );
    assert_eq!(
        format_ledger(&trades[..1]),
        "2024-03-01T10:00:00Z | KXBTC-25MAR01 | yes | 10x @ 45¢ | win | 550¢"
    );
}

#[test]
fn market_is_written_in_one_line() {
    assert_eq!(format_market(&market()), MARKET_LINE);
}

#[test]
fn empty_book_side_is_noted() {
    assert_eq!(format_ob_side(&[]), "empty");
}

#[test]
fn book_side_shows_at_most_five_levels() {
    assert_eq!(format_ob_side(&[(42, 100)]), "42¢ x100");
    assert_eq!(format_ob_side(&[(42, 100), (41, 50)]), "42¢ x100, 41¢ x50");
    let five = [(45, 1), (44, 2), (43, 3), (42, 4), (41, 5)];
    assert_eq!(format_ob_side(&five), "45¢ x1, 44¢ x2, 43¢ x3, 42¢ x4, 41¢ x5");
    let seven = [(45, 1), (44, 2), (43, 3), (42, 4), (41, 5), (40, 6), (39, 7)];
    assert_eq!(format_ob_side(&seven), "45¢ x1, 44¢ x2, 43¢ x3, 42¢ x4, 41¢ x5");
    assert_eq!(format_ob_side(&[(0, 0), (u32::MAX, u32::MAX)]), "0¢ x0, 4294967295¢ x4294967295");
}

#[test]
fn reference_price_without_candles_has_two_lines() {
    assert_eq!(format_btc_price(&snapshot(vec![])), INDICATOR_LINES);
}

#[test]
fn reference_price_lists_its_candles() {
    let one = snapshot(vec![candle("60100", "60150", "60090", "60123", "12.3")]);
    assert_eq!(
        format_btc_price(&one),
        format!("{}\nLast 3 candles (1m): O:60100 H:60150 L:60090 C:60123 V:12.3", INDICATOR_LINES)
    );
    let three = snapshot(vec![
        candle("1", "2", "3", "4", "5.0"),
        candle("6", "7", "8", "9", "10.0"),
        candle("11", "12", "13", "14", "15.5"),
    ]);
    assert_eq!(
        format_btc_price(&three),
        format!(
            "{}\nLast 3 candles (1m): O:1 H:2 L:3 C:4 V:5.0 | O:6 H:7 L:8 C:9 V:10.0 | O:11 H:12 L:13 C:14 V:15.5",
            INDICATOR_LINES
        )
    );
}

#[test]
fn momentum_is_written_in_capitals() {
    let mut snap = snapshot(vec![]);
    snap.momentum = MomentumDirection::Down;
    assert!(format_btc_price(&snap).contains("| Momentum: DOWN\n"));
    snap.momentum = MomentumDirection::Flat;
    assert!(format_btc_price(&snap).contains("| Momentum: FLAT\n"));
}

#[test]
fn decision_prompt_has_its_sections_in_order() {
    let trades = vec![trade("2024-03-01T10:00:00Z", Side::Yes, Outcome::Win, 550)];
    let ctx = context(trades, Some(snapshot(vec![])));
    let expected = format!(
        "You trade one market.\n\n---\n## STATS\n{}\n\n---\n## LAST 1 TRADES\n2024-03-01T10:00:00Z | KXBTC-25MAR01 | yes | 10x @ 45¢ | win | 550¢\n\n---\n## MARKET\n{}\n\n---\n## ORDERBOOK\nYes bids: 42¢ x100, 41¢ x50\nNo bids: empty\n\n---\n## BTC PRICE (Binance BTCUSDT)\n{}",
        STATS_LINE, MARKET_LINE, INDICATOR_LINES
    );
    assert_eq!(decision_prompt(&ctx), expected);
}

#[test]
fn decision_prompt_says_when_the_reference_price_is_missing() {
    let ctx = context(vec![], None);
    let expected = format!(
        "You trade one market.\n\n---\n## STATS\n{}\n\n---\n## LAST 0 TRADES\nNo trades yet.\n\n---\n## MARKET\n{}\n\n---\n## ORDERBOOK\nYes bids: 42¢ x100, 41¢ x50\nNo bids: empty\n\n---\n## BTC PRICE\nUnavailable this cycle.",
        STATS_LINE, MARKET_LINE
    );
    assert_eq!(decision_prompt(&ctx), expected);
}

#[test]
fn exit_prompt_names_the_position_and_the_side_in_capitals() {
    let ctx = context(vec![], None);
    let expected = format!(
        "You hold 7x NO @ 61¢ on KXBTC-25MAR01.\nThe contract expires in 12.5 minutes.\n\n## CURRENT MARKET\n{}\n\n## ORDERBOOK\nYes bids: 42¢ x100, 41¢ x50\nNo bids: empty\n\n## BTC PRICE\nUnavailable.\n\n## DECISION\nShould you SELL your NO contracts to lock in profit/cut loss, or HOLD to expiry?\nIf SELL, set max_price_cents to the price you'd sell your NO at (look at the NO bid side of the orderbook).\nRespond with JSON: {{\"action\": \"SELL\" or \"PASS\", \"shares\": 7, \"max_price_cents\": <sell price for your NO contracts>, \"reasoning\": \"...\"}}\nSELL = close now. PASS = hold to expiry.",
        MARKET_LINE
    );
    assert_eq!(exit_prompt(&ctx, Side::No, 61, 7), expected);
}

#[test]
fn exit_prompt_shows_the_reference_price() {
    let ctx = context(vec![], Some(snapshot(vec![candle("1", "2", "3", "4", "5.0")])));
    let prompt = exit_prompt(&ctx, Side::Yes, 30, 2);
    assert!(prompt.starts_with("You hold 2x YES @ 30¢ on KXBTC-25MAR01.\n"));
    assert!(prompt.contains(&format!(
        "\nNo bids: empty\n\n## BTC PRICE\n{}\nLast 3 candles (1m): O:1 H:2 L:3 C:4 V:5.0\n\n## DECISION\n",
        INDICATOR_LINES
    )));
    assert!(prompt.ends_with("SELL = close now. PASS = hold to expiry."));
}
