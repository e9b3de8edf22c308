//! The text that the adviser is shown: one section for each part of the
//! decision context, and the two prompts made of them.

use vstd::prelude::*;
use vstd::string::*;
use crate::context::{
    CandleFigures, DecisionContext, MarketState, MomentumDirection, PriceSnapshot,
};
use crate::ledger::{outcome_text, side_capitals, side_text, LedgerRow, Side};
use crate::stats::Stats;
use crate::text::{decimal, joined, push_decimal, push_signed, signed_decimal};

verus! {

/// The momentum in capitals.
pub open spec fn momentum_text(momentum: MomentumDirection) -> Seq<char> {
    match momentum {
        MomentumDirection::Up => "UP"@,
        MomentumDirection::Down => "DOWN"@,
        MomentumDirection::Flat => "FLAT"@,
    }
}

/// A quote that may be absent: `Some(` and the cents and `)`, or `None`.
pub open spec fn quote_text(quote: Option<u32>) -> Seq<char> {
    match quote {
        Some(cents) => "Some("@ + decimal(cents as nat) + ")"@,
        None => "None"@,
    }
}

fn momentum_name(momentum: MomentumDirection) -> (r: &'static str)
    ensures
        r@ == momentum_text(momentum),
{
    match momentum {
        MomentumDirection::Up => "UP",
        MomentumDirection::Down => "DOWN",
        MomentumDirection::Flat => "FLAT",
    }
}

fn quote(cents: Option<u32>) -> (r: String)
    ensures
        r@ == quote_text(cents),
{
    match cents {
        Some(cents) => {
            let mut out = String::from_str("Some(");
            push_decimal(&mut out, cents as u128);
            out.append(")");
            out
        },
        None => String::from_str("None"),
    }
}

/// The statistics in one line. `win_rate_pct` is the share of wins in
/// percent, to one decimal.
pub open spec fn stats_text(s: Stats, win_rate_pct: Seq<char>) -> Seq<char> {
    "Trades: "@ + decimal(s.total_trades as nat) + " | W/L: "@ + decimal(s.wins as nat) + "/"@
        + decimal(s.losses as nat) + " | Win rate: "@ + win_rate_pct + "% | P&L: "@
        + signed_decimal(s.total_pnl_cents as int) + "¢ | Today: "@ + signed_decimal(
        s.today_pnl_cents as int,
    ) + "¢ | Streak: "@ + signed_decimal(s.current_streak as int) + " | Drawdown: "@
        + signed_decimal(s.max_drawdown_cents as int) + "¢"@
}

/// Writes the statistics in one line.
pub fn format_stats(s: &Stats, win_rate_pct: &str) -> (r: String)
    ensures
        r@ == stats_text(*s, win_rate_pct@),
{
    let mut out = String::from_str("Trades: ");
    push_decimal(&mut out, s.total_trades as u128);
    out.append(" | W/L: ");
    push_decimal(&mut out, s.wins as u128);
    out.append("/");
    push_decimal(&mut out, s.losses as u128);
    out.append(" | Win rate: ");
    out.append(win_rate_pct);
    out.append("% | P&L: ");
    push_signed(&mut out, s.total_pnl_cents as i128);
    out.append("¢ | Today: ");
    push_signed(&mut out, s.today_pnl_cents as i128);
    out.append("¢ | Streak: ");
    push_signed(&mut out, s.current_streak as i128);
    out.append(" | Drawdown: ");
    push_signed(&mut out, s.max_drawdown_cents as i128);
    out.append("¢");
    out
}

/// One row of the ledger in one line.
pub open spec fn row_text(row: LedgerRow) -> Seq<char> {
    row.timestamp@ + " | "@ + row.ticker@ + " | "@ + side_text(row.side) + " | "@ + decimal(
        row.shares as nat,
    ) + "x @ "@ + decimal(row.price_cents as nat) + "¢ | "@ + outcome_text(row.result) + " | "@
        + signed_decimal(row.pnl_cents as int) + "¢"@
}

fn row_line(row: &LedgerRow) -> (r: String)
    ensures
        r@ == row_text(*row),
{
    let mut out = String::from_str(row.timestamp.as_str());
    out.append(" | ");
    out.append(row.ticker.as_str());
    out.append(" | ");
    out.append(row.side.name());
    out.append(" | ");
    push_decimal(&mut out, row.shares as u128);
    out.append("x @ ");
    push_decimal(&mut out, row.price_cents as u128);
    out.append("¢ | ");
    out.append(row.result.name());
    out.append(" | ");
    push_signed(&mut out, row.pnl_cents as i128);
    out.append("¢");
    out
}

/// The lines of the rows, in their order.
pub open spec fn row_lines(rows: Seq<LedgerRow>) -> Seq<Seq<char>> {
    Seq::new(rows.len(), |k: int| row_text(rows[k]))
}

/// The rows of the ledger, one line each, or a note that there are none.
pub open spec fn ledger_text(rows: Seq<LedgerRow>) -> Seq<char> {
    if rows.len() == 0 {
        "No trades yet."@
    } else {
        joined(row_lines(rows), "\n"@)
    }
}

/// Writes the rows of the ledger, one line each.
pub fn format_ledger(trades: &[LedgerRow]) -> (r: String)
    ensures
        r@ == ledger_text(trades@),
{
    let n: usize = trades.len();
    if n == 0 {
        return String::from_str("No trades yet.");
    }
    let ghost lines = row_lines(trades@);
    let mut out = row_line(&trades[0]);
    let mut i: usize = 1;
    assert(joined(lines.take(1), "\n"@) == lines[0]);
    while i < n
        invariant
            n == trades@.len(),
            lines == row_lines(trades@),
            1 <= i <= n,
            out@ == joined(lines.take(i as int), "\n"@),
        decreases n - i,
    {
        let line = row_line(&trades[i]);
        proof {
            assert(lines.take(i + 1).drop_last() =~= lines.take(i as int));
            assert(lines.take(i + 1).last() == row_text(trades@[i as int]));
        }
        out.append("\n");
        out.append(line.as_str());
        i = i + 1;
    }
    assert(lines.take(n as int) =~= lines);
    out
}

/// The market in one line.
pub open spec fn market_text(m: MarketState) -> Seq<char> {
    "Ticker: "@ + m.ticker@ + " | Title: "@ + m.title@ + " | Yes bid/ask: "@ + quote_text(
        m.yes_bid,
    ) + "/"@ + quote_text(m.yes_ask) + " | No bid/ask: "@ + quote_text(m.no_bid) + "/"@
        + quote_text(m.no_ask) + " | Last: "@ + quote_text(m.last_price) + " | Vol: "@ + decimal(
        m.volume as nat,
    ) + " | 24h Vol: "@ + decimal(m.volume_24h as nat) + " | OI: "@ + decimal(
        m.open_interest as nat,
    ) + " | Expiry: "@ + m.expiration_time@ + " ("@ + m.minutes_to_expiry@ + "min)"@
}

/// Writes the market in one line.
pub fn format_market(m: &MarketState) -> (r: String)
    ensures
        r@ == market_text(*m),
{
    let mut out = String::from_str("Ticker: ");
    out.append(m.ticker.as_str());
    out.append(" | Title: ");
    out.append(m.title.as_str());
    out.append(" | Yes bid/ask: ");
    out.append(quote(m.yes_bid).as_str());
    out.append("/");
    out.append(quote(m.yes_ask).as_str());
    out.append(" | No bid/ask: ");
    out.append(quote(m.no_bid).as_str());
    out.append("/");
    out.append(quote(m.no_ask).as_str());
    out.append(" | Last: ");
    out.append(quote(m.last_price).as_str());
    out.append(" | Vol: ");
    push_decimal(&mut out, m.volume as u128);
    out.append(" | 24h Vol: ");
    push_decimal(&mut out, m.volume_24h as u128);
    out.append(" | OI: ");
    push_decimal(&mut out, m.open_interest as u128);
    out.append(" | Expiry: ");
    out.append(m.expiration_time.as_str());
    out.append(" (");
    out.append(m.minutes_to_expiry.as_str());
    out.append("min)");
    out
}

/// One level of the order book: the price in cents and the quantity.
pub open spec fn level_text(level: (u32, u32)) -> Seq<char> {
    decimal(level.0 as nat) + "¢ x"@ + decimal(level.1 as nat)
}

fn level_line(level: (u32, u32)) -> (r: String)
    ensures
        r@ == level_text(level),
{
    let mut out = String::new();
    push_decimal(&mut out, level.0 as u128);
    out.append("¢ x");
    push_decimal(&mut out, level.1 as u128);
    assert(out@ =~= level_text(level));
    out
}

/// How many levels of one side are shown.
pub open spec fn shown_levels(levels: Seq<(u32, u32)>) -> int {
    if levels.len() < 5 {
        levels.len() as int
    } else {
        5
    }
}

/// The texts of the levels that are shown.
pub open spec fn level_lines(levels: Seq<(u32, u32)>) -> Seq<Seq<char>> {
    Seq::new(shown_levels(levels) as nat, |k: int| level_text(levels[k]))
}

/// One side of the order book: its five best levels, or fewer if it has
/// fewer, or a note that it is empty.
pub open spec fn book_side_text(levels: Seq<(u32, u32)>) -> Seq<char> {
    if levels.len() == 0 {
        "empty"@
    } else {
        joined(level_lines(levels), ", "@)
    }
}

/// Writes one side of the order book.
pub fn format_ob_side(levels: &[(u32, u32)]) -> (r: String)
    ensures
        r@ == book_side_text(levels@),
{
    let n: usize = levels.len();
    if n == 0 {
        return String::from_str("empty");
    }
    let shown: usize = if n < 5 {
        n
    } else {
        5
    };
    let ghost lines = level_lines(levels@);
    let mut out = level_line(levels[0]);
    let mut i: usize = 1;
    assert(joined(lines.take(1), ", "@) == lines[0]);
    while i < shown
        invariant
            n == levels@.len(),
            shown == shown_levels(levels@),
            lines == level_lines(levels@),
            1 <= i <= shown <= n,
            out@ == joined(lines.take(i as int), ", "@),
        decreases shown - i,
    {
        let line = level_line(levels[i]);
        proof {
            assert(lines.take(i + 1).drop_last() =~= lines.take(i as int));
            assert(lines.take(i + 1).last() == level_text(levels@[i as int]));
        }
        out.append(", ");
        out.append(line.as_str());
        i = i + 1;
    }
    assert(lines.take(shown as int) =~= lines);
    out
}

/// One candle: its four prices and its volume.
pub open spec fn candle_text(c: CandleFigures) -> Seq<char> {
    "O:"@ + c.open@ + " H:"@ + c.high@ + " L:"@ + c.low@ + " C:"@ + c.close@ + " V:"@ + c.volume@
}

fn candle_line(c: &CandleFigures) -> (r: String)
    ensures
        r@ == candle_text(*c),
{
    let mut out = String::from_str("O:");
    out.append(c.open.as_str());
    out.append(" H:");
    out.append(c.high.as_str());
    out.append(" L:");
    out.append(c.low.as_str());
    out.append(" C:");
    out.append(c.close.as_str());
    out.append(" V:");
    out.append(c.volume.as_str());
    out
}

/// The texts of the candles, in their order.
pub open spec fn candle_lines(candles: Seq<CandleFigures>) -> Seq<Seq<char>> {
    Seq::new(candles.len(), |k: int| candle_text(candles[k]))
}

/// The two lines of indicators of the reference price.
pub open spec fn indicator_lines(snap: PriceSnapshot) -> Seq<char> {
    "Spot: $"@ + snap.spot_price@ + " | 15m change: "@ + snap.pct_change_15m@
        + "% | 1h change: "@ + snap.pct_change_1h@ + "% | Momentum: "@ + momentum_text(
        snap.momentum,
    ) + "\nSMA(15x1m): $"@ + snap.sma_15m@ + " | Price vs SMA: "@ + snap.price_vs_sma@
        + " | 1m volatility: "@ + snap.volatility_1m@ + "%"@
}

/// The reference price: its indicators and, where there are any, its latest
/// candles in a third line.
pub open spec fn btc_price_text(snap: PriceSnapshot) -> Seq<char> {
    if snap.last_3_candles@.len() == 0 {
        indicator_lines(snap)
    } else {
        indicator_lines(snap) + "\nLast 3 candles (1m): "@ + joined(
            candle_lines(snap.last_3_candles@),
            " | "@,
        )
    }
}

/// Writes the reference price.
pub fn format_btc_price(snap: &PriceSnapshot) -> (r: String)
    ensures
        r@ == btc_price_text(*snap),
{
    let mut out = String::from_str("Spot: $");
    out.append(snap.spot_price.as_str());
    out.append(" | 15m change: ");
    out.append(snap.pct_change_15m.as_str());
    out.append("% | 1h change: ");
    out.append(snap.pct_change_1h.as_str());
    out.append("% | Momentum: ");
    out.append(momentum_name(snap.momentum));
    out.append("\nSMA(15x1m): $");
    out.append(snap.sma_15m.as_str());
    out.append(" | Price vs SMA: ");
    out.append(snap.price_vs_sma.as_str());
    out.append(" | 1m volatility: ");
    out.append(snap.volatility_1m.as_str());
    out.append("%");
    let n: usize = snap.last_3_candles.len();
    if n == 0 {
        return out;
    }
    let ghost lines = candle_lines(snap.last_3_candles@);
    let mut list = candle_line(&snap.last_3_candles[0]);
    let mut i: usize = 1;
    assert(joined(lines.take(1), " | "@) == lines[0]);
    while i < n
        invariant
            n == snap.last_3_candles@.len(),
            lines == candle_lines(snap.last_3_candles@),
            1 <= i <= n,
            list@ == joined(lines.take(i as int), " | "@),
        decreases n - i,
    {
        let line = candle_line(&snap.last_3_candles[i]);
        proof {
            assert(lines.take(i + 1).drop_last() =~= lines.take(i as int));
            assert(lines.take(i + 1).last() == candle_text(snap.last_3_candles@[i as int]));
        }
        list.append(" | ");
        list.append(line.as_str());
        i = i + 1;
    }
    assert(lines.take(n as int) =~= lines);
    out.append("\nLast 3 candles (1m): ");
    out.append(list.as_str());
    out
}

/// The section on the reference price in the prompt for a decision.
pub open spec fn btc_section_text(btc_price: Option<PriceSnapshot>) -> Seq<char> {
    match btc_price {
        Some(snap) => "\n\n---\n## BTC PRICE (Binance BTCUSDT)\n"@ + btc_price_text(snap),
        None => "\n\n---\n## BTC PRICE\nUnavailable this cycle."@,
    }
}

/// The section on the reference price in the prompt for an exit.
pub open spec fn btc_exit_section_text(btc_price: Option<PriceSnapshot>) -> Seq<char> {
    match btc_price {
        Some(snap) => "\n\n## BTC PRICE\n"@ + btc_price_text(snap),
        None => "\n\n## BTC PRICE\nUnavailable."@,
    }
}

fn btc_section(btc_price: &Option<PriceSnapshot>, exit: bool) -> (r: String)
    ensures
        r@ == if exit {
            btc_exit_section_text(*btc_price)
        } else {
            btc_section_text(*btc_price)
        },
{
    match btc_price {
        Some(snap) => {
            let mut out = if exit {
                String::from_str("\n\n## BTC PRICE\n")
            } else {
                String::from_str("\n\n---\n## BTC PRICE (Binance BTCUSDT)\n")
            };
            out.append(format_btc_price(snap).as_str());
            out
        },
        None => if exit {
            String::from_str("\n\n## BTC PRICE\nUnavailable.")
        } else {
            String::from_str("\n\n---\n## BTC PRICE\nUnavailable this cycle.")
        },
    }
}

/// The prompt that asks for a decision: the standing instructions, then the
/// statistics, the latest trades, the market, the order book and the
/// reference price, each under its heading.
pub open spec fn decision_prompt_text(ctx: DecisionContext) -> Seq<char> {
    ctx.prompt_md@ + "\n\n---\n## STATS\n"@ + stats_text(ctx.stats, ctx.win_rate_pct@)
        + "\n\n---\n## LAST "@ + decimal(ctx.last_n_trades@.len()) + " TRADES\n"@ + ledger_text(
        ctx.last_n_trades@,
    ) + "\n\n---\n## MARKET\n"@ + market_text(ctx.market) + "\n\n---\n## ORDERBOOK\nYes bids: "@
        + book_side_text(ctx.orderbook.yes@) + "\nNo bids: "@ + book_side_text(ctx.orderbook.no@)
        + btc_section_text(ctx.btc_price)
}

/// Writes the prompt that asks for a decision.
pub fn decision_prompt(ctx: &DecisionContext) -> (r: String)
    ensures
        r@ == decision_prompt_text(*ctx),
{
    let mut out = String::from_str(ctx.prompt_md.as_str());
    out.append("\n\n---\n## STATS\n");
    out.append(format_stats(&ctx.stats, ctx.win_rate_pct.as_str()).as_str());
    out.append("\n\n---\n## LAST ");
    push_decimal(&mut out, ctx.last_n_trades.len() as u128);
    out.append(" TRADES\n");
    out.append(format_ledger(ctx.last_n_trades.as_slice()).as_str());
    out.append("\n\n---\n## MARKET\n");
    out.append(format_market(&ctx.market).as_str());
    out.append("\n\n---\n## ORDERBOOK\nYes bids: ");
    out.append(format_ob_side(ctx.orderbook.yes.as_slice()).as_str());
    out.append("\nNo bids: ");
    out.append(format_ob_side(ctx.orderbook.no.as_slice()).as_str());
    out.append(btc_section(&ctx.btc_price, false).as_str());
    out
}

/// The prompt that asks whether to close a position before expiry: the
/// position, the market, the order book, the reference price, and the
/// question, which leaves the choice between selling and holding.
pub open spec fn exit_prompt_text(
    ctx: DecisionContext,
    entry_side: Side,
    entry_price: u32,
    position_shares: u32,
) -> Seq<char> {
    "You hold "@ + decimal(position_shares as nat) + "x "@ + side_capitals(entry_side) + " @ "@
        + decimal(entry_price as nat) + "¢ on "@ + ctx.market.ticker@
        + ".\nThe contract expires in "@ + ctx.market.minutes_to_expiry@
        + " minutes.\n\n## CURRENT MARKET\n"@ + market_text(ctx.market)
        + "\n\n## ORDERBOOK\nYes bids: "@ + book_side_text(ctx.orderbook.yes@) + "\nNo bids: "@
        + book_side_text(ctx.orderbook.no@) + btc_exit_section_text(ctx.btc_price)
        + "\n\n## DECISION\nShould you SELL your "@ + side_capitals(entry_side)
        + " contracts to lock in profit/cut loss, or HOLD to expiry?\nIf SELL, set max_price_cents to the price you'd sell your "@
        + side_capitals(entry_side) + " at (look at the "@ + side_capitals(entry_side)
        + " bid side of the orderbook).\nRespond with JSON: {\"action\": \"SELL\" or \"PASS\", \"shares\": "@
        + decimal(position_shares as nat) + ", \"max_price_cents\": <sell price for your "@
        + side_capitals(entry_side)
        + " contracts>, \"reasoning\": \"...\"}\nSELL = close now. PASS = hold to expiry."@
}

/// Writes the prompt that asks whether to close a position.
pub fn exit_prompt(
    ctx: &DecisionContext,
    entry_side: Side,
    entry_price: u32,
    position_shares: u32,
) -> (r: String)
    ensures
        r@ == exit_prompt_text(*ctx, entry_side, entry_price, position_shares),
{
    let side = entry_side.capitals();
    let mut out = String::from_str("You hold ");
    push_decimal(&mut out, position_shares as u128);
    out.append("x ");
    out.append(side);
    out.append(" @ ");
    push_decimal(&mut out, entry_price as u128);
    out.append("¢ on ");
    out.append(ctx.market.ticker.as_str());
    out.append(".\nThe contract expires in ");
    out.append(ctx.market.minutes_to_expiry.as_str());
    out.append(" minutes.\n\n## CURRENT MARKET\n");
    out.append(format_market(&ctx.market).as_str());
    out.append("\n\n## ORDERBOOK\nYes bids: ");
    out.append(format_ob_side(ctx.orderbook.yes.as_slice()).as_str());
    out.append("\nNo bids: ");
    out.append(format_ob_side(ctx.orderbook.no.as_slice()).as_str());
    out.append(btc_section(&ctx.btc_price, true).as_str());
    out.append("\n\n## DECISION\nShould you SELL your ");
    out.append(side);
    out.append(
        " contracts to lock in profit/cut loss, or HOLD to expiry?\nIf SELL, set max_price_cents to the price you'd sell your ",
    );
    out.append(side);
    out.append(" at (look at the ");
    out.append(side);
    out.append(
        " bid side of the orderbook).\nRespond with JSON: {\"action\": \"SELL\" or \"PASS\", \"shares\": ",
    );
    push_decimal(&mut out, position_shares as u128);
    out.append(", \"max_price_cents\": <sell price for your ");
    out.append(side);
    out.append(" contracts>, \"reasoning\": \"...\"}\nSELL = close now. PASS = hold to expiry.");
    out
}

} // verus!
