//! What the adviser is shown in one cycle: the market, the order book, the
//! latest trades, the statistics and, where there is one, the reference price.
//!
//! A figure that is measured rather than counted (a price of the reference
//! asset, a rate, minutes) is held as the text that shows it, at the
//! precision named with its field.

use vstd::prelude::*;
use crate::indicators::latest_start;
use crate::ledger::LedgerRow;
use crate::stats::Stats;

verus! {

/// One market of the exchange. A bid, an ask or the last price is `None`
/// where there is none to quote.
#[derive(Clone, Debug, PartialEq, Eq)]
pub struct MarketState {
    pub ticker: String,
    pub title: String,
    pub yes_bid: Option<u32>,
    pub yes_ask: Option<u32>,
    pub no_bid: Option<u32>,
    pub no_ask: Option<u32>,
    pub last_price: Option<u32>,
    pub volume: u64,
    pub volume_24h: u64,
    pub open_interest: u64,
    pub expiration_time: String,
    /// The minutes until expiry, to one decimal; negative after it.
    pub minutes_to_expiry: String,
}

/// The resting bids of both sides, the best price first: pairs of a price
/// in cents and a quantity.
#[derive(Clone, Debug, PartialEq, Eq)]
pub struct OrderBook {
    pub yes: Vec<(u32, u32)>,
    pub no: Vec<(u32, u32)>,
}

/// Where the reference price is heading.
#[derive(Clone, Copy, Debug, PartialEq, Eq, Structural)]
pub enum MomentumDirection {
    Up,
    Down,
    Flat,
}

/// The figures of one candle of the reference asset: the four prices to no
/// decimal, the volume to one.
#[derive(Clone, Debug, PartialEq, Eq)]
pub struct CandleFigures {
    pub open: String,
    pub high: String,
    pub low: String,
    pub close: String,
    pub volume: String,
}

/// The indicators of the reference asset as figures: the spot price and the
/// average to two decimals, the two changes signed and to three, the
/// volatility to four.
#[derive(Clone, Debug, PartialEq, Eq)]
pub struct PriceSnapshot {
    pub spot_price: String,
    pub pct_change_15m: String,
    pub pct_change_1h: String,
    pub momentum: MomentumDirection,
    pub sma_15m: String,
    pub price_vs_sma: String,
    pub volatility_1m: String,
    /// The latest candles, at most three, oldest first.
    pub last_3_candles: Vec<CandleFigures>,
}

/// All that the adviser is shown in one cycle. It is built anew each cycle
/// and not changed afterwards.
#[derive(Clone, Debug, PartialEq, Eq)]
pub struct DecisionContext {
    pub prompt_md: String,
    pub stats: Stats,
    /// The share of wins in percent, to one decimal.
    pub win_rate_pct: String,
    pub last_n_trades: Vec<LedgerRow>,
    pub market: MarketState,
    pub orderbook: OrderBook,
    /// `None` where the price feed gave nothing this cycle.
    pub btc_price: Option<PriceSnapshot>,
}

fn copy_of(row: &LedgerRow) -> (r: LedgerRow)
    ensures
        r == *row,
{
    LedgerRow {
        timestamp: row.timestamp.clone(),
        ticker: row.ticker.clone(),
        side: row.side,
        shares: row.shares,
        price_cents: row.price_cents,
        result: row.result,
        pnl_cents: row.pnl_cents,
    }
}

/// The latest rows of `ledger`, at most `limit` of them, oldest first.
pub fn latest_rows(ledger: &[LedgerRow], limit: usize) -> (r: Vec<LedgerRow>)
    ensures
        r@ == ledger@.subrange(
            latest_start(ledger@.len() as int, limit as int),
            ledger@.len() as int,
        ),
{
    let n: usize = ledger.len();
    let start: usize = if n > limit {
        n - limit
    } else {
        0
    };
    let mut out: Vec<LedgerRow> = Vec::new();
    let mut i: usize = start;
    while i < n
        invariant
            n == ledger@.len(),
            start <= i <= n,
            out@ == ledger@.subrange(start as int, i as int),
        decreases n - i,
    {
        out.push(copy_of(&ledger[i]));
        proof {
            assert(ledger@.subrange(start as int, i as int).push(ledger@[i as int])
                =~= ledger@.subrange(start as int, i + 1));
        }
        i = i + 1;
    }
    out
}

impl DecisionContext {
    /// Puts the context of one cycle together: the parts as they are given,
    /// and of the ledger its latest `last_n` rows. A part that is absent (a
    /// quote, the reference price) stays absent; nothing is tested.
    pub fn assemble(
        prompt_md: String,
        stats: Stats,
        win_rate_pct: String,
        ledger: &[LedgerRow],
        last_n: usize,
        market: MarketState,
        orderbook: OrderBook,
        btc_price: Option<PriceSnapshot>,
    ) -> (r: DecisionContext)
        ensures
            r.prompt_md == prompt_md,
            r.stats == stats,
            r.win_rate_pct == win_rate_pct,
            r.last_n_trades@ == ledger@.subrange(
                latest_start(ledger@.len() as int, last_n as int),
                ledger@.len() as int,
            ),
            r.market == market,
            r.orderbook == orderbook,
            r.btc_price == btc_price,
    {
        DecisionContext {
            prompt_md,
            stats,
            win_rate_pct,
            last_n_trades: latest_rows(ledger, last_n),
            market,
            orderbook,
            btc_price,
        }
    }
}

} // verus!
