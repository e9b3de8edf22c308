//! Rolling statistics of the ledger, recomputed in full from its settled rows.

use vstd::prelude::*;
use crate::clock::today_utc;
use crate::ledger::{is_settled, settled_rows, LedgerRow, Outcome};
use crate::text::starts_with;

verus! {

/// The aggregates of the settled trades. The win rate is `wins` over
/// `total_trades`, the mean win `win_pnl_cents` over `wins`, the mean loss
/// `loss_pnl_cents` over `losses`.
#[derive(Clone, Copy, Debug, PartialEq, Eq, Structural)]
pub struct Stats {
    pub total_trades: u64,
    pub wins: u64,
    pub losses: u64,
    pub total_pnl_cents: i64,
    pub today_pnl_cents: i64,
    /// Positive: wins in a row up to the latest settled trade; negative: losses.
    pub current_streak: i64,
    pub max_drawdown_cents: i64,
    pub win_pnl_cents: i64,
    pub loss_pnl_cents: i64,
}

/// A choice of rows to aggregate over.
pub enum Pick {
    /// Every settled row.
    Settled,
    /// The wins.
    Won,
    /// The losses.
    Lost,
    /// The settled rows whose timestamp begins with this date.
    On(Seq<char>),
}

/// Whether `pick` takes `row`. No pick takes a pending row.
pub open spec fn picks(pick: Pick, row: LedgerRow) -> bool {
    match pick {
        Pick::Settled => is_settled(row),
        Pick::Won => row.result == Outcome::Win,
        Pick::Lost => row.result == Outcome::Loss,
        Pick::On(day) => is_settled(row) && day.is_prefix_of(row.timestamp@),
    }
}

/// How many rows `pick` takes.
pub open spec fn tally(rows: Seq<LedgerRow>, pick: Pick) -> nat
    decreases rows.len(),
{
    if rows.len() == 0 {
        0
    } else {
        tally(rows.drop_last(), pick) + if picks(pick, rows.last()) {
            1nat
        } else {
            0nat
        }
    }
}

/// The profit and loss of the rows that `pick` takes, summed.
pub open spec fn total(rows: Seq<LedgerRow>, pick: Pick) -> int
    decreases rows.len(),
{
    if rows.len() == 0 {
        0
    } else {
        total(rows.drop_last(), pick) + if picks(pick, rows.last()) {
            rows.last().pnl_cents as int
        } else {
            0
        }
    }
}

/// How many settled rows at the end of `rows` ended as `outcome`, one after
/// the other, pending rows between them passed over.
pub open spec fn run_length(rows: Seq<LedgerRow>, outcome: Outcome) -> nat
    decreases rows.len(),
{
    if rows.len() == 0 {
        0
    } else if rows.last().result == Outcome::Pending {
        run_length(rows.drop_last(), outcome)
    } else if rows.last().result == outcome {
        1 + run_length(rows.drop_last(), outcome)
    } else {
        0
    }
}

/// The signed streak: the run of wins that ends the ledger, or minus the run
/// of losses. At most one of the two runs is not empty.
pub open spec fn streak(rows: Seq<LedgerRow>) -> int {
    run_length(rows, Outcome::Win) - run_length(rows, Outcome::Loss)
}

/// The highest cumulative profit that the ledger has reached, counted from
/// zero before the first trade.
pub open spec fn peak(rows: Seq<LedgerRow>) -> int
    decreases rows.len(),
{
    if rows.len() == 0 {
        0
    } else {
        let before = peak(rows.drop_last());
        let now = total(rows, Pick::Settled);
        if now > before {
            now
        } else {
            before
        }
    }
}

/// The deepest fall of the cumulative profit below its earlier peak.
pub open spec fn drawdown(rows: Seq<LedgerRow>) -> int
    decreases rows.len(),
{
    if rows.len() == 0 {
        0
    } else {
        let before = drawdown(rows.drop_last());
        let now = peak(rows) - total(rows, Pick::Settled);
        if now > before {
            now
        } else {
            before
        }
    }
}

/// Whether `x` can be held in an `i64`.
pub open spec fn fits_i64(x: int) -> bool {
    i64::MIN <= x <= i64::MAX
}

/// Whether every aggregate of `rows`, with `day` as today, can be held in its field.
pub open spec fn aggregates_fit(rows: Seq<LedgerRow>, day: Seq<char>) -> bool {
    &&& fits_i64(total(rows, Pick::Settled))
    &&& fits_i64(total(rows, Pick::On(day)))
    &&& fits_i64(total(rows, Pick::Won))
    &&& fits_i64(total(rows, Pick::Lost))
    &&& fits_i64(streak(rows))
    &&& fits_i64(drawdown(rows))
}

/// The statistics of `rows` with `day` as today's date.
pub open spec fn aggregates(rows: Seq<LedgerRow>, day: Seq<char>) -> Stats {
    Stats {
        total_trades: tally(rows, Pick::Settled) as u64,
        wins: tally(rows, Pick::Won) as u64,
        losses: tally(rows, Pick::Lost) as u64,
        total_pnl_cents: total(rows, Pick::Settled) as i64,
        today_pnl_cents: total(rows, Pick::On(day)) as i64,
        current_streak: streak(rows) as i64,
        max_drawdown_cents: drawdown(rows) as i64,
        win_pnl_cents: total(rows, Pick::Won) as i64,
        loss_pnl_cents: total(rows, Pick::Lost) as i64,
    }
}

/// The statistics of `rows` on `day`, where every aggregate fits its field.
pub open spec fn stats_on(rows: Seq<LedgerRow>, day: Seq<char>) -> Option<Stats> {
    if aggregates_fit(rows, day) {
        Some(aggregates(rows, day))
    } else {
        None
    }
}

/// The largest amount by which one row can move a sum.
pub open spec fn step_bound() -> int {
    0x8000_0000_0000_0000
}

/// A pick takes no more rows than there are, and a sum moves by at most
/// `step_bound()` for each row.
pub proof fn lemma_bounds(rows: Seq<LedgerRow>, pick: Pick)
    ensures
        tally(rows, pick) <= rows.len(),
        -(rows.len() * step_bound()) <= total(rows, pick) <= rows.len() * step_bound(),
    decreases rows.len(),
{
    if rows.len() > 0 {
        lemma_bounds(rows.drop_last(), pick);
    }
}

/// The peak is never negative, never below the cumulative profit, and at most
/// `step_bound()` for each row.
pub proof fn lemma_peak_bounds(rows: Seq<LedgerRow>)
    ensures
        0 <= peak(rows) <= rows.len() * step_bound(),
        total(rows, Pick::Settled) <= peak(rows),
        0 <= drawdown(rows),
    decreases rows.len(),
{
    lemma_bounds(rows, Pick::Settled);
    if rows.len() > 0 {
        lemma_peak_bounds(rows.drop_last());
    }
}

/// The drawdown of a ledger is at least that of each of its beginnings.
pub proof fn lemma_drawdown_grows(rows: Seq<LedgerRow>, k: int)
    requires
        0 <= k <= rows.len(),
    ensures
        drawdown(rows.take(k)) <= drawdown(rows),
    decreases rows.len() - k,
{
    if k < rows.len() {
        lemma_drawdown_grows(rows.drop_last(), k);
        assert(rows.drop_last().take(k) =~= rows.take(k));
    } else {
        assert(rows.take(k) =~= rows);
    }
}

/// The fall of the cumulative profit below its peak after the first `k` rows.
pub open spec fn fall_at(rows: Seq<LedgerRow>, k: int) -> int {
    peak(rows.take(k)) - total(rows.take(k), Pick::Settled)
}

/// The peak is the highest cumulative profit after any number of rows, none
/// included: no beginning of the ledger sums to more, and one sums to it.
pub proof fn lemma_peak_is_the_highest(rows: Seq<LedgerRow>)
    ensures
        forall|k: int|
            0 <= k <= rows.len() ==> #[trigger] total(rows.take(k), Pick::Settled) <= peak(rows),
        exists|k: int|
            0 <= k <= rows.len() && #[trigger] total(rows.take(k), Pick::Settled) == peak(rows),
    decreases rows.len(),
{
    if rows.len() == 0 {
        assert(rows.take(0) =~= rows);
        assert(total(rows.take(0), Pick::Settled) == peak(rows));
    } else {
        let front = rows.drop_last();
        lemma_peak_is_the_highest(front);
        assert(rows.take(rows.len() as int) =~= rows);
        assert forall|k: int| 0 <= k <= rows.len() implies #[trigger] total(
            rows.take(k),
            Pick::Settled,
        ) <= peak(rows) by {
            if k < rows.len() {
                assert(front.take(k) =~= rows.take(k));
            }
        }
        if peak(rows) != total(rows, Pick::Settled) {
            let k = choose|k: int|
                0 <= k <= front.len() && #[trigger] total(front.take(k), Pick::Settled) == peak(
                    front,
                );
            assert(front.take(k) =~= rows.take(k));
            assert(total(rows.take(k), Pick::Settled) == peak(rows));
        } else {
            assert(total(rows.take(rows.len() as int), Pick::Settled) == peak(rows));
        }
    }
}

/// The drawdown is the deepest fall below the peak after any number of
/// rows: no fall is deeper, and one is as deep.
pub proof fn lemma_drawdown_is_the_deepest_fall(rows: Seq<LedgerRow>)
    ensures
        forall|k: int| 0 <= k <= rows.len() ==> #[trigger] fall_at(rows, k) <= drawdown(rows),
        exists|k: int| 0 <= k <= rows.len() && #[trigger] fall_at(rows, k) == drawdown(rows),
    decreases rows.len(),
{
    if rows.len() == 0 {
        assert(rows.take(0) =~= rows);
        assert(fall_at(rows, 0) == drawdown(rows));
    } else {
        let front = rows.drop_last();
        lemma_drawdown_is_the_deepest_fall(front);
        assert(rows.take(rows.len() as int) =~= rows);
        assert forall|k: int| 0 <= k <= rows.len() implies #[trigger] fall_at(rows, k)
            <= drawdown(rows) by {
            if k < rows.len() {
                assert(front.take(k) =~= rows.take(k));
                assert(fall_at(front, k) == fall_at(rows, k));
            }
        }
        if drawdown(rows) == peak(rows) - total(rows, Pick::Settled) {
            assert(fall_at(rows, rows.len() as int) == drawdown(rows));
        } else {
            let k = choose|k: int| 0 <= k <= front.len() && #[trigger] fall_at(front, k)
                == drawdown(front);
            assert(front.take(k) =~= rows.take(k));
            assert(fall_at(rows, k) == drawdown(rows));
        }
    }
}

/// A run is no longer than the ledger, and a ledger that ends in a run of
/// wins ends in no run of losses.
pub proof fn lemma_runs(rows: Seq<LedgerRow>)
    ensures
        run_length(rows, Outcome::Win) <= rows.len(),
        run_length(rows, Outcome::Loss) <= rows.len(),
        run_length(rows, Outcome::Win) == 0 || run_length(rows, Outcome::Loss) == 0,
    decreases rows.len(),
{
    if rows.len() > 0 {
        lemma_runs(rows.drop_last());
    }
}

/// The deepest peak-to-trough fall of the cumulative profit over the settled
/// rows, oldest first; `None` where it is more than an `i64` holds.
pub fn max_drawdown(trades: &[LedgerRow]) -> (r: Option<i64>)
    ensures
        r == if drawdown(trades@) <= i64::MAX {
            Some(drawdown(trades@) as i64)
        } else {
            None
        },
{
    let n: usize = trades.len();
    let mut high: i128 = 0;
    let mut running: i128 = 0;
    let mut worst: i64 = 0;
    let mut i: usize = 0;
    while i < n
        invariant
            n == trades@.len(),
            i <= n,
            running == total(trades@.take(i as int), Pick::Settled),
            high == peak(trades@.take(i as int)),
            worst == drawdown(trades@.take(i as int)),
        decreases n - i,
    {
        let ghost before = trades@.take(i as int);
        let ghost after = trades@.take(i + 1);
        proof {
            assert(after.drop_last() =~= before);
            lemma_bounds(before, Pick::Settled);
            lemma_peak_bounds(before);
            lemma_peak_bounds(after);
        }
        let row = &trades[i];
        match row.result {
            Outcome::Pending => {},
            _ => {
                running = running + row.pnl_cents as i128;
            },
        }
        if running > high {
            high = running;
        }
        if running < high - 0x7fff_ffff_ffff_ffff {
            proof {
                lemma_drawdown_grows(trades@, i + 1);
            }
            return None;
        }
        let fall: i64 = (high - running) as i64;
        if fall > worst {
            worst = fall;
        }
        i = i + 1;
    }
    assert(trades@.take(n as int) =~= trades@);
    Some(worst)
}

/// The signed streak that ends the ledger; `None` where it is more than an
/// `i64` holds.
pub fn current_streak(trades: &[LedgerRow]) -> (r: Option<i64>)
    ensures
        r == if fits_i64(streak(trades@)) {
            Some(streak(trades@) as i64)
        } else {
            None
        },
{
    let n: usize = trades.len();
    let mut won: u64 = 0;
    let mut lost: u64 = 0;
    let mut scanning: bool = true;
    let mut i: usize = n;
    proof {
        assert(trades@.take(n as int) =~= trades@);
    }
    while i > 0 && scanning
        invariant
            n == trades@.len(),
            i <= n,
            won + lost <= n - i,
            won == 0 || lost == 0,
            run_length(trades@, Outcome::Win) == if lost > 0 {
                0
            } else if scanning {
                won + run_length(trades@.take(i as int), Outcome::Win)
            } else {
                won as int
            },
            run_length(trades@, Outcome::Loss) == if won > 0 {
                0
            } else if scanning {
                lost + run_length(trades@.take(i as int), Outcome::Loss)
            } else {
                lost as int
            },
        decreases
                i + if scanning {
                    1int
                } else {
                    0int
                },
    {
        proof {
            assert(trades@.take(i as int).drop_last() =~= trades@.take(i - 1));
        }
        let row = &trades[i - 1];
        match row.result {
            Outcome::Pending => {
                i = i - 1;
            },
            Outcome::Win => {
                if lost > 0 {
                    scanning = false;
                } else {
                    won = won + 1;
                    i = i - 1;
                }
            },
            Outcome::Loss => {
                if won > 0 {
                    scanning = false;
                } else {
                    lost = lost + 1;
                    i = i - 1;
                }
            },
        }
    }
    proof {
        if scanning {
            assert(trades@.take(0).len() == 0);
            assert(run_length(trades@.take(0), Outcome::Win) == 0);
            assert(run_length(trades@.take(0), Outcome::Loss) == 0);
        }
    }
    if won > 0x7fff_ffff_ffff_ffff || lost > 0x8000_0000_0000_0000 {
        None
    } else if won > 0 {
        Some(won as i64)
    } else if lost == 0x8000_0000_0000_0000 {
        Some(i64::MIN)
    } else {
        Some(-(lost as i64))
    }
}

/// The statistics of the ledger, oldest row first, with `day` (as
/// `YYYY-MM-DD`) as today's date: a row counts towards today's profit and
/// loss where its timestamp begins with `day`. Pending rows count towards
/// nothing. `None` where an aggregate is more than its field holds.
pub fn compute_on(ledger: &[LedgerRow], day: &str) -> (r: Option<Stats>)
    ensures
        r == stats_on(ledger@, day@),
        r matches Some(s) ==> s.total_trades == s.wins + s.losses,
{
    let n: usize = ledger.len();
    let mut wins: u64 = 0;
    let mut losses: u64 = 0;
    let mut all: i128 = 0;
    let mut today: i128 = 0;
    let mut won: i128 = 0;
    let mut lost: i128 = 0;
    let mut i: usize = 0;
    while i < n
        invariant
            n == ledger@.len(),
            i <= n,
            wins == tally(ledger@.take(i as int), Pick::Won),
            losses == tally(ledger@.take(i as int), Pick::Lost),
            wins + losses == tally(ledger@.take(i as int), Pick::Settled),
            wins + losses <= i,
            all == total(ledger@.take(i as int), Pick::Settled),
            today == total(ledger@.take(i as int), Pick::On(day@)),
            won == total(ledger@.take(i as int), Pick::Won),
            lost == total(ledger@.take(i as int), Pick::Lost),
        decreases n - i,
    {
        let ghost before = ledger@.take(i as int);
        proof {
            assert(ledger@.take(i + 1).drop_last() =~= before);
            lemma_bounds(before, Pick::Settled);
            lemma_bounds(before, Pick::On(day@));
            lemma_bounds(before, Pick::Won);
            lemma_bounds(before, Pick::Lost);
        }
        let row = &ledger[i];
        let amount: i128 = row.pnl_cents as i128;
        match row.result {
            Outcome::Pending => {},
            Outcome::Win => {
                wins = wins + 1;
                all = all + amount;
                won = won + amount;
                if starts_with(row.timestamp.as_str(), day) {
                    today = today + amount;
                }
            },
            Outcome::Loss => {
                losses = losses + 1;
                all = all + amount;
                lost = lost + amount;
                if starts_with(row.timestamp.as_str(), day) {
                    today = today + amount;
                }
            },
        }
        i = i + 1;
    }
    assert(ledger@.take(n as int) =~= ledger@);
    let run = current_streak(ledger);
    let fall = max_drawdown(ledger);
    if !in_i64(all) || !in_i64(today) || !in_i64(won) || !in_i64(lost) {
        return None;
    }
    match (run, fall) {
        (Some(current_streak), Some(max_drawdown_cents)) => Some(
            Stats {
                total_trades: wins + losses,
                wins,
                losses,
                total_pnl_cents: all as i64,
                today_pnl_cents: today as i64,
                current_streak,
                max_drawdown_cents,
                win_pnl_cents: won as i64,
                loss_pnl_cents: lost as i64,
            },
        ),
        _ => None,
    }
}

/// The statistics of the ledger as of today, by the system clock in UTC.
/// Whatever date the clock gives, the result is `stats_on` for that date.
pub fn compute(ledger: &[LedgerRow]) -> (r: Option<Stats>)
    ensures
        exists|day: Seq<char>| r == stats_on(ledger@, day),
        r matches Some(s) ==> s.total_trades == s.wins + s.losses,
{
    let day = today_utc();
    compute_on(ledger, day.as_str())
}

/// Every settled row is a win or a loss, so the settled trades are the wins
/// and the losses together.
pub proof fn lemma_total_is_wins_and_losses(rows: Seq<LedgerRow>)
    ensures
        tally(rows, Pick::Settled) == tally(rows, Pick::Won) + tally(rows, Pick::Lost),
    decreases rows.len(),
{
    if rows.len() > 0 {
        lemma_total_is_wins_and_losses(rows.drop_last());
    }
}

/// Pending rows count towards nothing: every aggregate of a ledger is that
/// aggregate of its settled rows alone.
pub proof fn lemma_pending_rows_do_not_count(rows: Seq<LedgerRow>, pick: Pick)
    ensures
        tally(rows, pick) == tally(settled_rows(rows), pick),
        total(rows, pick) == total(settled_rows(rows), pick),
        run_length(rows, Outcome::Win) == run_length(settled_rows(rows), Outcome::Win),
        run_length(rows, Outcome::Loss) == run_length(settled_rows(rows), Outcome::Loss),
        peak(rows) == peak(settled_rows(rows)),
        drawdown(rows) == drawdown(settled_rows(rows)),
    decreases rows.len(),
{
    if rows.len() > 0 {
        let front = rows.drop_last();
        lemma_pending_rows_do_not_count(front, pick);
        lemma_pending_rows_do_not_count(front, Pick::Settled);
        if is_settled(rows.last()) {
            let kept = settled_rows(front).push(rows.last());
            assert(kept.drop_last() =~= settled_rows(front));
            assert(kept.last() == rows.last());
        }
    }
}

/// The statistics of a ledger are those of its settled rows alone, whatever
/// the day.
pub proof fn lemma_stats_ignore_pending(rows: Seq<LedgerRow>, day: Seq<char>)
    ensures
        stats_on(rows, day) == stats_on(settled_rows(rows), day),
{
    lemma_pending_rows_do_not_count(rows, Pick::Settled);
    lemma_pending_rows_do_not_count(rows, Pick::Won);
    lemma_pending_rows_do_not_count(rows, Pick::Lost);
    lemma_pending_rows_do_not_count(rows, Pick::On(day));
}

/// The statistics are a function of the rows and the day and of nothing
/// else: computed again from the same snapshot on the same day, they are the
/// same.
pub proof fn lemma_recomputed_stats_agree(
    first: Seq<LedgerRow>,
    second: Seq<LedgerRow>,
    day: Seq<char>,
    again: Seq<char>,
)
    requires
        first =~= second,
        day =~= again,
    ensures
        stats_on(first, day) == stats_on(second, again),
{
}

fn in_i64(x: i128) -> (r: bool)
    ensures
        r == fits_i64(x as int),
{
    -0x8000_0000_0000_0000 <= x && x <= 0x7fff_ffff_ffff_ffff
}

} // verus!
