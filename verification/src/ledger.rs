//! The trade ledger: one row per trade, oldest first.

use vstd::prelude::*;
use vstd::string::*;
use crate::text::same_text;

verus! {

/// The side of a binary market that a contract pays on.
#[derive(Clone, Copy, Debug, PartialEq, Eq, Structural)]
pub enum Side {
    Yes,
    No,
}

/// How a trade ended. A row is `Pending` until its market settles.
#[derive(Clone, Copy, Debug, PartialEq, Eq, Structural)]
pub enum Outcome {
    Pending,
    Win,
    Loss,
}

/// One trade. `timestamp` begins with the UTC date as `YYYY-MM-DD`;
/// `pnl_cents` is the signed result of a settled trade.
#[derive(Clone, Debug, PartialEq, Eq)]
pub struct LedgerRow {
    pub timestamp: String,
    pub ticker: String,
    pub side: Side,
    pub shares: u32,
    pub price_cents: u32,
    pub result: Outcome,
    pub pnl_cents: i64,
}

/// A row counts towards the statistics once it is a win or a loss.
pub open spec fn is_settled(row: LedgerRow) -> bool {
    row.result != Outcome::Pending
}

/// The rows of `rows` that are settled, in their order.
pub open spec fn settled_rows(rows: Seq<LedgerRow>) -> Seq<LedgerRow>
    decreases rows.len(),
{
    if rows.len() == 0 {
        Seq::empty()
    } else if is_settled(rows.last()) {
        settled_rows(rows.drop_last()).push(rows.last())
    } else {
        settled_rows(rows.drop_last())
    }
}

/// The side as the ledger writes it.
pub open spec fn side_text(side: Side) -> Seq<char> {
    match side {
        Side::Yes => "yes"@,
        Side::No => "no"@,
    }
}

/// The side in capitals, as a prompt and the adviser name it.
pub open spec fn side_capitals(side: Side) -> Seq<char> {
    match side {
        Side::Yes => "YES"@,
        Side::No => "NO"@,
    }
}

/// The outcome as the ledger writes it.
pub open spec fn outcome_text(outcome: Outcome) -> Seq<char> {
    match outcome {
        Outcome::Pending => "pending"@,
        Outcome::Win => "win"@,
        Outcome::Loss => "loss"@,
    }
}

/// The side that a text of the ledger names.
pub open spec fn side_named(text: Seq<char>) -> Option<Side> {
    if text == "yes"@ {
        Some(Side::Yes)
    } else if text == "no"@ {
        Some(Side::No)
    } else {
        None
    }
}

/// The outcome that a text of the ledger names.
pub open spec fn outcome_named(text: Seq<char>) -> Option<Outcome> {
    if text == "pending"@ {
        Some(Outcome::Pending)
    } else if text == "win"@ {
        Some(Outcome::Win)
    } else if text == "loss"@ {
        Some(Outcome::Loss)
    } else {
        None
    }
}

/// What the ledger writes for a side or an outcome is read back as it.
pub proof fn lemma_names_read_back(side: Side, outcome: Outcome)
    ensures
        side_named(side_text(side)) == Some(side),
        outcome_named(outcome_text(outcome)) == Some(outcome),
{
    reveal_strlit("yes");
    reveal_strlit("no");
    reveal_strlit("pending");
    reveal_strlit("win");
    reveal_strlit("loss");
    assert("yes"@.len() != "no"@.len());
    assert("pending"@.len() != "win"@.len());
    assert("pending"@.len() != "loss"@.len());
    assert("win"@.len() != "loss"@.len());
}

impl Side {
    /// The side as the ledger writes it: `yes` or `no`.
    pub fn name(self) -> (r: &'static str)
        ensures
            r@ == side_text(self),
    {
        match self {
            Side::Yes => "yes",
            Side::No => "no",
        }
    }

    /// The side in capitals: `YES` or `NO`.
    pub fn capitals(self) -> (r: &'static str)
        ensures
            r@ == side_capitals(self),
    {
        match self {
            Side::Yes => "YES",
            Side::No => "NO",
        }
    }

    /// Reads a side as the ledger writes it.
    pub fn named(text: &str) -> (r: Option<Side>)
        ensures
            r == side_named(text@),
    {
        if same_text(text, "yes") {
            Some(Side::Yes)
        } else if same_text(text, "no") {
            Some(Side::No)
        } else {
            None
        }
    }
}

impl Outcome {
    /// The outcome as the ledger writes it: `pending`, `win` or `loss`.
    pub fn name(self) -> (r: &'static str)
        ensures
            r@ == outcome_text(self),
    {
        match self {
            Outcome::Pending => "pending",
            Outcome::Win => "win",
            Outcome::Loss => "loss",
        }
    }

    /// Reads an outcome as the ledger writes it.
    pub fn named(text: &str) -> (r: Option<Outcome>)
        ensures
            r == outcome_named(text@),
    {
        if same_text(text, "pending") {
            Some(Outcome::Pending)
        } else if same_text(text, "win") {
            Some(Outcome::Win)
        } else if same_text(text, "loss") {
            Some(Outcome::Loss)
        } else {
            None
        }
    }
}

/// Why a row was not settled.
#[derive(Clone, Copy, Debug, PartialEq, Eq, Structural)]
pub enum SettleError {
    /// The row is a win or a loss already, and stays what it is.
    AlreadySettled,
    /// `Pending` is no result to settle with.
    NotAResult,
}

/// What settling `row` with `outcome` and `pnl_cents` gives: the row with
/// its result and its profit and loss set, where the row is pending and the
/// outcome is a win or a loss.
pub open spec fn settled_as(row: LedgerRow, outcome: Outcome, pnl_cents: i64) -> Result<
    LedgerRow,
    SettleError,
> {
    if row.result != Outcome::Pending {
        Err(SettleError::AlreadySettled)
    } else if outcome == Outcome::Pending {
        Err(SettleError::NotAResult)
    } else {
        Ok(
            LedgerRow {
                timestamp: row.timestamp,
                ticker: row.ticker,
                side: row.side,
                shares: row.shares,
                price_cents: row.price_cents,
                result: outcome,
                pnl_cents,
            },
        )
    }
}

/// The latest pending row on `ticker`, if there is one: the position that is open.
pub open spec fn open_position(rows: Seq<LedgerRow>, ticker: Seq<char>) -> Option<int>
    decreases rows.len(),
{
    if rows.len() == 0 {
        None
    } else if rows.last().result == Outcome::Pending && rows.last().ticker@ == ticker {
        Some(rows.len() - 1)
    } else {
        open_position(rows.drop_last(), ticker)
    }
}

/// What `open_position` finds is a pending row on the ticker, and no later
/// row is one.
pub proof fn lemma_open_position(rows: Seq<LedgerRow>, ticker: Seq<char>)
    ensures
        match open_position(rows, ticker) {
            Some(i) => 0 <= i < rows.len() && rows[i].result == Outcome::Pending && rows[i].ticker@
                == ticker && forall|j: int|
                i < j < rows.len() ==> !(rows[j].result == Outcome::Pending && rows[j].ticker@
                    == ticker),
            None => forall|j: int|
                0 <= j < rows.len() ==> !(rows[j].result == Outcome::Pending && rows[j].ticker@
                    == ticker),
        },
    decreases rows.len(),
{
    if rows.len() > 0 {
        let front = rows.drop_last();
        lemma_open_position(front, ticker);
        if !(rows.last().result == Outcome::Pending && rows.last().ticker@ == ticker) {
            match open_position(front, ticker) {
                Some(i) => {
                    assert(front[i] == rows[i]);
                    assert forall|j: int| i < j < rows.len() implies !(rows[j].result
                        == Outcome::Pending && rows[j].ticker@ == ticker) by {
                        if j < front.len() {
                            assert(front[j] == rows[j]);
                        }
                    }
                },
                None => {
                    assert forall|j: int| 0 <= j < rows.len() implies !(rows[j].result
                        == Outcome::Pending && rows[j].ticker@ == ticker) by {
                        if j < front.len() {
                            assert(front[j] == rows[j]);
                        }
                    }
                },
            }
        }
    }
}

/// Finds the position that is open on `ticker`: the index of the latest
/// pending row on it.
pub fn find_open_position(ledger: &[LedgerRow], ticker: &str) -> (r: Option<usize>)
    ensures
        match r {
            Some(i) => open_position(ledger@, ticker@) == Some(i as int),
            None => open_position(ledger@, ticker@) is None,
        },
{
    let n: usize = ledger.len();
    let mut i: usize = n;
    proof {
        assert(ledger@.take(n as int) =~= ledger@);
    }
    while i > 0
        invariant
            n == ledger@.len(),
            i <= n,
            open_position(ledger@, ticker@) == open_position(ledger@.take(i as int), ticker@),
        decreases i,
    {
        proof {
            assert(ledger@.take(i as int).drop_last() =~= ledger@.take(i - 1));
        }
        let row = &ledger[i - 1];
        let pending = match row.result {
            Outcome::Pending => true,
            _ => false,
        };
        if pending && same_text(row.ticker.as_str(), ticker) {
            return Some(i - 1);
        }
        i = i - 1;
    }
    None
}

impl LedgerRow {
    /// A row for a trade that has just been placed: pending, with no profit
    /// or loss yet.
    pub fn opened(timestamp: String, ticker: String, side: Side, shares: u32, price_cents: u32) -> (r:
        LedgerRow)
        ensures
            r == (LedgerRow {
                timestamp,
                ticker,
                side,
                shares,
                price_cents,
                result: Outcome::Pending,
                pnl_cents: 0,
            }),
    {
        LedgerRow {
            timestamp,
            ticker,
            side,
            shares,
            price_cents,
            result: Outcome::Pending,
            pnl_cents: 0,
        }
    }

    /// Settles the row: sets its result and its profit and loss. A row is
    /// settled once: one that is a win or a loss already is left as it is,
    /// and so is any row where `outcome` is `Pending`.
    pub fn settle(&mut self, outcome: Outcome, pnl_cents: i64) -> (r: Result<(), SettleError>)
        ensures
            match settled_as(*old(self), outcome, pnl_cents) {
                Ok(row) => r is Ok && *final(self) == row,
                Err(e) => r == Err::<(), SettleError>(e) && *final(self) == *old(self),
            },
    {
        match self.result {
            Outcome::Pending => {},
            _ => {
                return Err(SettleError::AlreadySettled);
            },
        }
        match outcome {
            Outcome::Pending => Err(SettleError::NotAResult),
            _ => {
                self.result = outcome;
                self.pnl_cents = pnl_cents;
                Ok(())
            },
        }
    }
}

/// A settled row stays as it is, whatever it is settled with again.
pub proof fn lemma_settled_rows_are_final(row: LedgerRow, outcome: Outcome, pnl_cents: i64)
    requires
        is_settled(row),
    ensures
        settled_as(row, outcome, pnl_cents) == Err::<LedgerRow, SettleError>(
            SettleError::AlreadySettled,
        ),
{
}

/// Settling changes the result and the profit and loss and nothing else, and
/// what it gives is settled.
pub proof fn lemma_settling_settles(row: LedgerRow, outcome: Outcome, pnl_cents: i64)
    requires
        settled_as(row, outcome, pnl_cents) is Ok,
    ensures
        !is_settled(row),
        is_settled(settled_as(row, outcome, pnl_cents)->Ok_0),
        settled_as(row, outcome, pnl_cents)->Ok_0.result == outcome,
        settled_as(row, outcome, pnl_cents)->Ok_0.pnl_cents == pnl_cents,
        settled_as(row, outcome, pnl_cents)->Ok_0.timestamp == row.timestamp,
        settled_as(row, outcome, pnl_cents)->Ok_0.ticker == row.ticker,
        settled_as(row, outcome, pnl_cents)->Ok_0.side == row.side,
        settled_as(row, outcome, pnl_cents)->Ok_0.shares == row.shares,
        settled_as(row, outcome, pnl_cents)->Ok_0.price_cents == row.price_cents,
{
}

} // verus!
