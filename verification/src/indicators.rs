//! The part of the price indicators that is counted rather than measured:
//! which candles of a window are shown.

use vstd::prelude::*;

verus! {

/// Where the latest `limit` items of `len` begin.
pub open spec fn latest_start(len: int, limit: int) -> int {
    if len > limit {
        len - limit
    } else {
        0
    }
}

/// The latest items of `items`, at most `limit` of them, oldest first.
pub open spec fn latest_of<T>(items: Seq<T>, limit: int) -> Seq<T> {
    items.subrange(latest_start(items.len() as int, limit), items.len() as int)
}

/// A window with no candles shows none, whatever the limit; a window of no
/// more than `limit` is shown whole; a longer one shows exactly `limit`,
/// and they are its last.
pub proof fn lemma_latest<T>(items: Seq<T>, limit: int)
    requires
        0 <= limit,
    ensures
        items.len() == 0 ==> latest_of(items, limit).len() == 0,
        items.len() <= limit ==> latest_of(items, limit) == items,
        items.len() > limit ==> latest_of(items, limit).len() == limit,
        forall|k: int|
            0 <= k < latest_of(items, limit).len() ==> latest_of(items, limit)[k] == items[items.len()
                - latest_of(items, limit).len() + k],
{
    if items.len() <= limit {
        assert(latest_of(items, limit) =~= items);
    }
}

/// The latest items of `items`, at most `limit` of them, oldest first.
pub fn latest<T: Copy>(items: &[T], limit: usize) -> (r: Vec<T>)
    ensures
        r@ == latest_of(items@, limit as int),
        items@.len() == 0 ==> r@.len() == 0,
        r@.len() <= limit,
{
    let n: usize = items.len();
    let start: usize = if n > limit {
        n - limit
    } else {
        0
    };
    let mut out: Vec<T> = Vec::new();
    let mut i: usize = start;
    while i < n
        invariant
            n == items@.len(),
            start <= i <= n,
            out@ == items@.subrange(start as int, i as int),
        decreases n - i,
    {
        out.push(items[i]);
        proof {
            assert(items@.subrange(start as int, i as int).push(items@[i as int])
                =~= items@.subrange(start as int, i + 1));
        }
        i = i + 1;
    }
    out
}

/// The candles that are shown with the indicators: the last three of the
/// one-minute window, or all of it if it has fewer, oldest first.
pub fn last_3_candles<T: Copy>(candles_1m: &[T]) -> (r: Vec<T>)
    ensures
        r@ == latest_of(candles_1m@, 3),
        candles_1m@.len() == 0 ==> r@.len() == 0,
        r@.len() <= 3,
{
    latest(candles_1m, 3)
}

} // verus!
