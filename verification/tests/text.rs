use decision_core::context::{latest_rows, DecisionContext, MarketState, OrderBook};
use decision_core::indicators::{last_3_candles, latest};
use decision_core::ledger::{LedgerRow, Outcome, Side};
use decision_core::stats::Stats;
use decision_core::text::{
    chars_of, find_char, find_from, is_whitespace, push_decimal, push_signed, rfind_char,
    starts_with, trim, trim_bounds,
};

fn chars(s: &str) -> Vec<char> {
    s.chars().collect()
}

#[test]
fn characters_are_taken_in_order() {
    assert_eq!(chars_of("a¢b"), vec!['a', '¢', 'b']);
    assert_eq!(chars_of(""), Vec::<char>::new());
}

#[test]
fn decimal_numerals_have_no_leading_zeros() {
    let mut out = String::from("n=");
    push_decimal(&mut out, 0);
    out.push(',');
    push_decimal(&mut out, 7);
    out.push(',');
    push_decimal(&mut out, 10);
    out.push(',');
    push_decimal(&mut out, 1_234_567_890);
    out.push(',');
    push_decimal(&mut out, u128::MAX);
    assert_eq!(out, "n=0,7,10,1234567890,340282366920938463463374607431768211455");
}

#[test]
fn signed_numerals_carry_a_minus_sign() {
    let mut out = String::new();
    push_signed(&mut out, -1);
    out.push(' ');
    push_signed(&mut out, 0);
    out.push(' ');
    push_signed(&mut out, 305);
    out.push(' ');
    push_signed(&mut out, i128::MIN);
    out.push(' ');
    push_signed(&mut out, i128::MAX);
    assert_eq!(
        out,
        "-1 0 305 -170141183460469231731687303715884105728 170141183460469231731687303715884105727"
    );
}

#[test]
fn white_space_is_what_the_standard_library_takes_for_it() {
    for code in 0u32..0x11_0000 {
        if let Some(c) = char::from_u32(code) {
            assert_eq!(is_whitespace(c), c.is_whitespace(), "U+{:04X}", code);
        }
    }
}

#[test]
fn pattern_is_found_at_its_first_place() {
    let hay = chars("abcabcabd");
    assert_eq!(find_from(&hay, &chars("abc"), 0), Some(0));
    assert_eq!(find_from(&hay, &chars("abc"), 1), Some(3));
    assert_eq!(find_from(&hay, &chars("abd"), 0), Some(6));
    assert_eq!(find_from(&hay, &chars("abd"), 7), None);
    assert_eq!(find_from(&hay, &chars("abe"), 0), None);
    assert_eq!(find_from(&hay, &chars("abcabcabdx"), 0), None);
    assert_eq!(find_from(&hay, &chars(""), 4), Some(4));
    assert_eq!(find_from(&hay, &chars(""), 9), Some(9));
    assert_eq!(find_from(&hay, &chars(""), 10), None);
    assert_eq!(find_from(&chars(""), &chars("a"), 0), None);
    assert_eq!(find_from(&chars("aab"), &chars("ab"), 0), Some(1));
}

#[test]
fn character_is_found_from_both_ends() {
    let hay = chars("a{b}c{d}e");
    assert_eq!(find_char(&hay, '{', 0), Some(1));
    assert_eq!(find_char(&hay, '{', 2), Some(5));
    assert_eq!(find_char(&hay, '{', 6), None);
    assert_eq!(find_char(&hay, '{', 99), None);
    assert_eq!(rfind_char(&hay, '}'), Some(7));
    assert_eq!(rfind_char(&hay, 'a'), Some(0));
    assert_eq!(rfind_char(&hay, 'z'), None);
    assert_eq!(rfind_char(&chars(""), 'z'), None);
}

#[test]
fn trimming_takes_white_space_from_both_ends_only() {
    assert_eq!(trim("  a b \n"), "a b");
    assert_eq!(trim("a"), "a");
    assert_eq!(trim(""), "");
    assert_eq!(trim(" \t\r\n"), "");
    assert_eq!(trim("\u{3000}¢ x\u{2003}"), "¢ x");
    assert_eq!(trim_bounds(&chars("  ab ")), (2, 4));
    assert_eq!(trim_bounds(&chars("   ")), (3, 3));
    for text in ["  a b \n", "\u{a0}x\u{85}", "\u{feff}x", "\u{200b}x\u{200b}", " \u{1680} "] {
        assert_eq!(trim(text), text.trim());
    }
}

#[test]
fn prefix_is_tested_character_by_character() {
    assert!(starts_with("2024-03-01T10:00:00Z", "2024-03-01"));
    assert!(!starts_with("2024-03-01T10:00:00Z", "2024-03-02"));
    assert!(starts_with("abc", ""));
    assert!(starts_with("abc", "abc"));
    assert!(!starts_with("abc", "abcd"));
    assert!(!starts_with("", "a"));
    assert!(starts_with("¢¢", "¢"));
}

#[test]
fn latest_items_keep_their_order() {
    assert_eq!(latest(&[1, 2, 3, 4, 5], 3), vec![3, 4, 5]);
    assert_eq!(latest(&[1, 2], 3), vec![1, 2]);
    assert_eq!(latest(&[1, 2, 3], 3), vec![1, 2, 3]);
    assert_eq!(latest(&[1, 2, 3], 0), Vec::<i32>::new());
    assert_eq!(latest::<i32>(&[], 3), Vec::<i32>::new());
    assert_eq!(latest(&[1, 2, 3], usize::MAX), vec![1, 2, 3]);
}

fn row(n: i64) -> LedgerRow {
    LedgerRow {
        timestamp: format!("2024-03-01T10:00:{:02}Z", n),
        ticker: "T".to_string(),
        side: Side::No,
        shares: 1,
        price_cents: 50,
        result: Outcome::Win,
        pnl_cents: n,
    }
}

#[test]
fn context_takes_the_latest_rows_of_the_ledger() {
    let ledger = vec![row(1), row(2), row(3), row(4)];
    assert_eq!(latest_rows(&ledger, 2), vec![row(3), row(4)]);
    assert_eq!(latest_rows(&ledger, 9), ledger);
    let stats = Stats {
        total_trades: 4,
        wins: 4,
        losses: 0,
        total_pnl_cents: 10,
        today_pnl_cents: 0,
        current_streak: 4,
        max_drawdown_cents: 0,
        win_pnl_cents: 10,
        loss_pnl_cents: 0,
    };
    let market = MarketState {
        ticker: "T".to_string(),
        title: "t".to_string(),
        yes_bid: None,
        yes_ask: None,
        no_bid: None,
        no_ask: None,
        last_price: None,
        volume: 0,
        volume_24h: 0,
        open_interest: 0,
        expiration_time: "x".to_string(),
        minutes_to_expiry: "-0.5".to_string(),
    };
    let book = OrderBook { yes: vec![], no: vec![(1, 2)] };
    let ctx = DecisionContext::assemble(
        "p".to_string(),
        stats,
        "100.0".to_string(),
        &ledger,
        3,
        market.clone(),
        book.clone(),
        None,
    );
    assert_eq!(
        ctx,
        DecisionContext {
            prompt_md: "p".to_string(),
            stats,
            win_rate_pct: "100.0".to_string(),
            last_n_trades: vec![row(2), row(3), row(4)],
            market,
            orderbook: book,
            btc_price: None,
        }
    );
}

#[test]
fn candles_shown_are_the_last_three() {
    assert_eq!(last_3_candles::<f64>(&[]), Vec::<f64>::new());
    assert_eq!(last_3_candles(&[1.5]), vec![1.5]);
    assert_eq!(last_3_candles(&[1.5, 2.5, 3.5]), vec![1.5, 2.5, 3.5]);
    assert_eq!(last_3_candles(&[1.5, 2.5, 3.5, 4.5, 5.5]), vec![3.5, 4.5, 5.5]);
}
