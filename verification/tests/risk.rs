use decision_core::risk::{check, evaluate, Config, HaltReason};
use decision_core::stats::Stats;

fn stats(total_pnl_cents: i64, today_pnl_cents: i64, current_streak: i64) -> Stats {
    Stats {
        total_trades: 10,
        wins: 5,
        losses: 5,
        total_pnl_cents,
        today_pnl_cents,
        current_streak,
        max_drawdown_cents: 0,
        win_pnl_cents: 0,
        loss_pnl_cents: 0,
    }
}

fn config() -> Config {
    Config {
        min_balance_cents: 1000,
        stop_loss_bps: 2000,
        max_daily_loss_cents: 3000,
        max_consecutive_losses: 3,
    }
}

#[test]
fn gate_lets_a_healthy_account_proceed() {
    assert_eq!(check(&stats(500, 100, 2), 50_000, &config()), None);
    assert_eq!(evaluate(&stats(500, 100, 2), 50_000, &config()), None);
}

#[test]
fn low_balance_outranks_the_daily_loss() {
    let s = stats(-100, -5000, -7);
    assert_eq!(
        evaluate(&s, 999, &config()),
        Some(HaltReason::LowBalance { balance_cents: 999, minimum_cents: 1000 })
    );
    assert_eq!(check(&s, 999, &config()), Some("Balance 999¢ < 1000¢ minimum".to_string()));
}

#[test]
fn balance_at_the_minimum_passes_the_first_test() {
    assert_eq!(check(&stats(0, 0, 0), 1000, &config()), None);
}

#[test]
fn stop_loss_strikes_at_its_share_of_the_starting_balance() {
    let s = stats(-2000, 0, 0);
    assert_eq!(
        evaluate(&s, 8000, &config()),
        Some(HaltReason::StopLoss { pnl_cents: -2000, stop_loss_bps: 2000, starting_cents: 10_000 })
    );
    assert_eq!(
        check(&s, 8000, &config()),
        Some("Stop loss: P&L -2000¢ exceeds 20% of starting balance (10000¢)".to_string())
    );
}

#[test]
fn stop_loss_takes_its_share_exactly() {
    // 10004 cents at 20% is 2000.8: a loss of 2000 does not reach it, one of 2001 does.
    assert_eq!(evaluate(&stats(-2000, 0, 0), 8004, &config()), None);
    assert_eq!(
        evaluate(&stats(-2001, 0, 0), 8003, &config()),
        Some(HaltReason::StopLoss { pnl_cents: -2001, stop_loss_bps: 2000, starting_cents: 10_004 })
    );
    // 1003 cents at 20% is 200.6: a loss of 200 does not reach it.
    let c = Config {
        min_balance_cents: 100,
        stop_loss_bps: 2000,
        max_daily_loss_cents: 500,
        max_consecutive_losses: 3,
    };
    assert_eq!(evaluate(&stats(-200, 0, 0), 803, &c), None);
    assert_eq!(check(&stats(-200, 0, 0), 803, &c), None);
    // With the daily limit breached too, the daily loss is the reason.
    assert_eq!(
        evaluate(&stats(-200, -600, 0), 803, &c),
        Some(HaltReason::DailyLoss { pnl_cents: -600 })
    );
    // 1000 cents at 20% is 200: a loss of 200 reaches it.
    assert!(matches!(
        evaluate(&stats(-200, 0, 0), 800, &c),
        Some(HaltReason::StopLoss { .. })
    ));
    // A share of one basis point: 9999 cents give a limit under one cent.
    let fine = Config { stop_loss_bps: 1, ..c };
    assert_eq!(evaluate(&stats(0, 0, 0), 9999, &fine), None);
    assert!(matches!(
        evaluate(&stats(-1, 0, 0), 9998, &fine),
        Some(HaltReason::StopLoss { .. })
    ));
}

#[test]
fn stop_loss_is_not_tested_without_a_positive_starting_balance() {
    // The profit is more than the balance: the implied starting balance is negative.
    let s = stats(60_000, 0, 0);
    assert_eq!(evaluate(&s, 50_000, &config()), None);
    let even = stats(50_000, 0, 0);
    assert_eq!(evaluate(&even, 50_000, &config()), None);
}

#[test]
fn stop_loss_outranks_the_daily_loss() {
    let s = stats(-5000, -5000, -5);
    assert!(matches!(evaluate(&s, 10_000, &config()), Some(HaltReason::StopLoss { .. })));
}

#[test]
fn daily_loss_strikes_at_the_limit() {
    let s = stats(-100, -3000, 0);
    assert_eq!(evaluate(&s, 50_000, &config()), Some(HaltReason::DailyLoss { pnl_cents: -3000 }));
    assert_eq!(check(&s, 50_000, &config()), Some("Daily loss: -3000¢".to_string()));
    assert_eq!(evaluate(&stats(-100, -2999, 0), 50_000, &config()), None);
}

#[test]
fn daily_loss_outranks_the_losing_streak() {
    let s = stats(-100, -4000, -9);
    assert_eq!(evaluate(&s, 50_000, &config()), Some(HaltReason::DailyLoss { pnl_cents: -4000 }));
}

#[test]
fn losing_streak_strikes_at_the_limit() {
    let s = stats(-100, -10, -3);
    assert_eq!(evaluate(&s, 50_000, &config()), Some(HaltReason::LosingStreak { losses: 3 }));
    assert_eq!(check(&s, 50_000, &config()), Some("3× consecutive losses".to_string()));
    assert_eq!(evaluate(&stats(-100, -10, -2), 50_000, &config()), None);
}

#[test]
fn stop_loss_message_rounds_the_share_to_a_whole_percentage() {
    let reason = |bps: u32| HaltReason::StopLoss { pnl_cents: -1, stop_loss_bps: bps, starting_cents: 7 };
    assert_eq!(reason(1250).message(), "Stop loss: P&L -1¢ exceeds 12% of starting balance (7¢)");
    assert_eq!(reason(1350).message(), "Stop loss: P&L -1¢ exceeds 14% of starting balance (7¢)");
    assert_eq!(reason(1251).message(), "Stop loss: P&L -1¢ exceeds 13% of starting balance (7¢)");
    assert_eq!(reason(49).message(), "Stop loss: P&L -1¢ exceeds 0% of starting balance (7¢)");
    assert_eq!(reason(10000).message(), "Stop loss: P&L -1¢ exceeds 100% of starting balance (7¢)");
}

#[test]
fn gate_holds_at_the_ends_of_the_ranges() {
    let c = Config {
        min_balance_cents: 0,
        stop_loss_bps: u32::MAX,
        max_daily_loss_cents: i64::MAX,
        max_consecutive_losses: u32::MAX,
    };
    let s = stats(i64::MIN, i64::MAX, i64::MIN);
    // The implied starting balance is u64::MAX + 2^63, and the stop-loss limit
    // on it far beyond any loss that an i64 holds.
    assert_eq!(
        evaluate(&s, u64::MAX, &c),
        Some(HaltReason::LosingStreak { losses: 9_223_372_036_854_775_808 })
    );
    assert_eq!(
        check(&s, u64::MAX, &c),
        Some("9223372036854775808× consecutive losses".to_string())
    );
    let daily = Config { max_daily_loss_cents: i64::MIN, ..c };
    assert_eq!(
        evaluate(&s, u64::MAX, &daily),
        Some(HaltReason::DailyLoss { pnl_cents: i64::MAX })
    );
    let tight = Config { stop_loss_bps: 0, ..c };
    assert_eq!(
        check(&s, u64::MAX, &tight),
        Some(
            "Stop loss: P&L -9223372036854775808¢ exceeds 0% of starting balance (27670116110564327423¢)"
                .to_string()
        )
    );
}
