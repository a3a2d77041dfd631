use merge_bot::decimal::Decimal;
use merge_bot::merge::MergeEngine;
use merge_bot::types::Side;

fn d(num: i64, scale: u32) -> Decimal {
    Decimal::new(num, scale)
}

fn outside(x: Decimal) -> rust_decimal::Decimal {
    rust_decimal::Decimal::from_i128_with_scale(x.mantissa(), x.scale())
}

#[test]
fn fills_average_their_cost() {
    let mut engine = MergeEngine::new(true);
    engine.record_fill(Side::Up, d(10, 0), d(40, 2)).unwrap();
    engine.record_fill(Side::Up, d(30, 0), d(48, 2)).unwrap();
    let (up, down) = engine.positions();
    assert_eq!(up.shares, d(40, 0));
    assert_eq!(up.total_cost, d(184, 1));
    assert_eq!(up.avg_cost, d(46, 2));
    assert_eq!(down.shares, d(0, 0));
    let pnl = engine.pnl_snapshot();
    assert_eq!(pnl.total_invested, d(184, 1));
    assert_eq!(pnl.total_orders, 2);
}

#[test]
fn a_merge_pays_a_dollar_for_each_pair() {
    let mut engine = MergeEngine::new(true);
    engine.record_fill(Side::Up, d(10, 0), d(45, 2)).unwrap();
    engine.record_fill(Side::Down, d(15, 0), d(50, 2)).unwrap();
    assert_eq!(engine.mergeable_pairs(), d(10, 0));
    assert_eq!(engine.avg_pair_cost().unwrap(), Some(d(95, 2)));
    let merge = engine.try_merge_at(1_700_000_000_000).unwrap().unwrap();
    assert_eq!(merge.pairs_merged, d(10, 0));
    assert_eq!(merge.total_cost, d(95, 1));
    assert_eq!(merge.total_payout, d(10, 0));
    assert_eq!(merge.profit, d(5, 1));
    assert_eq!(merge.timestamp, 1_700_000_000_000);
    let percent = outside(d(5, 1)) / outside(d(95, 1)) * outside(d(100, 0));
    assert_eq!(outside(merge.profit_pct), percent);
    let (up, down) = engine.positions();
    assert_eq!(up.shares, d(0, 0));
    assert_eq!(up.total_cost, d(0, 0));
    assert_eq!(down.shares, d(5, 0));
    assert_eq!(down.total_cost, d(25, 1));
    assert_eq!(down.avg_cost, d(50, 2));
    assert!(engine.try_merge().unwrap().is_none());
}

#[test]
fn expensive_pairs_give_a_loss() {
    let mut engine = MergeEngine::new(false);
    engine.record_fill(Side::Up, d(4, 0), d(60, 2)).unwrap();
    engine.record_fill(Side::Down, d(4, 0), d(50, 2)).unwrap();
    let merge = engine.try_merge().unwrap().unwrap();
    assert_eq!(merge.profit, d(-4, 1));
    assert!(merge.timestamp > 1_700_000_000_000);
    assert_eq!(engine.pnl_snapshot().win_rate, d(0, 0));
}

#[test]
fn less_than_one_pair_stays() {
    let mut engine = MergeEngine::new(true);
    engine.record_fill(Side::Up, d(99, 2), d(45, 2)).unwrap();
    engine.record_fill(Side::Down, d(5, 0), d(50, 2)).unwrap();
    assert!(engine.try_merge().unwrap().is_none());
    assert_eq!(engine.positions().0.shares, d(99, 2));
    assert!(engine.merge_history().is_empty());
}

#[test]
fn the_win_rate_counts_profitable_merges() {
    let mut engine = MergeEngine::new(true);
    for (price, rate) in [(d(45, 2), d(1, 0)), (d(60, 2), d(5, 1))] {
        engine.record_fill(Side::Up, d(5, 0), price).unwrap();
        engine.record_fill(Side::Down, d(5, 0), d(50, 2)).unwrap();
        engine.try_merge().unwrap();
        assert_eq!(engine.pnl_snapshot().win_rate, rate);
        let (up, down) = engine.positions();
        assert!(up.shares.is_zero() && down.shares.is_zero());
    }
    let pnl = engine.pnl_snapshot();
    assert_eq!(pnl.total_merges, 2);
    assert_eq!(engine.merge_history().len(), 2);
    assert_eq!(pnl.total_pairs, d(10, 0));
    assert_eq!(pnl.total_merged_payout, d(10, 0));
}

#[test]
fn no_more_is_sold_than_is_held() {
    let mut engine = MergeEngine::new(true);
    engine.record_fill(Side::Up, d(10, 0), d(47, 2)).unwrap();
    assert_eq!(engine.record_salvage(Side::Up, d(25, 0), d(20, 2)).unwrap(), d(2, 0));
    let (up, _) = engine.positions();
    assert_eq!(up.shares, d(0, 0));
    assert_eq!(up.avg_cost, d(47, 2));
    let pnl = engine.pnl_snapshot();
    assert_eq!(pnl.total_salvage_revenue, d(2, 0));
    assert_eq!(pnl.total_salvage_cost_basis, d(47, 1));
    assert_eq!(pnl.total_salvage_shares, d(10, 0));
    assert_eq!(engine.record_salvage(Side::Up, d(1, 0), d(20, 2)).unwrap(), d(0, 0));
    assert_eq!(engine.record_salvage(Side::Down, d(-1, 0), d(20, 2)).unwrap(), d(0, 0));
}

#[test]
fn a_new_window_drops_the_positions() {
    let mut engine = MergeEngine::new(true);
    engine.record_fill(Side::Up, d(10, 0), d(47, 2)).unwrap();
    engine.reset_for_new_window().unwrap();
    let (up, down) = engine.positions();
    assert!(up.shares.is_zero() && up.total_cost.is_zero() && down.shares.is_zero());
    assert_eq!(engine.pnl_snapshot().markets_traded, 1);
    assert_eq!(engine.pnl_snapshot().total_invested, d(47, 1));
    assert_eq!(engine.avg_pair_cost().unwrap(), None);
}

#[test]
fn fills_that_do_not_fit_change_nothing() {
    let mut engine = MergeEngine::new(true);
    let huge = Decimal::from_parts(0xffff_ffff_ffff_ffff_ffff_ffff, 0).unwrap();
    assert!(engine.record_fill(Side::Up, huge, d(2, 0)).is_err());
    assert_eq!(engine.positions().0.shares, d(0, 0));
    assert_eq!(engine.pnl_snapshot().total_orders, 0);
}

#[test]
fn the_window_report_lists_everything() {
    let mut engine = MergeEngine::new(true);
    engine.record_fill(Side::Up, d(10, 0), d(45, 2)).unwrap();
    engine.record_fill(Side::Down, d(15, 0), d(50, 2)).unwrap();
    engine.try_merge_at(0).unwrap();
    let report = engine.window_report_at("btc-updown-5m-300", 7, "2025-01-02 03:04:05").unwrap();
    let bar = "═══════════════════════════════════════════";
    let expected = format!(
        "{bar}\n  MERGE BOT — Window #7 Report\n  Market: btc-updown-5m-300\n  \
         Time:   2025-01-02 03:04:05 UTC\n{bar}\n\n\
         POSITIONS AT WINDOW END:\n  Up:   0 shares @ avg $0.4500\n  Down: 5 shares @ avg $0.5000\n  \
         Combined avg cost/pair: $0.9500\n\n\
         MERGES THIS WINDOW:\n  #1: 10 pairs | cost $9.5000 | payout $10.0000 | profit $0.5000 (5.26%)\n\n\
         SESSION TOTALS:\n  Total orders:       2\n  Total merges:       1\n  Total pairs merged: 10\n  \
         Total invested:     $12.0000\n  Total payout:       $10.0000\n  Total profit:       $0.5000\n  \
         Win rate:           100.0%\n  Markets traded:     0\n{bar}\n"
    );
    assert_eq!(report, expected);
}

#[test]
fn an_empty_report_has_no_merges_and_the_current_time() {
    let engine = MergeEngine::new(true);
    let report = engine.window_report("slug", 1).unwrap();
    assert!(report.contains("  No merges executed\n"));
    assert!(!report.contains("Combined avg cost/pair"));
    let line = report.lines().nth(3).unwrap();
    assert!(line.starts_with("  Time:   20") && line.ends_with(" UTC"));
    assert_eq!(line.len(), "  Time:   2025-01-02 03:04:05 UTC".len());
}

#[test]
fn a_report_of_amounts_that_are_too_long_is_an_error() {
    let mut engine = MergeEngine::new(true);
    let long = Decimal::from_parts(1_000_000_000_000_000_000_000_000_000, 0).unwrap();
    engine.record_fill(Side::Up, d(1, 0), long).unwrap();
    assert!(engine.window_report("slug", 1).is_err());
}

#[test]
fn the_report_lists_the_merges_of_its_window() {
    let mut engine = MergeEngine::new(true);
    engine.record_fill(Side::Up, d(10, 0), d(40, 2)).unwrap();
    engine.record_fill(Side::Down, d(10, 0), d(50, 2)).unwrap();
    assert!(engine.try_merge().unwrap().is_some());
    assert!(engine.window_report("m", 1).unwrap().contains("  #1: 10 pairs"));
    engine.reset_for_new_window().unwrap();
    let report = engine.window_report("m", 2).unwrap();
    assert!(report.contains("Window #2 Report"));
    assert!(report.contains("MERGES THIS WINDOW:\n  No merges executed\n"));
    assert!(report.contains("  Total merges:       1\n"));
    engine.record_fill(Side::Up, d(4, 0), d(40, 2)).unwrap();
    engine.record_fill(Side::Down, d(4, 0), d(50, 2)).unwrap();
    engine.try_merge().unwrap();
    let report = engine.window_report("m", 2).unwrap();
    assert!(report.contains("MERGES THIS WINDOW:\n  #1: 4 pairs"));
    assert!(!report.contains("10 pairs"));
    assert_eq!(engine.merge_history().len(), 2);
}

#[test]
fn every_dollar_is_accounted_for() {
    let mut engine = MergeEngine::new(true);
    engine.record_fill(Side::Up, d(10, 0), d(40, 2)).unwrap();
    engine.record_fill(Side::Down, d(15, 0), d(50, 2)).unwrap();
    engine.try_merge().unwrap();
    engine.record_salvage(Side::Down, d(2, 0), d(30, 2)).unwrap();
    let pnl = engine.pnl_snapshot();
    let (up, down) = engine.positions();
    let merged = engine.merge_history()[0].total_cost;
    assert_eq!(pnl.total_invested, d(115, 1));
    assert_eq!((up.total_cost, down.total_cost), (d(0, 0), d(15, 1)));
    assert_eq!((merged, pnl.total_salvage_cost_basis), (d(9, 0), d(1, 0)));
    assert_eq!(pnl.total_profit, d(1, 0));
    assert_eq!(pnl.total_pairs, pnl.total_merged_payout);
}

#[test]
fn rounding_leaves_the_accounts_in_balance() {
    let mut engine = MergeEngine::new(true);
    for i in 0..20 {
        engine.record_fill(Side::Up, d(3, 0), d(401 + i, 3)).unwrap();
        engine.record_fill(Side::Down, d(7, 0), d(433 + 3 * i, 3)).unwrap();
        assert!(engine.try_merge().unwrap().is_some());
    }
    let pnl = engine.pnl_snapshot();
    let (up, down) = engine.positions();
    let history = engine.merge_history();
    let cost: rust_decimal::Decimal = history.iter().map(|merge| outside(merge.total_cost)).sum();
    let held = outside(up.total_cost) + outside(down.total_cost);
    let small = rust_decimal::Decimal::new(1, 20);
    assert!((outside(pnl.total_invested) - held - cost).abs() < small);
    let payout = outside(pnl.total_merged_payout);
    assert!((outside(pnl.total_profit) - (payout - cost)).abs() < small);
    let wins = history.iter().filter(|merge| merge.profit > d(0, 0)).count();
    let share = rust_decimal::Decimal::from(wins) / rust_decimal::Decimal::from(history.len());
    assert!((outside(pnl.win_rate) - share).abs() < small);
    assert_eq!(pnl.total_merges, 20);
}
