use codex_usage::report::{
    filled_cells, format_reset, percent_column, plain_window_line, render, report_text, reset_tone,
    summary_tier, usage_bar, level_tone, Mode, Tier, Tone,
};
use codex_usage::usage::{RateWindow, UsageSnapshot};

fn window(bp: u64, reset: u64) -> Option<RateWindow> {
    Some(RateWindow { used_bp: Some(bp), reset_after_seconds: Some(reset) })
}

fn snapshot(primary: Option<RateWindow>, secondary: Option<RateWindow>, flag: Option<bool>) -> UsageSnapshot {
    UsageSnapshot { plan_type: Some("pro".to_string()), primary_window: primary, secondary_window: secondary, limit_reached: flag }
}

#[test]
fn plain_report_example() {
    let s = snapshot(window(4500, 3600), None, Some(false));
    let text = report_text(&render(&s, Mode::Plain));
    assert!(text.contains("PRO"));
    assert!(text.contains("45.0% used"));
    assert!(text.contains("7day window: N/A"));
    assert_eq!(
        text,
        "Plan: PRO\n5hr window: 45.0% used  Resets in: 3600s\n7day window: N/A\n"
    );
    assert_eq!(report_text(&render(&s, Mode::Plain)), text);
}

#[test]
fn plain_report_limit_line_and_defaults() {
    let s = UsageSnapshot {
        plan_type: None,
        primary_window: Some(RateWindow { used_bp: None, reset_after_seconds: None }),
        secondary_window: window(25000, 5),
        limit_reached: Some(true),
    };
    assert_eq!(
        report_text(&render(&s, Mode::Plain)),
        "Plan: UNKNOWN\n5hr window: 0.0% used  Resets in: —\n7day window: 100.0% used  Resets in: 5s\nStatus: LIMIT REACHED\n"
    );
}

#[test]
fn plain_window_line_rounds_to_one_decimal() {
    assert_eq!(plain_window_line("w", &window(4567, 1)), "w: 45.7% used  Resets in: 1s\n");
    assert_eq!(plain_window_line("w", &None), "w: N/A\n");
}

#[test]
fn bar_fill_counts() {
    assert_eq!(filled_cells(5000, 28), 14);
    assert_eq!(filled_cells(10000, 28), 28);
    assert_eq!(filled_cells(25000, 28), 28);
    assert_eq!(filled_cells(0, 28), 0);
    assert_eq!(filled_cells(1786, 28), 5);
    assert_eq!(usage_bar(5000, 4), "██░░");
    assert_eq!(usage_bar(5000, 28).chars().filter(|c| *c == '█').count(), 14);
    assert_eq!(usage_bar(20000, 28).chars().count(), 28);
}

#[test]
fn level_tones() {
    assert_eq!(level_tone(9000), Tone::Alert);
    assert_eq!(level_tone(8999), Tone::Caution);
    assert_eq!(level_tone(7000), Tone::Caution);
    assert_eq!(level_tone(6999), Tone::Good);
}

#[test]
fn percent_columns() {
    assert_eq!(percent_column(4500), " 45.0%");
    assert_eq!(percent_column(0), "  0.0%");
    assert_eq!(percent_column(10000), "100.0%");
    assert_eq!(percent_column(12345), "100.0%");
    assert_eq!(percent_column(995), " 10.0%");
}

#[test]
fn reset_humanization() {
    assert_eq!(format_reset(Some(0)), "now");
    assert_eq!(format_reset(Some(59)), "in 0m");
    assert_eq!(format_reset(Some(540)), "in 9m");
    assert_eq!(format_reset(Some(3660)), "in 1h 1m");
    assert_eq!(format_reset(Some(4 * 3600 + 12 * 60)), "in 4h 12m");
    assert_eq!(format_reset(Some(90000)), "in 1d 1h");
    assert_eq!(format_reset(Some(2 * 86400 + 3 * 3600)), "in 2d 3h");
    assert_eq!(format_reset(None), "—");
    assert_eq!(reset_tone(None), Tone::Dim);
    assert_eq!(reset_tone(Some(0)), Tone::Good);
    assert_eq!(reset_tone(Some(59)), Tone::Caution);
    assert_eq!(reset_tone(Some(3660)), Tone::Plain);
}

#[test]
fn summary_tier_boundaries() {
    assert_eq!(summary_tier(&snapshot(window(9000, 0), None, None)), Tier::NearlyAtLimit);
    assert_eq!(summary_tier(&snapshot(window(8999, 0), None, None)), Tier::Elevated);
    assert_eq!(summary_tier(&snapshot(None, window(7000, 0), None)), Tier::Elevated);
    assert_eq!(summary_tier(&snapshot(window(6999, 0), None, None)), Tier::Plenty);
    assert_eq!(summary_tier(&snapshot(window(100, 0), window(10000, 0), None)), Tier::LimitReached);
    assert_eq!(summary_tier(&snapshot(window(9999, 0), None, None)), Tier::NearlyAtLimit);
    assert_eq!(summary_tier(&snapshot(window(10, 0), None, Some(true))), Tier::LimitReached);
    assert_eq!(summary_tier(&snapshot(None, None, None)), Tier::Plenty);
}

#[test]
fn fancy_report_example() {
    let s = snapshot(window(5000, 3660), None, None);
    let spans = render(&s, Mode::Fancy);
    let text = report_text(&spans);
    let expected = format!(
        "  ◆ OpenAI PRO Plan — Codex Usage Limits\n  {rule}\n  5-hour session     {bar} {pct} resets in 1h 1m\n  7-day rolling      not available\n  {rule}\n\n  ✓ Looking good — plenty of capacity remaining.\n\n",
        rule = "─".repeat(67),
        bar = format!("{}{}", "█".repeat(14), "░".repeat(14)),
        pct = " 50.0%",
    );
    assert_eq!(text, expected);
    assert!(spans.iter().any(|sp| sp.text == "PRO" && sp.tone == Tone::Heading));
    assert!(spans.iter().any(|sp| sp.text == " 50.0%" && sp.tone == Tone::Good));
}

#[test]
fn fancy_report_full_bar_and_warning() {
    let s = snapshot(window(9000, 0), window(30000, 90000), None);
    let text = report_text(&render(&s, Mode::Fancy));
    assert!(text.contains(&"█".repeat(28)));
    assert!(text.contains("100.0%"));
    assert!(text.contains("resets now"));
    assert!(text.contains("resets in 1d 1h"));
    assert!(text.contains("Limit reached — check your reset time above."));
    let s = snapshot(window(9000, 0), None, None);
    assert!(report_text(&render(&s, Mode::Fancy)).contains("Nearly at your limit"));
}
