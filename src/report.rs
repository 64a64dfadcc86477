//! The report: a plain listing, or a decorated one with usage bars, relative
//! reset times and a closing summary. The report is a list of text spans, each
//! with a tone that a terminal may show as colour or weight.
use vstd::prelude::*;
use vstd::string::StringExecFns;
use crate::text::{decimal, digit_text, push_decimal, push_digit, push_repeat, repeat, upper_of, uppercase_text};
use crate::usage::{RateWindow, UsageSnapshot};

verus! {

/// The emphasis of a span of the report.
#[derive(Clone, Copy, Debug, PartialEq, Eq, Structural)]
pub enum Tone {
    Plain,
    Dim,
    Bold,
    Accent,
    Heading,
    Good,
    Caution,
    Alert,
}

/// The two report layouts.
#[derive(Clone, Copy, Debug, PartialEq, Eq, Structural)]
pub enum Mode {
    Plain,
    Fancy,
}

/// The closing summary of the decorated report, from most to least severe.
#[derive(Clone, Copy, Debug, PartialEq, Eq, Structural)]
pub enum Tier {
    LimitReached,
    NearlyAtLimit,
    Elevated,
    Plenty,
}

/// A piece of report text and its emphasis.
#[derive(Clone, Debug)]
pub struct Span {
    pub text: String,
    pub tone: Tone,
}

/// Width of a usage bar, in cells.
pub const BAR_WIDTH: u64 = 28;

/// Texts and tones of a list of spans.
pub open spec fn spans_view(v: Seq<Span>) -> Seq<(Seq<char>, Tone)> {
    v.map_values(|s: Span| (s.text@, s.tone))
}

/// The concatenated text of a list of spans.
pub open spec fn joined(v: Seq<(Seq<char>, Tone)>) -> Seq<char>
    decreases v.len(),
{
    if v.len() == 0 {
        Seq::empty()
    } else {
        joined(v.drop_last()) + v.last().0
    }
}

/// Filled cells of a bar `width` cells wide at `used_bp` hundredths of a
/// percent: the proportion rounded to the nearest cell, never over `width`.
pub open spec fn filled_count(used_bp: nat, width: nat) -> nat {
    let f = (used_bp * width + 5000) / 10000;
    if f < width { f } else { width }
}

/// A bar: filled cells, then empty ones.
pub open spec fn bar_text(used_bp: nat, width: nat) -> Seq<char> {
    repeat("█"@, filled_count(used_bp, width)) + repeat("░"@, (width - filled_count(used_bp, width)) as nat)
}

/// The tone of a usage level: alert from 90%, caution from 70%.
pub open spec fn level_tone_of(used_bp: nat) -> Tone {
    if used_bp >= 9000 {
        Tone::Alert
    } else if used_bp >= 7000 {
        Tone::Caution
    } else {
        Tone::Good
    }
}

/// Usage capped at 100%, in tenths of a percent, rounded half up.
pub open spec fn shown_tenths(used_bp: nat) -> nat {
    let capped: nat = if used_bp < 10000 { used_bp } else { 10000 };
    (capped + 5) / 10
}

/// Usage capped at 100% with one decimal, as in `45.0`.
pub open spec fn percent_text(used_bp: nat) -> Seq<char> {
    decimal(shown_tenths(used_bp) / 10) + "."@ + digit_text(shown_tenths(used_bp) % 10)
}

/// The percentage right-aligned in five columns, then `%`.
pub open spec fn percent_field(used_bp: nat) -> Seq<char> {
    let t = shown_tenths(used_bp);
    let pad = if t < 100 { "  "@ } else if t < 1000 { " "@ } else { Seq::empty() };
    pad + percent_text(used_bp) + "%"@
}

/// A reset countdown in words: `now`, or the two most significant of days,
/// hours and minutes; `—` when unknown.
pub open spec fn reset_text(reset_secs: Option<u64>) -> Seq<char> {
    match reset_secs {
        None => "—"@,
        Some(secs) => {
            let mins = secs / 60;
            let hours = mins / 60;
            let days = hours / 24;
            if secs == 0 {
                "now"@
            } else if days > 0 {
                "in "@ + decimal(days as nat) + "d "@ + decimal((hours % 24) as nat) + "h"@
            } else if hours > 0 {
                "in "@ + decimal(hours as nat) + "h "@ + decimal((mins % 60) as nat) + "m"@
            } else {
                "in "@ + decimal(mins as nat) + "m"@
            }
        },
    }
}

/// The tone of a reset countdown: dim when unknown, good when due now,
/// caution when under an hour away.
pub open spec fn reset_tone_of(reset_secs: Option<u64>) -> Tone {
    match reset_secs {
        None => Tone::Dim,
        Some(secs) => if secs == 0 {
            Tone::Good
        } else if secs / 3600 > 0 {
            Tone::Plain
        } else {
            Tone::Caution
        },
    }
}

/// A reset countdown in raw seconds, as in `3600s`.
pub open spec fn reset_seconds_text(reset_secs: Option<u64>) -> Seq<char> {
    match reset_secs {
        Some(secs) => decimal(secs as nat) + "s"@,
        None => "—"@,
    }
}

/// Usage of a window for the summary: an absent window or figure counts as 0.
pub open spec fn window_used(w: Option<RateWindow>) -> nat {
    match w {
        Some(win) => match win.used_bp {
            Some(b) => b as nat,
            None => 0,
        },
        None => 0,
    }
}

/// The higher usage of the two windows.
pub open spec fn highest_used(s: UsageSnapshot) -> nat {
    let a = window_used(s.primary_window);
    let b = window_used(s.secondary_window);
    if a >= b { a } else { b }
}

/// The summary tier: limit reached at 100% or when flagged, nearly at limit
/// from 90%, elevated from 70%, plenty below; each bound inclusive.
pub open spec fn tier_of(s: UsageSnapshot) -> Tier {
    let h = highest_used(s);
    if s.limit_reached == Some(true) || h >= 10000 {
        Tier::LimitReached
    } else if h >= 9000 {
        Tier::NearlyAtLimit
    } else if h >= 7000 {
        Tier::Elevated
    } else {
        Tier::Plenty
    }
}

/// The plan name, `unknown` when missing.
pub open spec fn plan_name(s: UsageSnapshot) -> Seq<char> {
    match s.plan_type {
        Some(p) => p@,
        None => "unknown"@,
    }
}

/// Usage of a present window as shown: unknown counts as 0.
pub open spec fn window_bp(w: RateWindow) -> nat {
    match w.used_bp {
        Some(b) => b as nat,
        None => 0,
    }
}

/// One line of the plain report for a window.
pub open spec fn plain_window_text(label: Seq<char>, w: Option<RateWindow>) -> Seq<char> {
    match w {
        None => label + ": N/A\n"@,
        Some(win) => label + ": "@ + percent_text(window_bp(win)) + "% used  Resets in: "@
            + reset_seconds_text(win.reset_after_seconds) + "\n"@,
    }
}

/// The plain report: plan, one line per window, and a status line when the
/// limit is flagged as reached.
pub open spec fn plain_report(s: UsageSnapshot) -> Seq<(Seq<char>, Tone)> {
    let lines = seq![
        ("Plan: "@ + upper_of(plan_name(s)) + "\n"@, Tone::Plain),
        (plain_window_text("5hr window"@, s.primary_window), Tone::Plain),
        (plain_window_text("7day window"@, s.secondary_window), Tone::Plain),
    ];
    if s.limit_reached == Some(true) {
        lines.push(("Status: LIMIT REACHED\n"@, Tone::Plain))
    } else {
        lines
    }
}

/// Filled cells of a bar `width` cells wide at `used_bp` hundredths of a
/// percent: the proportion rounded to the nearest cell, capped at `width`.
pub fn filled_cells(used_bp: u64, width: u64) -> (r: u64)
    ensures
        r == filled_count(used_bp as nat, width as nat),
        r <= width,
{
    proof {
        let a = used_bp as int;
        let b = width as int;
        assert(a * b <= 0xffff_ffff_ffff_ffff * 0xffff_ffff_ffff_ffff) by (nonlinear_arith)
            requires
                0 <= a <= 0xffff_ffff_ffff_ffff,
                0 <= b <= 0xffff_ffff_ffff_ffff,
        ;
    }
    let product: u128 = (used_bp as u128) * (width as u128);
    let f: u128 = (product + 5000) / 10000;
    if f < width as u128 {
        f as u64
    } else {
        width
    }
}

/// A bar `width` cells wide showing `used_bp` hundredths of a percent.
pub fn usage_bar(used_bp: u64, width: u64) -> (r: String)
    ensures
        r@ == bar_text(used_bp as nat, width as nat),
{
    let filled = filled_cells(used_bp, width);
    let mut bar = String::new();
    push_repeat(&mut bar, "█", filled);
    push_repeat(&mut bar, "░", width - filled);
    bar
}

/// The tone of a usage level.
pub fn level_tone(used_bp: u64) -> (r: Tone)
    ensures
        r == level_tone_of(used_bp as nat),
{
    if used_bp >= 9000 {
        Tone::Alert
    } else if used_bp >= 7000 {
        Tone::Caution
    } else {
        Tone::Good
    }
}

fn tenths_of(used_bp: u64) -> (r: u64)
    ensures
        r == shown_tenths(used_bp as nat),
        r <= 1000,
{
    let capped: u64 = if used_bp < 10000 { used_bp } else { 10000 };
    (capped + 5) / 10
}

fn push_percent(out: &mut String, used_bp: u64)
    ensures
        final(out)@ == old(out)@ + percent_text(used_bp as nat),
{
    let ghost start = out@;
    let t = tenths_of(used_bp);
    push_decimal(out, t / 10);
    out.append(".");
    push_digit(out, t % 10);
    assert(out@ =~= start + percent_text(used_bp as nat));
}

/// The percentage right-aligned in five columns, then `%`.
pub fn percent_column(used_bp: u64) -> (r: String)
    ensures
        r@ == percent_field(used_bp as nat),
{
    let t = tenths_of(used_bp);
    let mut out = if t < 100 {
        String::from_str("  ")
    } else if t < 1000 {
        String::from_str(" ")
    } else {
        String::new()
    };
    push_percent(&mut out, used_bp);
    out.append("%");
    assert(out@ =~= percent_field(used_bp as nat));
    out
}

/// A reset countdown in words: `now` at zero, otherwise `in Nd Nh`,
/// `in Nh Nm` or `in Nm`; `—` when unknown.
pub fn format_reset(reset_secs: Option<u64>) -> (r: String)
    ensures
        r@ == reset_text(reset_secs),
{
    let secs = match reset_secs {
        None => return String::from_str("—"),
        Some(secs) => secs,
    };
    if secs == 0 {
        return String::from_str("now");
    }
    let mins = secs / 60;
    let hours = mins / 60;
    let days = hours / 24;
    let mut out = String::from_str("in ");
    let ghost start = out@;
    if days > 0 {
        push_decimal(&mut out, days);
        out.append("d ");
        push_decimal(&mut out, hours % 24);
        out.append("h");
    } else if hours > 0 {
        push_decimal(&mut out, hours);
        out.append("h ");
        push_decimal(&mut out, mins % 60);
        out.append("m");
    } else {
        push_decimal(&mut out, mins);
        out.append("m");
    }
    assert(out@ =~= reset_text(reset_secs));
    out
}

/// The tone of a reset countdown.
pub fn reset_tone(reset_secs: Option<u64>) -> (r: Tone)
    ensures
        r == reset_tone_of(reset_secs),
{
    match reset_secs {
        None => Tone::Dim,
        Some(secs) => if secs == 0 {
            Tone::Good
        } else if secs / 3600 > 0 {
            Tone::Plain
        } else {
            Tone::Caution
        },
    }
}

fn used_of(w: &Option<RateWindow>) -> (r: u64)
    ensures
        r as nat == window_used(*w),
{
    match w {
        Some(win) => match win.used_bp {
            Some(b) => b,
            None => 0,
        },
        None => 0,
    }
}

/// The summary tier of a snapshot, from the higher usage of its two windows
/// and the limit flag.
pub fn summary_tier(s: &UsageSnapshot) -> (r: Tier)
    ensures
        r == tier_of(*s),
{
    let a = used_of(&s.primary_window);
    let b = used_of(&s.secondary_window);
    let h = if a >= b { a } else { b };
    let flagged = match s.limit_reached {
        Some(f) => f,
        None => false,
    };
    if flagged || h >= 10000 {
        Tier::LimitReached
    } else if h >= 9000 {
        Tier::NearlyAtLimit
    } else if h >= 7000 {
        Tier::Elevated
    } else {
        Tier::Plenty
    }
}

fn emit(out: &mut Vec<Span>, text: String, tone: Tone)
    ensures
        spans_view(final(out)@) == spans_view(old(out)@).push((text@, tone)),
{
    let ghost before = out@;
    out.push(Span { text, tone });
    assert(spans_view(out@) =~= spans_view(before).push((text@, tone)));
}

fn window_bp_of(w: &RateWindow) -> (r: u64)
    ensures
        r as nat == window_bp(*w),
{
    match w.used_bp {
        Some(b) => b,
        None => 0,
    }
}

/// One line of the plain report for a window.
pub fn plain_window_line(label: &str, w: &Option<RateWindow>) -> (r: String)
    ensures
        r@ == plain_window_text(label@, *w),
{
    let mut out = String::from_str(label);
    match w {
        None => {
            out.append(": N/A\n");
        },
        Some(win) => {
            out.append(": ");
            push_percent(&mut out, window_bp_of(win));
            out.append("% used  Resets in: ");
            match win.reset_after_seconds {
                Some(secs) => {
                    push_decimal(&mut out, secs);
                    out.append("s");
                },
                None => {
                    out.append("—");
                },
            }
            out.append("\n");
        },
    }
    assert(out@ =~= plain_window_text(label@, *w));
    out
}

fn plan_upper(s: &UsageSnapshot) -> (r: String)
    ensures
        r@ == upper_of(plan_name(*s)),
{
    match &s.plan_type {
        Some(p) => uppercase_text(p.as_str()),
        None => uppercase_text("unknown"),
    }
}

fn render_plain(s: &UsageSnapshot) -> (r: Vec<Span>)
    ensures
        spans_view(r@) == plain_report(*s),
{
    let mut out: Vec<Span> = Vec::new();
    let mut plan = String::from_str("Plan: ");
    plan.append(plan_upper(s).as_str());
    plan.append("\n");
    emit(&mut out, plan, Tone::Plain);
    emit(&mut out, plain_window_line("5hr window", &s.primary_window), Tone::Plain);
    emit(&mut out, plain_window_line("7day window", &s.secondary_window), Tone::Plain);
    if s.limit_reached == Some(true) {
        emit(&mut out, String::from_str("Status: LIMIT REACHED\n"), Tone::Plain);
    }
    assert(spans_view(out@) =~= plain_report(*s));
    out
}

/// The summary mark of a tier.
pub open spec fn tier_icon(t: Tier) -> Seq<char> {
    match t {
        Tier::LimitReached => "✗"@,
        Tier::NearlyAtLimit => "⚠"@,
        Tier::Elevated => "△"@,
        Tier::Plenty => "✓"@,
    }
}

/// The tone of a tier's mark.
pub open spec fn tier_tone(t: Tier) -> Tone {
    match t {
        Tier::LimitReached => Tone::Alert,
        Tier::NearlyAtLimit => Tone::Alert,
        Tier::Elevated => Tone::Caution,
        Tier::Plenty => Tone::Good,
    }
}

/// The summary sentence of a tier.
pub open spec fn tier_message(t: Tier) -> Seq<char> {
    match t {
        Tier::LimitReached => "Limit reached — check your reset time above."@,
        Tier::NearlyAtLimit => "Nearly at your limit — check reset time above."@,
        Tier::Elevated => "Usage is elevated — consider pacing your session."@,
        Tier::Plenty => "Looking good — plenty of capacity remaining."@,
    }
}

/// The heading of the decorated report.
pub open spec fn fancy_header(s: UsageSnapshot) -> Seq<(Seq<char>, Tone)> {
    seq![
        ("  "@, Tone::Plain),
        ("◆"@, Tone::Accent),
        (" OpenAI "@, Tone::Plain),
        (upper_of(plan_name(s)), Tone::Heading),
        (" Plan — Codex Usage Limits\n"@, Tone::Plain),
    ]
}

/// A horizontal rule.
pub open spec fn fancy_rule() -> Seq<(Seq<char>, Tone)> {
    seq![("  "@, Tone::Plain), (repeat("─"@, 67), Tone::Dim), ("\n"@, Tone::Plain)]
}

/// The decorated lines of a window: label, bar, percentage and countdown.
pub open spec fn fancy_window(label: Seq<char>, w: Option<RateWindow>) -> Seq<(Seq<char>, Tone)> {
    match w {
        None => seq![("  "@ + label + " "@, Tone::Plain), ("not available"@, Tone::Dim), ("\n"@, Tone::Plain)],
        Some(win) => {
            let raw = window_bp(win);
            let bp: nat = if raw < 10000 { raw } else { 10000 };
            seq![
                ("  "@, Tone::Plain),
                (label, Tone::Bold),
                (" "@, Tone::Plain),
                (bar_text(bp, BAR_WIDTH as nat), level_tone_of(bp)),
                (" "@, Tone::Plain),
                (percent_field(bp), level_tone_of(bp)),
                (" resets "@, Tone::Plain),
                (reset_text(win.reset_after_seconds), reset_tone_of(win.reset_after_seconds)),
                ("\n"@, Tone::Plain),
            ]
        },
    }
}

/// The closing summary of the decorated report.
pub open spec fn fancy_summary(s: UsageSnapshot) -> Seq<(Seq<char>, Tone)> {
    let t = tier_of(s);
    seq![
        ("\n  "@, Tone::Plain),
        (tier_icon(t), tier_tone(t)),
        (" "@ + tier_message(t) + "\n"@, Tone::Plain),
        ("\n"@, Tone::Plain),
    ]
}

/// The decorated report.
pub open spec fn fancy_report(s: UsageSnapshot) -> Seq<(Seq<char>, Tone)> {
    fancy_header(s) + fancy_rule() + fancy_window("5-hour session    "@, s.primary_window)
        + fancy_window("7-day rolling     "@, s.secondary_window) + fancy_rule() + fancy_summary(s)
}

/// The report of a snapshot in the given layout.
pub open spec fn report(s: UsageSnapshot, mode: Mode) -> Seq<(Seq<char>, Tone)> {
    match mode {
        Mode::Plain => plain_report(s),
        Mode::Fancy => fancy_report(s),
    }
}

fn emit_rule(out: &mut Vec<Span>)
    ensures
        spans_view(final(out)@) == spans_view(old(out)@) + fancy_rule(),
{
    let ghost before = spans_view(out@);
    emit(out, String::from_str("  "), Tone::Plain);
    let mut rule = String::new();
    push_repeat(&mut rule, "─", 67);
    emit(out, rule, Tone::Dim);
    emit(out, String::from_str("\n"), Tone::Plain);
    assert(spans_view(out@) =~= before + fancy_rule());
}

fn emit_window(out: &mut Vec<Span>, label: &str, w: &Option<RateWindow>)
    ensures
        spans_view(final(out)@) == spans_view(old(out)@) + fancy_window(label@, *w),
{
    let ghost before = spans_view(out@);
    match w {
        None => {
            let mut head = String::from_str("  ");
            head.append(label);
            head.append(" ");
            emit(out, head, Tone::Plain);
            emit(out, String::from_str("not available"), Tone::Dim);
            emit(out, String::from_str("\n"), Tone::Plain);
        },
        Some(win) => {
            let raw = window_bp_of(win);
            let bp: u64 = if raw < 10000 { raw } else { 10000 };
            emit(out, String::from_str("  "), Tone::Plain);
            emit(out, String::from_str(label), Tone::Bold);
            emit(out, String::from_str(" "), Tone::Plain);
            emit(out, usage_bar(bp, BAR_WIDTH), level_tone(bp));
            emit(out, String::from_str(" "), Tone::Plain);
            emit(out, percent_column(bp), level_tone(bp));
            emit(out, String::from_str(" resets "), Tone::Plain);
            emit(out, format_reset(win.reset_after_seconds), reset_tone(win.reset_after_seconds));
            emit(out, String::from_str("\n"), Tone::Plain);
        },
    }
    assert(spans_view(out@) =~= before + fancy_window(label@, *w));
}

fn emit_summary(out: &mut Vec<Span>, s: &UsageSnapshot)
    ensures
        spans_view(final(out)@) == spans_view(old(out)@) + fancy_summary(*s),
{
    let ghost before = spans_view(out@);
    let tier = summary_tier(s);
    let (icon, tone, message) = match tier {
        Tier::LimitReached => ("✗", Tone::Alert, "Limit reached — check your reset time above."),
        Tier::NearlyAtLimit => ("⚠", Tone::Alert, "Nearly at your limit — check reset time above."),
        Tier::Elevated => ("△", Tone::Caution, "Usage is elevated — consider pacing your session."),
        Tier::Plenty => ("✓", Tone::Good, "Looking good — plenty of capacity remaining."),
    };
    emit(out, String::from_str("\n  "), Tone::Plain);
    emit(out, String::from_str(icon), tone);
    let mut line = String::from_str(" ");
    line.append(message);
    line.append("\n");
    emit(out, line, Tone::Plain);
    emit(out, String::from_str("\n"), Tone::Plain);
    assert(spans_view(out@) =~= before + fancy_summary(*s));
}

fn render_fancy(s: &UsageSnapshot) -> (r: Vec<Span>)
    ensures
        spans_view(r@) == fancy_report(*s),
{
    let mut out: Vec<Span> = Vec::new();
    emit(&mut out, String::from_str("  "), Tone::Plain);
    emit(&mut out, String::from_str("◆"), Tone::Accent);
    emit(&mut out, String::from_str(" OpenAI "), Tone::Plain);
    emit(&mut out, plan_upper(s), Tone::Heading);
    emit(&mut out, String::from_str(" Plan — Codex Usage Limits\n"), Tone::Plain);
    assert(spans_view(out@) =~= fancy_header(*s));
    emit_rule(&mut out);
    emit_window(&mut out, "5-hour session    ", &s.primary_window);
    emit_window(&mut out, "7-day rolling     ", &s.secondary_window);
    emit_rule(&mut out);
    emit_summary(&mut out, s);
    out
}

/// Renders a snapshot: in `Plain` mode the plan in upper case, one line per
/// window with its usage to one decimal and its reset in seconds (`N/A` for a
/// missing window), and a status line when the limit is flagged; in `Fancy`
/// mode a heading, a bar, percentage and countdown per window, and a summary
/// chosen by the higher usage of the two windows.
pub fn render(s: &UsageSnapshot, mode: Mode) -> (r: Vec<Span>)
    ensures
        spans_view(r@) == report(*s, mode),
{
    match mode {
        Mode::Plain => render_plain(s),
        Mode::Fancy => render_fancy(s),
    }
}

/// The text of a report, spans concatenated in order.
pub fn report_text(spans: &Vec<Span>) -> (r: String)
    ensures
        r@ == joined(spans_view(spans@)),
{
    let ghost v = spans_view(spans@);
    let mut out = String::new();
    let mut i: usize = 0;
    while i < spans.len()
        invariant
            i <= spans.len(),
            v == spans_view(spans@),
            out@ == joined(v.take(i as int)),
        decreases spans.len() - i,
    {
        assert(v.take(i + 1).drop_last() =~= v.take(i as int));
        out.append(spans[i].text.as_str());
        i = i + 1;
    }
    assert(v.take(i as int) =~= v);
    out
}

/// Each summary bound is inclusive: when the busier window is at exactly 100%,
/// 90% or 70% the summary is that tier, one hundredth of a percent below it is
/// the next tier down, and a flagged limit is always reached.
pub proof fn tier_bounds_are_inclusive(s: UsageSnapshot)
    ensures
        s.limit_reached == Some(true) ==> tier_of(s) == Tier::LimitReached,
        s.limit_reached != Some(true) ==> {
            &&& highest_used(s) >= 10000 ==> tier_of(s) == Tier::LimitReached
            &&& highest_used(s) == 9999 ==> tier_of(s) == Tier::NearlyAtLimit
            &&& highest_used(s) == 9000 ==> tier_of(s) == Tier::NearlyAtLimit
            &&& highest_used(s) == 8999 ==> tier_of(s) == Tier::Elevated
            &&& highest_used(s) == 7000 ==> tier_of(s) == Tier::Elevated
            &&& highest_used(s) == 6999 ==> tier_of(s) == Tier::Plenty
        },
{
}

} // verus!
