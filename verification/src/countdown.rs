//! The countdown display arithmetic: remaining time, completion percentage,
//! and the fixed-width progress bar, derived afresh from elapsed and total
//! seconds at every tick so that timing slippage cannot accumulate.

use crate::duration::{clock_spec, dec_rep, format_clock, u64_string};
use vstd::arithmetic::div_mod::{lemma_div_is_ordered, lemma_div_multiples_vanish};
use vstd::prelude::*;
use vstd::string::*;

verus! {

/// The progress bar's width in blocks.
pub const BAR_WIDTH: u64 = 20;

/// Elapsed time counts toward progress only up to the total.
pub open spec fn clamped(elapsed: nat, total: nat) -> nat {
    if elapsed > total {
        total
    } else {
        elapsed
    }
}

/// The whole seconds left to show: the difference of total and elapsed,
/// never negative, zero once elapsed reaches the total.
pub open spec fn remaining_spec(elapsed: nat, total: nat) -> nat {
    (total - clamped(elapsed, total)) as nat
}

/// The completion percentage, floored.
pub open spec fn percent_spec(elapsed: nat, total: nat) -> nat
    recommends
        total > 0,
{
    clamped(elapsed, total) * 100 / total
}

/// How many of the bar's blocks are filled, floored.
pub open spec fn filled_spec(elapsed: nat, total: nat) -> nat
    recommends
        total > 0,
{
    clamped(elapsed, total) * 20 / total
}

/// One rendering of the countdown, derived from elapsed and total seconds.
#[derive(Debug, Clone, Copy, PartialEq, Eq, Structural)]
pub struct CountdownSnapshot {
    /// Whole seconds left, never negative; zero once elapsed reaches total.
    pub remaining: u64,
    /// The minutes part of the clock face.
    pub minutes: u64,
    /// The seconds part of the clock face.
    pub seconds: u64,
    /// The completion percentage, floored; exactly 100 at completion.
    pub percent: u64,
    /// Filled blocks of the progress bar; exactly `BAR_WIDTH` at completion.
    pub filled: u64,
    /// Whether the countdown is over, that is, elapsed reached total.
    pub done: bool,
}

/// Derive the countdown state for one tick.
pub fn snapshot(elapsed: u64, total: u64) -> (r: CountdownSnapshot)
    requires
        total > 0,
    ensures
        r.remaining == remaining_spec(elapsed as nat, total as nat),
        elapsed <= total ==> r.remaining == total - elapsed,
        elapsed >= total ==> r.remaining == 0,
        r.minutes == r.remaining / 60,
        r.seconds == r.remaining % 60,
        r.percent == percent_spec(elapsed as nat, total as nat),
        r.filled == filled_spec(elapsed as nat, total as nat),
        r.percent <= 100,
        r.filled <= BAR_WIDTH,
        r.done == (elapsed >= total),
        elapsed >= total ==> r.percent == 100 && r.filled == BAR_WIDTH,
{
    let e = if elapsed > total {
        total
    } else {
        elapsed
    };
    let remaining = total - e;
    let percent_wide = (e as u128) * 100 / (total as u128);
    let filled_wide = (e as u128) * 20 / (total as u128);
    proof {
        lemma_div_is_ordered((e as int) * 100, (total as int) * 100, total as int);
        lemma_div_multiples_vanish(100, total as int);
        lemma_div_is_ordered((e as int) * 20, (total as int) * 20, total as int);
        lemma_div_multiples_vanish(20, total as int);
    }
    CountdownSnapshot {
        remaining,
        minutes: remaining / 60,
        seconds: remaining % 60,
        percent: percent_wide as u64,
        filled: filled_wide as u64,
        done: elapsed >= total,
    }
}

/// The percentage shown never falls as time passes: with a fixed total, more
/// elapsed time gives an equal or greater percentage, and completion gives
/// exactly one hundred.
pub proof fn lemma_percent_monotone(e1: nat, e2: nat, total: nat)
    requires
        total > 0,
        e1 <= e2,
    ensures
        percent_spec(e1, total) <= percent_spec(e2, total),
        e2 >= total ==> percent_spec(e2, total) == 100,
{
    lemma_div_is_ordered(
        (clamped(e1, total) * 100) as int,
        (clamped(e2, total) * 100) as int,
        total as int,
    );
    if e2 >= total {
        lemma_div_multiples_vanish(100, total as int);
    }
}

/// For every non-negative elapsed time up to the total, the remaining time
/// shown is exactly the difference of total and elapsed, and it is never
/// negative, whatever elapsed is.
pub proof fn lemma_remaining_exact(elapsed: nat, total: nat)
    requires
        elapsed <= total,
    ensures
        remaining_spec(elapsed, total) == total - elapsed,
        remaining_spec(elapsed, total) >= 0,
{
}

/// Once elapsed reaches or passes the total, the remaining time shown is
/// exactly zero: the final render cannot be left a second short.
pub proof fn lemma_final_shows_zero(elapsed: nat, total: nat)
    requires
        elapsed >= total,
    ensures
        remaining_spec(elapsed, total) == 0,
        total > 0 ==> percent_spec(elapsed, total) == 100,
        total > 0 ==> filled_spec(elapsed, total) == 20,
{
    if total > 0 {
        lemma_div_multiples_vanish(100, total as int);
        lemma_div_multiples_vanish(20, total as int);
    }
}

/// The filled part of the progress bar, then the unfilled part.
pub open spec fn bar_spec(filled: nat) -> Seq<char>
    recommends
        filled <= 20,
{
    Seq::new(filled, |i: int| '\u{2588}') + Seq::new((20 - filled) as nat, |i: int| '\u{2591}')
}

/// Render the progress bar: `filled` full blocks, then light blocks up to the
/// bar's width.
pub fn render_bar(filled: u64) -> (r: String)
    requires
        filled <= BAR_WIDTH,
    ensures
        r@ == bar_spec(filled as nat),
{
    proof {
        reveal_strlit("\u{2588}");
        reveal_strlit("\u{2591}");
    }
    let mut out = String::new();
    let mut i: u64 = 0;
    while i < filled
        invariant
            i <= filled,
            out@ =~= Seq::new(i as nat, |j: int| '\u{2588}'),
        decreases filled - i,
    {
        out.append("\u{2588}");
        proof {
            reveal_strlit("\u{2588}");
            assert(out@ =~= Seq::new((i + 1) as nat, |j: int| '\u{2588}'));
        }
        i = i + 1;
    }
    let mut k: u64 = 0;
    while k < BAR_WIDTH - filled
        invariant
            filled <= BAR_WIDTH,
            k <= BAR_WIDTH - filled,
            out@ =~= Seq::new(filled as nat, |j: int| '\u{2588}') + Seq::new(
                k as nat,
                |j: int| '\u{2591}',
            ),
        decreases BAR_WIDTH - filled - k,
    {
        out.append("\u{2591}");
        proof {
            reveal_strlit("\u{2591}");
            assert(out@ =~= Seq::new(filled as nat, |j: int| '\u{2588}') + Seq::new(
                (k + 1) as nat,
                |j: int| '\u{2591}',
            ));
        }
        k = k + 1;
    }
    proof {
        assert(out@ =~= bar_spec(filled as nat));
    }
    out
}

/// The text of one in-progress tick: the clock, the bar, and the percentage.
pub open spec fn tick_line_spec(remaining: nat, filled: nat, percent: nat) -> Seq<char> {
    clock_spec(remaining) + " remaining ["@ + bar_spec(filled) + "] "@ + dec_rep(percent) + "%"@
}

/// Render one in-progress tick of the countdown.
pub fn render_tick(snap: &CountdownSnapshot) -> (r: String)
    requires
        snap.filled <= BAR_WIDTH,
    ensures
        r@ == tick_line_spec(snap.remaining as nat, snap.filled as nat, snap.percent as nat),
{
    let mut out = format_clock(snap.remaining);
    out.append(" remaining [");
    out.append(render_bar(snap.filled).as_str());
    out.append("] ");
    out.append(u64_string(snap.percent).as_str());
    out.append("%");
    proof {
        assert(out@ =~= tick_line_spec(
            snap.remaining as nat,
            snap.filled as nat,
            snap.percent as nat,
        ));
    }
    out
}

/// The text of the final render: a zero clock, a full bar, one hundred
/// percent, whatever slippage the ticks had.
pub open spec fn final_line_spec() -> Seq<char> {
    "00:00 - Time's up! ["@ + bar_spec(20) + "] 100%"@
}

/// Render the countdown's final state, which always shows zero remaining.
pub fn render_final() -> (r: String)
    ensures
        r@ == final_line_spec(),
{
    let mut out = String::from_str("00:00 - Time's up! [");
    out.append(render_bar(BAR_WIDTH).as_str());
    out.append("] 100%");
    proof {
        assert(out@ =~= final_line_spec());
    }
    out
}

} // verus!
