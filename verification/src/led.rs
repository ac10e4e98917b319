//! LED feedback: blink patterns written out as a script of LED actions.
//!
//! Nothing here touches the LED. Each function appends to a script the
//! actions that the driver is to perform in order: put the output line at a
//! level, or suspend for some milliseconds. A pattern is a fixed number of
//! cycles of on, wait, off, wait, played to the end before anything else is
//! looked at.

use vstd::prelude::*;

verus! {

/// The output line that the LED hangs on.
pub const LED_PIN: u8 = 0;

/// One thing for the driver to do with the LED.
#[derive(Clone, Copy, Debug, PartialEq, Eq, Structural)]
pub enum LedAction {
    /// Force the output line to the given level, at once.
    Switch { on: bool },
    /// Suspend for the given number of milliseconds.
    Wait { millis: u64 },
}

/// A finite blink sequence: `repetitions` cycles of on for `on_ms`, then off for `off_ms`.
#[derive(Clone, Copy, Debug, PartialEq, Eq, Structural)]
pub struct LedPattern {
    pub on_ms: u64,
    pub off_ms: u64,
    pub repetitions: u32,
}

/// The four outcomes that the LED reports.
#[derive(Clone, Copy, Debug, PartialEq, Eq, Structural)]
pub enum Signal {
    /// Initialisation is complete.
    Ready,
    /// A heartbeat succeeded.
    Ping,
    /// An interaction was recorded.
    Done,
    /// A heartbeat or an interaction failed.
    Error,
}

impl Signal {
    /// The blink pattern that stands for this signal.
    pub open spec fn spec_pattern(self) -> LedPattern {
        match self {
            Signal::Ready => LedPattern { on_ms: 500, off_ms: 100, repetitions: 2 },
            Signal::Ping => LedPattern { on_ms: 100, off_ms: 50, repetitions: 4 },
            Signal::Done => LedPattern { on_ms: 250, off_ms: 250, repetitions: 4 },
            Signal::Error => LedPattern { on_ms: 2000, off_ms: 200, repetitions: 4 },
        }
    }

    /// The blink pattern that stands for this signal.
    #[verifier::when_used_as_spec(spec_pattern)]
    pub fn pattern(self) -> (pattern: LedPattern)
        ensures
            pattern == self.spec_pattern(),
    {
        match self {
            Signal::Ready => LedPattern { on_ms: 500, off_ms: 100, repetitions: 2 },
            Signal::Ping => LedPattern { on_ms: 100, off_ms: 50, repetitions: 4 },
            Signal::Done => LedPattern { on_ms: 250, off_ms: 250, repetitions: 4 },
            Signal::Error => LedPattern { on_ms: 2000, off_ms: 200, repetitions: 4 },
        }
    }
}

/// The LED held on for `millis` and then switched off.
pub open spec fn flash(millis: u64) -> Seq<LedAction> {
    seq![LedAction::Switch { on: true }, LedAction::Wait { millis }, LedAction::Switch { on: false }]
}

/// One cycle of a pattern: on, wait `on_ms`, off, wait `off_ms`.
pub open spec fn cycle(pattern: LedPattern) -> Seq<LedAction> {
    flash(pattern.on_ms).push(LedAction::Wait { millis: pattern.off_ms })
}

/// `count` cycles of a pattern, one after another.
pub open spec fn cycles(pattern: LedPattern, count: nat) -> Seq<LedAction>
    decreases count,
{
    if count == 0 {
        Seq::empty()
    } else {
        cycles(pattern, (count - 1) as nat) + cycle(pattern)
    }
}

/// Everything that playing a pattern does to the LED, in order.
pub open spec fn pattern_actions(pattern: LedPattern) -> Seq<LedAction> {
    cycles(pattern, pattern.repetitions as nat)
}

/// How often a script writes a level to the output line.
pub open spec fn switches(actions: Seq<LedAction>) -> nat
    decreases actions.len(),
{
    if actions.len() == 0 {
        0
    } else {
        switches(actions.drop_last()) + match actions.last() {
            LedAction::Switch { .. } => 1nat,
            LedAction::Wait { .. } => 0nat,
        }
    }
}

/// The total time, in milliseconds, that a script spends suspended.
pub open spec fn suspension(actions: Seq<LedAction>) -> nat
    decreases actions.len(),
{
    if actions.len() == 0 {
        0
    } else {
        suspension(actions.drop_last()) + match actions.last() {
            LedAction::Switch { .. } => 0nat,
            LedAction::Wait { millis } => millis as nat,
        }
    }
}

/// Switches the LED on.
pub fn led_enable(script: &mut Vec<LedAction>)
    ensures
        final(script)@ == old(script)@.push(LedAction::Switch { on: true }),
{
    script.push(LedAction::Switch { on: true });
}

/// Switches the LED off.
pub fn led_disable(script: &mut Vec<LedAction>)
    ensures
        final(script)@ == old(script)@.push(LedAction::Switch { on: false }),
{
    script.push(LedAction::Switch { on: false });
}

/// Suspends the script for `duration_ms`.
pub fn led_wait(script: &mut Vec<LedAction>, duration_ms: u64)
    ensures
        final(script)@ == old(script)@.push(LedAction::Wait { millis: duration_ms }),
{
    script.push(LedAction::Wait { millis: duration_ms });
}

/// Holds the LED on for `duration_ms`, then switches it off.
pub fn led_enable_millis(script: &mut Vec<LedAction>, duration_ms: u64)
    ensures
        final(script)@ == old(script)@ + flash(duration_ms),
{
    led_enable(script);
    led_wait(script, duration_ms);
    led_disable(script);
    assert(script@ =~= old(script)@ + flash(duration_ms));
}

/// Plays `pattern`: `repetitions` times on for `on_ms`, then off for `off_ms`.
pub fn led_pattern(script: &mut Vec<LedAction>, pattern: LedPattern)
    ensures
        final(script)@ == old(script)@ + pattern_actions(pattern),
{
    let mut counter: u32 = 0;
    assert(script@ =~= old(script)@ + cycles(pattern, 0));
    while counter < pattern.repetitions
        invariant
            counter <= pattern.repetitions,
            script@ == old(script)@ + cycles(pattern, counter as nat),
        decreases pattern.repetitions - counter,
    {
        led_enable_millis(script, pattern.on_ms);
        led_wait(script, pattern.off_ms);
        counter += 1;
        assert(script@ =~= old(script)@ + cycles(pattern, counter as nat));
    }
}

/// Plays the pattern that says initialisation is complete.
pub fn led_pattern_ready(script: &mut Vec<LedAction>)
    ensures
        final(script)@ == old(script)@ + pattern_actions(Signal::Ready.pattern()),
{
    led_pattern(script, Signal::Ready.pattern());
}

/// Plays the pattern that says an interaction was recorded.
pub fn led_pattern_done(script: &mut Vec<LedAction>)
    ensures
        final(script)@ == old(script)@ + pattern_actions(Signal::Done.pattern()),
{
    led_pattern(script, Signal::Done.pattern());
}

/// Plays the pattern that says a request failed.
pub fn led_pattern_error(script: &mut Vec<LedAction>)
    ensures
        final(script)@ == old(script)@ + pattern_actions(Signal::Error.pattern()),
{
    led_pattern(script, Signal::Error.pattern());
}

/// Plays the pattern that says a heartbeat succeeded.
pub fn led_pattern_ping(script: &mut Vec<LedAction>)
    ensures
        final(script)@ == old(script)@ + pattern_actions(Signal::Ping.pattern()),
{
    led_pattern(script, Signal::Ping.pattern());
}

/// Writes and waits of two scripts played one after the other add up.
pub proof fn lemma_totals_of_concatenation(first: Seq<LedAction>, second: Seq<LedAction>)
    ensures
        switches(first + second) == switches(first) + switches(second),
        suspension(first + second) == suspension(first) + suspension(second),
    decreases second.len(),
{
    if second.len() == 0 {
        assert(first + second =~= first);
    } else {
        lemma_totals_of_concatenation(first, second.drop_last());
        assert((first + second).drop_last() =~= first + second.drop_last());
    }
}

/// One cycle writes the output line twice and is suspended for the on time
/// plus the off time.
pub proof fn lemma_totals_of_cycle(pattern: LedPattern)
    ensures
        switches(cycle(pattern)) == 2,
        suspension(cycle(pattern)) == pattern.on_ms + pattern.off_ms,
{
    let c = cycle(pattern);
    let c3 = c.drop_last();
    let c2 = c3.drop_last();
    let c1 = c2.drop_last();
    assert(c3 =~= flash(pattern.on_ms));
    let c0 = c1.drop_last();
    assert(switches(c0) == 0 && suspension(c0) == 0);
    assert(c1.last() == LedAction::Switch { on: true });
    assert(switches(c1) == 1 && suspension(c1) == 0);
    assert(c2.last() == LedAction::Wait { millis: pattern.on_ms });
    assert(switches(c2) == 1 && suspension(c2) == pattern.on_ms);
    assert(switches(c3) == 2 && suspension(c3) == pattern.on_ms);
}

/// `count` cycles write the output line `2 * count` times and are suspended
/// for `count * (on_ms + off_ms)` milliseconds.
pub proof fn lemma_totals_of_cycles(pattern: LedPattern, count: nat)
    ensures
        cycles(pattern, count).len() == 4 * count,
        switches(cycles(pattern, count)) == 2 * count,
        suspension(cycles(pattern, count)) == count * (pattern.on_ms + pattern.off_ms),
    decreases count,
{
    if count > 0 {
        let before = (count - 1) as nat;
        lemma_totals_of_cycles(pattern, before);
        lemma_totals_of_cycle(pattern);
        lemma_totals_of_concatenation(cycles(pattern, before), cycle(pattern));
        assert(count * (pattern.on_ms + pattern.off_ms) == before * (pattern.on_ms + pattern.off_ms)
            + (pattern.on_ms + pattern.off_ms)) by (nonlinear_arith)
            requires
                before == count - 1,
        ;
    } else {
        assert(0 * (pattern.on_ms + pattern.off_ms) == 0);
    }
}

/// Playing a pattern writes the output line exactly twice per repetition, on
/// then off, and is suspended for exactly `repetitions * (on_ms + off_ms)`
/// milliseconds.
pub proof fn lemma_pattern_totals(pattern: LedPattern)
    ensures
        pattern_actions(pattern).len() == 4 * pattern.repetitions,
        switches(pattern_actions(pattern)) == 2 * pattern.repetitions,
        suspension(pattern_actions(pattern)) == pattern.repetitions * (pattern.on_ms
            + pattern.off_ms),
{
    lemma_totals_of_cycles(pattern, pattern.repetitions as nat);
}

/// The action at each position of a played pattern: the positions go round
/// on, wait `on_ms`, off, wait `off_ms`.
pub proof fn lemma_pattern_action_at(pattern: LedPattern, count: nat, i: int)
    requires
        0 <= i < 4 * count,
    ensures
        cycles(pattern, count).len() == 4 * count,
        cycles(pattern, count)[i] == (if i % 4 == 0 {
            LedAction::Switch { on: true }
        } else if i % 4 == 1 {
            LedAction::Wait { millis: pattern.on_ms }
        } else if i % 4 == 2 {
            LedAction::Switch { on: false }
        } else {
            LedAction::Wait { millis: pattern.off_ms }
        }),
    decreases count,
{
    lemma_totals_of_cycles(pattern, count);
    let before = (count - 1) as nat;
    lemma_totals_of_cycles(pattern, before);
    if i < 4 * before {
        lemma_pattern_action_at(pattern, before, i);
    } else {
        assert(cycles(pattern, count)[i] == cycle(pattern)[i - 4 * before]);
    }
}

/// The four signals can be told apart: no two of them share a pattern.
pub proof fn lemma_signals_distinguishable(a: Signal, b: Signal)
    ensures
        a != b ==> a.pattern() != b.pattern(),
{
}

/// Two signals that differ also differ in what the LED does.
pub proof fn lemma_signals_play_differently(a: Signal, b: Signal)
    ensures
        a != b ==> pattern_actions(a.pattern()) != pattern_actions(b.pattern()),
{
    if a != b {
        lemma_pattern_totals(a.pattern());
        lemma_pattern_totals(b.pattern());
        lemma_pattern_action_at(a.pattern(), a.pattern().repetitions as nat, 1);
        lemma_pattern_action_at(b.pattern(), b.pattern().repetitions as nat, 1);
    }
}

} // verus!
