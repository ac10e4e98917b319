//! The control loop, as a state machine from events to commands.
//!
//! The loop never sleeps, and of the outside world it reads only the clock. A
//! driver keeps it going: it performs the command that the loop handed out
//! last and reports the event that the command asked for. Within one
//! iteration the heartbeat is looked at first and the button second; a request
//! and its LED feedback run to the end before the inputs are looked at again.
//!
//! What the loop does with an event depends on what it is waiting for:
//!
//! * `Starting`, a sample: the first heartbeat is armed, then the iteration
//!   runs as in `Polling`.
//! * `Polling`, a sample: a due heartbeat asks for the ping and leads to
//!   `Pinging`; otherwise the button check follows.
//! * `Pinging`, a reply: the feedback of the ping is played; `Pinged` is next.
//! * `Pinged`, a sample: the heartbeat is pushed forward, then the button
//!   check follows.
//! * `Recording`, a reply: the feedback of the record is played and the LED
//!   switched off; `Polling` is next.
//!
//! The button check leads to `Recording` when it finds a release and to
//! `Polling` otherwise.

use vstd::prelude::*;
use vstd::arithmetic::div_mod::{lemma_fundamental_div_mod, lemma_mod_pos_bound};
use crate::button::{edge_between, observe, Edge};
use crate::clock;
use crate::client::{
    feedback, outcome_of, sleeping_ping, sleeping_record, Endpoint, Reply, STATUS_OK,
};
use crate::heartbeat::{after, due, Duration, HeartbeatSchedule, Instant};
use crate::led::{
    led_disable, led_enable, led_pattern_ready, lemma_signals_play_differently, pattern_actions,
    LedAction, Signal,
};

verus! {

/// How long after the first sample the first heartbeat is due, in milliseconds.
pub const FIRST_PING_DELAY_MS: u64 = 5000;

/// The time between heartbeats, in milliseconds.
pub const PING_INTERVAL_MS: u64 = 30000;

/// The button as the loop knows it.
#[derive(Clone, Copy, Debug, PartialEq, Eq, Structural)]
pub enum LoopState {
    /// The button was not pressed when last looked at.
    Idle,
    /// The button was pressed when last looked at and has not been released since.
    PressedHeld,
}

/// What the loop is waiting for.
#[derive(Clone, Copy, Debug, PartialEq, Eq, Structural)]
pub enum Phase {
    /// Nothing was sampled yet; the first sample arms the first heartbeat.
    Starting,
    /// At the top of an iteration, waiting for a sample.
    Polling,
    /// A ping is in flight.
    Pinging,
    /// The feedback of a ping was played; the next sample finishes the iteration.
    Pinged,
    /// The record of a release is in flight.
    Recording,
}

/// What the driver reports to the loop.
#[derive(Clone, Copy, Debug, PartialEq, Eq, Structural)]
pub enum Event {
    /// The clock and the button, read one right after the other.
    Sample { now: Instant, pressed: bool },
    /// What became of the request that the loop asked for.
    Reply(Reply),
}

/// What the driver is to report next.
#[derive(Clone, Copy, Debug, PartialEq, Eq, Structural)]
pub enum Fetch {
    /// Read the clock and the button.
    Sample,
    /// Perform the request to this endpoint.
    Post(Endpoint),
}

/// What the loop wants done: first the LED script, played to its end, then the fetch.
#[derive(Debug, PartialEq, Eq)]
pub struct Command {
    pub led: Vec<LedAction>,
    pub fetch: Fetch,
}

/// A command with its script as a sequence.
pub struct CommandView {
    pub led: Seq<LedAction>,
    pub fetch: Fetch,
}

impl View for Command {
    type V = CommandView;

    open spec fn view(&self) -> CommandView {
        CommandView { led: self.led@, fetch: self.fetch }
    }
}

/// The state that outlives an iteration of the loop.
#[derive(Clone, Copy, Debug, PartialEq, Eq, Structural)]
pub struct ControlLoop {
    /// The button reading of the last button check.
    pub was_pressed: bool,
    /// The pending heartbeat.
    pub heartbeat: HeartbeatSchedule,
    /// The time between the first sample and the first heartbeat.
    pub first_delay: Duration,
    /// What the loop is waiting for.
    pub phase: Phase,
}

/// The event is one that the loop is waiting for in this phase.
pub open spec fn expected(phase: Phase, event: Event) -> bool {
    match event {
        Event::Sample { .. } => phase == Phase::Starting || phase == Phase::Polling || phase
            == Phase::Pinged,
        Event::Reply(_) => phase == Phase::Pinging || phase == Phase::Recording,
    }
}

/// The fetch that leads to an event the loop is waiting for in this phase.
pub open spec fn awaited(phase: Phase) -> Fetch {
    match phase {
        Phase::Starting | Phase::Polling | Phase::Pinged => Fetch::Sample,
        Phase::Pinging => Fetch::Post(Endpoint::Ping),
        Phase::Recording => Fetch::Post(Endpoint::Record),
    }
}

/// The loop after `now` was sampled and the pending heartbeat pushed to `delay` after it.
pub open spec fn pushed(state: ControlLoop, now: Instant, delay: Duration) -> ControlLoop {
    ControlLoop {
        heartbeat: HeartbeatSchedule {
            next_due: Instant { millis: after(now, delay) as u64 },
            interval: state.heartbeat.interval,
        },
        ..state
    }
}

/// The button check that ends an iteration. An unchanged reading does
/// nothing. An edge is remembered and pushes the heartbeat forward; a press
/// switches the LED on, a release switches it on and asks for the record
/// request.
pub open spec fn check_button(state: ControlLoop, now: Instant, pressed: bool) -> (
    ControlLoop,
    CommandView,
) {
    match edge_between(state.was_pressed, pressed) {
        Edge::NoChange => (
            ControlLoop { phase: Phase::Polling, ..state },
            CommandView { led: Seq::empty(), fetch: Fetch::Sample },
        ),
        Edge::Pressed => (
            ControlLoop {
                was_pressed: true,
                phase: Phase::Polling,
                ..pushed(state, now, state.heartbeat.interval)
            },
            CommandView { led: seq![LedAction::Switch { on: true }], fetch: Fetch::Sample },
        ),
        Edge::Released => (
            ControlLoop {
                was_pressed: false,
                phase: Phase::Recording,
                ..pushed(state, now, state.heartbeat.interval)
            },
            CommandView {
                led: seq![LedAction::Switch { on: true }],
                fetch: Fetch::Post(Endpoint::Record),
            },
        ),
    }
}

/// The heartbeat check that opens an iteration. A due heartbeat asks for the
/// ping and leaves the button for the sample after it; otherwise the button
/// check follows at once.
pub open spec fn check_heartbeat(state: ControlLoop, now: Instant, pressed: bool) -> (
    ControlLoop,
    CommandView,
) {
    if due(now, state.heartbeat.next_due) {
        (
            ControlLoop { phase: Phase::Pinging, ..state },
            CommandView { led: Seq::empty(), fetch: Fetch::Post(Endpoint::Ping) },
        )
    } else {
        check_button(state, now, pressed)
    }
}

/// What the LED does once the reply to a record request is in: the pattern
/// for its outcome, then off.
pub open spec fn record_feedback(reply: Reply) -> Seq<LedAction> {
    pattern_actions(feedback(Endpoint::Record, outcome_of(reply)).pattern()).push(
        LedAction::Switch { on: false },
    )
}

/// One transition of the loop: the state it moves to and the command it hands
/// out, or `None` for an event that the loop is not waiting for.
pub open spec fn step_spec(state: ControlLoop, event: Event) -> Option<(ControlLoop, CommandView)> {
    match (state.phase, event) {
        (Phase::Starting, Event::Sample { now, pressed }) => Some(
            check_heartbeat(pushed(state, now, state.first_delay), now, pressed),
        ),
        (Phase::Polling, Event::Sample { now, pressed }) => Some(
            check_heartbeat(state, now, pressed),
        ),
        (Phase::Pinged, Event::Sample { now, pressed }) => Some(
            check_button(pushed(state, now, state.heartbeat.interval), now, pressed),
        ),
        (Phase::Pinging, Event::Reply(reply)) => Some(
            (
                ControlLoop { phase: Phase::Pinged, ..state },
                CommandView {
                    led: pattern_actions(feedback(Endpoint::Ping, outcome_of(reply)).pattern()),
                    fetch: Fetch::Sample,
                },
            ),
        ),
        (Phase::Recording, Event::Reply(reply)) => Some(
            (
                ControlLoop { phase: Phase::Polling, ..state },
                CommandView { led: record_feedback(reply), fetch: Fetch::Sample },
            ),
        ),
        _ => None,
    }
}

/// Every due time that the loop computes when it takes `event` can be
/// represented. The loop computes one when the first sample arms the first
/// heartbeat, when the sample after a ping pushes the heartbeat forward, and
/// when the button check finds an edge.
pub open spec fn representable(state: ControlLoop, event: Event) -> bool {
    match (state.phase, event) {
        (Phase::Starting, Event::Sample { now, pressed }) => after(now, state.first_delay)
            <= u64::MAX && (state.first_delay.millis > 0 && pressed != state.was_pressed ==> after(
            now,
            state.heartbeat.interval,
        ) <= u64::MAX),
        (Phase::Polling, Event::Sample { now, pressed }) => !due(now, state.heartbeat.next_due)
            && pressed != state.was_pressed ==> after(now, state.heartbeat.interval) <= u64::MAX,
        (Phase::Pinged, Event::Sample { now, .. }) => after(now, state.heartbeat.interval)
            <= u64::MAX,
        _ => true,
    }
}

/// The loop and its driver stay in step: an event is taken exactly when the
/// loop is waiting for it, and the command handed out asks for exactly the
/// event that the loop waits for next. So a request and its feedback are
/// over before the inputs are sampled again, and no two requests overlap.
pub proof fn lemma_command_asks_for_awaited_event(state: ControlLoop, event: Event)
    ensures
        step_spec(state, event).is_some() <==> expected(state.phase, event),
        step_spec(state, event) matches Some((next, handed)) ==> handed.fetch == awaited(next.phase)
            && next.phase != Phase::Starting,
{
}

/// The heartbeat comes first: when it is due at the top of an iteration, the
/// ping is asked for and the button is not looked at, whatever its reading.
pub proof fn lemma_due_heartbeat_goes_first(state: ControlLoop, now: Instant, pressed: bool)
    requires
        state.phase == Phase::Polling,
        due(now, state.heartbeat.next_due),
    ensures
        step_spec(state, Event::Sample { now, pressed }) == Some(
            (
                ControlLoop { phase: Phase::Pinging, ..state },
                CommandView { led: Seq::empty(), fetch: Fetch::Post(Endpoint::Ping) },
            ),
        ),
{
}

/// With no heartbeat due, the iteration is the button check: the loop
/// remembers the reading, and it runs the press handler exactly on a change
/// from released to pressed and the release handler exactly on a change from
/// pressed to released.
pub proof fn lemma_handler_follows_edge(state: ControlLoop, now: Instant, pressed: bool)
    requires
        state.phase == Phase::Polling,
        !due(now, state.heartbeat.next_due),
    ensures
        step_spec(state, Event::Sample { now, pressed }) matches Some((next, handed)) && {
            &&& next.was_pressed == pressed
            &&& (handed.fetch == Fetch::Post(Endpoint::Record) <==> edge_between(
                state.was_pressed,
                pressed,
            ) == Edge::Released)
            &&& (handed.led.len() == 0 <==> edge_between(state.was_pressed, pressed)
                == Edge::NoChange)
            &&& (edge_between(state.was_pressed, pressed) == Edge::NoChange ==> next == state)
            &&& (edge_between(state.was_pressed, pressed) != Edge::NoChange ==> handed.led
                == seq![LedAction::Switch { on: true }])
        },
{
}

/// Whenever a sample changes the due time of the heartbeat, the new due time
/// is counted from that sample: one interval after it, or the first delay
/// after it for the sample that starts the loop. So a use of the button and a
/// heartbeat that fired late both put the next heartbeat a whole interval
/// into the future, and a missed deadline is never made up for.
pub proof fn lemma_due_time_counts_from_sample(state: ControlLoop, now: Instant, pressed: bool)
    requires
        representable(state, Event::Sample { now, pressed }),
        expected(state.phase, Event::Sample { now, pressed }),
    ensures
        step_spec(state, Event::Sample { now, pressed }) matches Some((next, _)) && {
            &&& next.heartbeat.interval == state.heartbeat.interval
            &&& next.first_delay == state.first_delay
            &&& (next.heartbeat.next_due == state.heartbeat.next_due || next.heartbeat.next_due.millis
                == after(now, state.heartbeat.interval) || (state.phase == Phase::Starting
                && next.heartbeat.next_due.millis == after(now, state.first_delay)))
            &&& (state.phase == Phase::Pinged ==> next.heartbeat.next_due.millis == after(
                now,
                state.heartbeat.interval,
            ))
            &&& (next.was_pressed != state.was_pressed ==> next.heartbeat.next_due.millis == after(
                now,
                state.heartbeat.interval,
            ))
        },
{
}

/// A reply changes nothing but what the loop is waiting for, and whatever it
/// says, the loop goes back to sampling: a failed request is not tried again
/// before the next heartbeat or the next use of the button asks for one.
pub proof fn lemma_reply_is_never_retried(state: ControlLoop, reply: Reply)
    ensures
        step_spec(state, Event::Reply(reply)) matches Some((next, handed)) ==> {
            &&& handed.fetch == Fetch::Sample
            &&& next.was_pressed == state.was_pressed
            &&& next.heartbeat == state.heartbeat
            &&& next.first_delay == state.first_delay
        },
{
}

/// The feedback of a ping: the ping pattern exactly for a response with
/// status OK, the error pattern for every other reply.
pub proof fn lemma_ping_feedback(state: ControlLoop, reply: Reply)
    requires
        state.phase == Phase::Pinging,
    ensures
        step_spec(state, Event::Reply(reply)) matches Some((_, handed)) && handed.led
            == pattern_actions(
            (if reply == (Reply::Response { status: STATUS_OK }) {
                Signal::Ping
            } else {
                Signal::Error
            }).pattern(),
        ),
        pattern_actions(Signal::Ping.pattern()) != pattern_actions(Signal::Error.pattern()),
{
    lemma_signals_play_differently(Signal::Ping, Signal::Error);
}

/// The feedback of a release: the done pattern exactly for a response with
/// status OK, the error pattern for every other reply, a timeout and a
/// transport error among them; then the LED goes off. The two patterns are
/// played differently, so the one is never shown for the other.
pub proof fn lemma_release_feedback(state: ControlLoop, reply: Reply)
    requires
        state.phase == Phase::Recording,
    ensures
        step_spec(state, Event::Reply(reply)) matches Some((_, handed)) && handed.led
            == pattern_actions(
            (if reply == (Reply::Response { status: STATUS_OK }) {
                Signal::Done
            } else {
                Signal::Error
            }).pattern(),
        ).push(LedAction::Switch { on: false }),
        pattern_actions(Signal::Done.pattern()) != pattern_actions(Signal::Error.pattern()),
{
    lemma_signals_play_differently(Signal::Done, Signal::Error);
}

/// The loop driven through `events` one after another: the state it ends in,
/// and how many pings it asked for on the way. An event that the loop is not
/// waiting for changes nothing.
pub open spec fn run(state: ControlLoop, events: Seq<Event>) -> (ControlLoop, nat)
    decreases events.len(),
{
    if events.len() == 0 {
        (state, 0)
    } else {
        let (before, pings) = run(state, events.drop_last());
        match step_spec(before, events.last()) {
            Some((next, handed)) => (
                next,
                if handed.fetch == Fetch::Post(Endpoint::Ping) {
                    pings + 1
                } else {
                    pings
                },
            ),
            None => (before, pings),
        }
    }
}

/// The clock reading of the last sample among `events`, or `start` where
/// there is none.
pub open spec fn latest(start: Instant, events: Seq<Event>) -> int
    decreases events.len(),
{
    if events.len() == 0 {
        start.millis as int
    } else {
        match events.last() {
            Event::Sample { now, .. } => now.millis as int,
            Event::Reply(_) => latest(start, events.drop_last()),
        }
    }
}

/// The clock never runs backwards: every sample among `events` was read no
/// earlier than `start` and than the sample before it, and no later than
/// `window` milliseconds after `start`.
pub open spec fn in_order(start: Instant, window: nat, events: Seq<Event>) -> bool
    decreases events.len(),
{
    events.len() > 0 ==> in_order(start, window, events.drop_last()) && (
    events.last() matches Event::Sample { now, .. } ==> latest(start, events.drop_last())
        <= now.millis <= start.millis + window)
}

/// A heartbeat fired at `start` or before: the loop is busy with a ping, or
/// its next heartbeat is due no sooner than one interval after `start`.
pub open spec fn fired_by(state: ControlLoop, start: Instant) -> bool {
    &&& state.phase != Phase::Starting
    &&& (state.phase == Phase::Polling || state.phase == Phase::Recording
        ==> state.heartbeat.next_due.millis >= after(start, state.heartbeat.interval))
}

/// What holds of the loop all along a run that starts when a heartbeat fired:
/// each ping asked for took a whole interval of the time that has passed, and
/// the pending heartbeat is a whole interval further on.
proof fn lemma_pings_are_an_interval_apart(
    state: ControlLoop,
    start: Instant,
    window: nat,
    events: Seq<Event>,
)
    requires
        state.heartbeat.interval.millis > 0,
        start.millis + window + state.heartbeat.interval.millis <= u64::MAX,
        fired_by(state, start),
        in_order(start, window, events),
    ensures
        ({
            let (end, pings) = run(state, events);
            let every = state.heartbeat.interval.millis;
            &&& end.heartbeat.interval == state.heartbeat.interval
            &&& end.phase != Phase::Starting
            &&& start.millis <= latest(start, events) <= start.millis + window
            &&& pings * every <= latest(start, events) - start.millis
            &&& (end.phase == Phase::Polling || end.phase == Phase::Recording
                ==> end.heartbeat.next_due.millis >= start.millis + pings * every + every)
        }),
    decreases events.len(),
{
    let every = state.heartbeat.interval.millis;
    if events.len() == 0 {
        assert(0 * every == 0);
    } else {
        lemma_pings_are_an_interval_apart(state, start, window, events.drop_last());
        let (before, pings) = run(state, events.drop_last());
        assert((pings + 1) * every == pings * every + every) by (nonlinear_arith);
    }
}

/// No bursts, whatever the button does: in a run of the loop that starts when
/// a heartbeat fired and whose samples are read within `window` milliseconds
/// of that, by a clock that never runs backwards, the loop asks for at most
/// `window / interval` pings.
pub proof fn lemma_loop_never_bursts(
    state: ControlLoop,
    start: Instant,
    window: nat,
    events: Seq<Event>,
)
    requires
        state.heartbeat.interval.millis > 0,
        start.millis + window + state.heartbeat.interval.millis <= u64::MAX,
        fired_by(state, start),
        in_order(start, window, events),
    ensures
        run(state, events).1 * state.heartbeat.interval.millis <= window,
        run(state, events).1 <= window / state.heartbeat.interval.millis as nat,
{
    lemma_pings_are_an_interval_apart(state, start, window, events);
    let pings = run(state, events).1 as int;
    let every = state.heartbeat.interval.millis as int;
    lemma_fundamental_div_mod(window as int, every);
    lemma_mod_pos_bound(window as int, every);
    assert(pings <= window as int / every) by (nonlinear_arith)
        requires
            pings * every <= window,
            window == every * (window as int / every) + window as int % every,
            0 <= window as int % every < every,
            0 <= pings,
    ;
}

/// The handler of a press: the LED goes on and stays on.
pub fn button_pressed(script: &mut Vec<LedAction>)
    ensures
        final(script)@ == old(script)@.push(LedAction::Switch { on: true }),
{
    led_enable(script);
}

/// The first half of the handler of a release: the LED goes on, and the
/// request to make is the record request.
pub fn button_released(script: &mut Vec<LedAction>) -> (endpoint: Endpoint)
    ensures
        final(script)@ == old(script)@.push(LedAction::Switch { on: true }),
        endpoint == Endpoint::Record,
{
    led_enable(script);
    Endpoint::Record
}

/// The second half of the handler of a release, once the reply is in: the
/// pattern for the outcome is played and the LED goes off.
pub fn button_released_reply(reply: Reply, script: &mut Vec<LedAction>)
    ensures
        final(script)@ == old(script)@ + record_feedback(reply),
{
    sleeping_record(reply, script);
    led_disable(script);
    assert(script@ =~= old(script)@ + record_feedback(reply));
}

impl ControlLoop {
    /// Starts the loop: the button counts as released, the first heartbeat
    /// will be armed `first_delay` after the first sample, and the first
    /// command plays the ready pattern and asks for that sample.
    pub fn start(first_delay: Duration, interval: Duration) -> (started: (ControlLoop, Command))
        ensures
            started.0 == (ControlLoop {
                was_pressed: false,
                heartbeat: HeartbeatSchedule { next_due: Instant { millis: 0 }, interval },
                first_delay,
                phase: Phase::Starting,
            }),
            started.1@ == (CommandView {
                led: pattern_actions(Signal::Ready.pattern()),
                fetch: Fetch::Sample,
            }),
    {
        let mut led: Vec<LedAction> = Vec::new();
        led_pattern_ready(&mut led);
        assert(led@ =~= pattern_actions(Signal::Ready.pattern()));
        let control = ControlLoop {
            was_pressed: false,
            heartbeat: HeartbeatSchedule { next_due: Instant { millis: 0 }, interval },
            first_delay,
            phase: Phase::Starting,
        };
        (control, Command { led, fetch: Fetch::Sample })
    }

    /// The button as the loop knows it.
    pub fn state(&self) -> (state: LoopState)
        ensures
            state == (if self.was_pressed {
                LoopState::PressedHeld
            } else {
                LoopState::Idle
            }),
    {
        if self.was_pressed {
            LoopState::PressedHeld
        } else {
            LoopState::Idle
        }
    }

    /// What the driver has to report next.
    pub fn awaits(&self) -> (fetch: Fetch)
        ensures
            fetch == awaited(self.phase),
    {
        match self.phase {
            Phase::Starting | Phase::Polling | Phase::Pinged => Fetch::Sample,
            Phase::Pinging => Fetch::Post(Endpoint::Ping),
            Phase::Recording => Fetch::Post(Endpoint::Record),
        }
    }

    /// The button check that ends an iteration.
    fn button_check(&mut self, now: Instant, pressed: bool) -> (command: Command)
        requires
            pressed != old(self).was_pressed ==> after(now, old(self).heartbeat.interval)
                <= u64::MAX,
        ensures
            (*final(self), command@) == check_button(*old(self), now, pressed),
    {
        let (edge, remembered) = observe(pressed, self.was_pressed);
        let mut led: Vec<LedAction> = Vec::new();
        match edge {
            Edge::NoChange => {
                self.phase = Phase::Polling;
                Command { led, fetch: Fetch::Sample }
            },
            Edge::Pressed => {
                self.was_pressed = remembered;
                self.heartbeat.rearm(now);
                self.phase = Phase::Polling;
                button_pressed(&mut led);
                assert(led@ =~= seq![LedAction::Switch { on: true }]);
                Command { led, fetch: Fetch::Sample }
            },
            Edge::Released => {
                self.was_pressed = remembered;
                self.heartbeat.rearm(now);
                self.phase = Phase::Recording;
                let endpoint = button_released(&mut led);
                assert(led@ =~= seq![LedAction::Switch { on: true }]);
                Command { led, fetch: Fetch::Post(endpoint) }
            },
        }
    }

    /// The heartbeat check that opens an iteration.
    fn heartbeat_check(&mut self, now: Instant, pressed: bool) -> (command: Command)
        requires
            !due(now, old(self).heartbeat.next_due) && pressed != old(self).was_pressed ==> after(
                now,
                old(self).heartbeat.interval,
            ) <= u64::MAX,
        ensures
            (*final(self), command@) == check_heartbeat(*old(self), now, pressed),
    {
        if self.heartbeat.is_due(now) {
            self.phase = Phase::Pinging;
            let led: Vec<LedAction> = Vec::new();
            Command { led, fetch: Fetch::Post(Endpoint::Ping) }
        } else {
            self.button_check(now, pressed)
        }
    }

    /// Whether the due times that the loop computes when it takes `event`
    /// can be represented: what [`step`] requires of an event.
    ///
    /// [`step`]: ControlLoop::step
    pub fn can_take(&self, event: Event) -> (fits: bool)
        ensures
            fits == representable(*self, event),
    {
        match event {
            Event::Sample { now, pressed } => {
                let interval_fits = now.millis <= u64::MAX - self.heartbeat.interval.millis;
                let changed = pressed != self.was_pressed;
                match self.phase {
                    Phase::Starting => {
                        let delay_fits = now.millis <= u64::MAX - self.first_delay.millis;
                        delay_fits && (self.first_delay.millis == 0 || !changed || interval_fits)
                    },
                    Phase::Polling => self.heartbeat.is_due(now) || !changed || interval_fits,
                    Phase::Pinged => interval_fits,
                    Phase::Pinging | Phase::Recording => true,
                }
            },
            Event::Reply(_) => true,
        }
    }

    /// Takes one event and hands out the next command.
    ///
    /// An event that the loop is not waiting for is refused: the result is
    /// `None` and the loop is unchanged. A sample must leave room for the due
    /// times computed from it.
    pub fn step(&mut self, event: Event) -> (command: Option<Command>)
        requires
            representable(*old(self), event),
        ensures
            command.is_some() <==> expected(old(self).phase, event),
            match step_spec(*old(self), event) {
                Some((next, handed)) => *final(self) == next && command.is_some()
                    && command.unwrap()@ == handed,
                None => *final(self) == *old(self) && command.is_none(),
            },
    {
        match event {
            Event::Sample { now, pressed } => match self.phase {
                Phase::Starting => {
                    self.heartbeat = HeartbeatSchedule::new(
                        now,
                        self.first_delay,
                        self.heartbeat.interval,
                    );
                    Some(self.heartbeat_check(now, pressed))
                },
                Phase::Polling => Some(self.heartbeat_check(now, pressed)),
                Phase::Pinged => {
                    self.heartbeat.rearm(now);
                    Some(self.button_check(now, pressed))
                },
                Phase::Pinging | Phase::Recording => None,
            },
            Event::Reply(reply) => match self.phase {
                Phase::Pinging => {
                    let mut led: Vec<LedAction> = Vec::new();
                    sleeping_ping(reply, &mut led);
                    assert(led@ =~= pattern_actions(
                        feedback(Endpoint::Ping, outcome_of(reply)).pattern(),
                    ));
                    self.phase = Phase::Pinged;
                    Some(Command { led, fetch: Fetch::Sample })
                },
                Phase::Recording => {
                    let mut led: Vec<LedAction> = Vec::new();
                    button_released_reply(reply, &mut led);
                    assert(led@ =~= record_feedback(reply));
                    self.phase = Phase::Polling;
                    Some(Command { led, fetch: Fetch::Sample })
                },
                Phase::Starting | Phase::Polling | Phase::Pinged => None,
            },
        }
    }

    /// Reads the clock and takes the sample made of that reading and
    /// `pressed`, the button as the driver has just read it.
    ///
    /// Returns the instant that was read with the command that [`step`]
    /// hands out for it. Where the loop is not waiting for a sample, or the
    /// clock stands so late that the next due time cannot be represented,
    /// there is no command and the loop is unchanged.
    ///
    /// [`step`]: ControlLoop::step
    pub fn sample(&mut self, pressed: bool) -> (taken: (Instant, Option<Command>))
        ensures
            ({
                let event = Event::Sample { now: taken.0, pressed };
                match step_spec(*old(self), event) {
                    Some((next, handed)) if representable(*old(self), event) => *final(self)
                        == next && taken.1.is_some() && taken.1.unwrap()@ == handed,
                    _ => *final(self) == *old(self) && taken.1.is_none(),
                }
            }),
    {
        let now = clock::now();
        let event = Event::Sample { now, pressed };
        if self.can_take(event) {
            let command = self.step(event);
            (now, command)
        } else {
            (now, None)
        }
    }
}

} // verus!
