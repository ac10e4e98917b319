//! Control core of a one-button, one-LED presence tracker.
//!
//! The device watches a push-button, reports press and release to a remote
//! service over HTTP, keeps the connection warm with a periodic ping and tells
//! the user what happened by blinking an LED. This crate holds every decision
//! of that loop. Of the outside world it reads nothing but the clock: a driver
//! reads the button, carries out the commands the loop hands back, and reports
//! what came of them.
//!
//! * [`button`]: edge detection on the raw button reading.
//! * [`heartbeat`]: when the next ping is due.
//! * [`led`]: blink patterns, written out as a script of LED actions.
//! * [`client`]: what a request carries and how its result is classified.
//! * [`control`]: the loop itself, as a state machine from events to commands.
//!
//! Each module states what its functions compute over plain mathematical
//! values, and proves the laws that hold of them: an edge is reported once per
//! transition of the button, heartbeats never come in bursts, a pattern takes
//! the time its timings add up to, and success and failure are never shown
//! alike.

mod arith;
pub mod button;
mod clock;
pub mod client;
pub mod control;
pub mod heartbeat;
pub mod led;
