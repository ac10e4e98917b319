//! Edge detection on the raw button reading.
//!
//! The button is sampled once per loop iteration. An edge is the difference
//! between one sample and the sample before it; there is no timed debounce.

use vstd::prelude::*;
use vstd::arithmetic::div_mod::lemma_div_multiples_vanish_fancy;
use crate::arith::{lemma_quotient_below, lemma_quotient_of_successor};

verus! {

/// A transition between two consecutive readings of the button.
#[derive(Clone, Copy, Debug, PartialEq, Eq, Structural)]
pub enum Edge {
    /// The button went from released to pressed.
    Pressed,
    /// The button went from pressed to released.
    Released,
    /// The reading is the same as the one before it.
    NoChange,
}

/// The edge between the reading `was_pressed` and the reading `raw_pressed` that follows it.
pub open spec fn edge_between(was_pressed: bool, raw_pressed: bool) -> Edge {
    if !was_pressed && raw_pressed {
        Edge::Pressed
    } else if was_pressed && !raw_pressed {
        Edge::Released
    } else {
        Edge::NoChange
    }
}

/// What one observation yields: the edge, and the reading to remember for the next one.
pub open spec fn observe_spec(raw_pressed: bool, was_pressed: bool) -> (Edge, bool) {
    (edge_between(was_pressed, raw_pressed), raw_pressed)
}

/// Compares the current raw reading with the remembered one.
///
/// Returns the edge between them and the state to store for the next
/// observation, which is the raw reading itself.
pub fn observe(raw_pressed: bool, was_pressed: bool) -> (result: (Edge, bool))
    ensures
        result == observe_spec(raw_pressed, was_pressed),
{
    let edge = if raw_pressed {
        if was_pressed {
            Edge::NoChange
        } else {
            Edge::Pressed
        }
    } else {
        if was_pressed {
            Edge::Released
        } else {
            Edge::NoChange
        }
    };
    (edge, raw_pressed)
}

/// Feeds `samples` to the monitor one after another, starting from the
/// remembered reading `was_pressed` and handing each observation the state
/// that the one before it returned. Yields the edges reported, in order, and
/// the state remembered at the end.
pub open spec fn run(was_pressed: bool, samples: Seq<bool>) -> (Seq<Edge>, bool)
    decreases samples.len(),
{
    if samples.len() == 0 {
        (Seq::empty(), was_pressed)
    } else {
        let (edges, remembered) = run(was_pressed, samples.drop_last());
        let (edge, next) = observe_spec(samples.last(), remembered);
        (edges.push(edge), next)
    }
}

/// How often `edge` occurs in `edges`.
pub open spec fn occurrences(edges: Seq<Edge>, edge: Edge) -> nat
    decreases edges.len(),
{
    if edges.len() == 0 {
        0
    } else {
        occurrences(edges.drop_last(), edge) + if edges.last() == edge {
            1nat
        } else {
            0nat
        }
    }
}

/// The reading that precedes sample `i`: the initial one for the first sample.
pub open spec fn reading_before(was_pressed: bool, samples: Seq<bool>, i: int) -> bool {
    if i <= 0 {
        was_pressed
    } else {
        samples[i - 1]
    }
}

/// Sample `i` is pressed and the reading before it is not.
pub open spec fn rises_at(was_pressed: bool, samples: Seq<bool>, i: int) -> bool {
    0 <= i < samples.len() && !reading_before(was_pressed, samples, i) && samples[i]
}

/// Sample `i` is released and the reading before it is pressed.
pub open spec fn falls_at(was_pressed: bool, samples: Seq<bool>, i: int) -> bool {
    0 <= i < samples.len() && reading_before(was_pressed, samples, i) && !samples[i]
}

/// The number of positions below `n` at which the input goes from released to pressed.
pub open spec fn rises_below(was_pressed: bool, samples: Seq<bool>, n: int) -> nat
    decreases n,
{
    if n <= 0 {
        0
    } else {
        rises_below(was_pressed, samples, n - 1) + if rises_at(was_pressed, samples, n - 1) {
            1nat
        } else {
            0nat
        }
    }
}

/// The number of positions below `n` at which the input goes from pressed to released.
pub open spec fn falls_below(was_pressed: bool, samples: Seq<bool>, n: int) -> nat
    decreases n,
{
    if n <= 0 {
        0
    } else {
        falls_below(was_pressed, samples, n - 1) + if falls_at(was_pressed, samples, n - 1) {
            1nat
        } else {
            0nat
        }
    }
}

/// The number of released-to-pressed transitions in `samples`, the first
/// sample being compared with `was_pressed`.
pub open spec fn rising_transitions(was_pressed: bool, samples: Seq<bool>) -> nat {
    rises_below(was_pressed, samples, samples.len() as int)
}

/// The number of pressed-to-released transitions in `samples`, the first
/// sample being compared with `was_pressed`.
pub open spec fn falling_transitions(was_pressed: bool, samples: Seq<bool>) -> nat {
    falls_below(was_pressed, samples, samples.len() as int)
}

/// Transitions below `n` depend only on the first `n` samples.
proof fn lemma_transitions_of_prefix(was_pressed: bool, samples: Seq<bool>, n: int)
    requires
        0 <= n < samples.len(),
    ensures
        rises_below(was_pressed, samples.drop_last(), n) == rises_below(was_pressed, samples, n),
        falls_below(was_pressed, samples.drop_last(), n) == falls_below(was_pressed, samples, n),
    decreases n,
{
    if n > 0 {
        lemma_transitions_of_prefix(was_pressed, samples, n - 1);
    }
}

/// The monitor reports one edge per sample and ends up remembering the last sample.
pub proof fn lemma_run_shape(was_pressed: bool, samples: Seq<bool>)
    ensures
        run(was_pressed, samples).0.len() == samples.len(),
        run(was_pressed, samples).1 == reading_before(
            was_pressed,
            samples,
            samples.len() as int,
        ),
        forall|i: int|
            0 <= i < samples.len() ==> #[trigger] run(was_pressed, samples).0[i] == edge_between(
                reading_before(was_pressed, samples, i),
                samples[i],
            ),
    decreases samples.len(),
{
    if samples.len() > 0 {
        let init = samples.drop_last();
        lemma_run_shape(was_pressed, init);
        assert forall|i: int| 0 <= i < samples.len() implies #[trigger] run(
            was_pressed,
            samples,
        ).0[i] == edge_between(reading_before(was_pressed, samples, i), samples[i]) by {
            if i < init.len() {
                assert(run(was_pressed, samples).0[i] == run(was_pressed, init).0[i]);
                assert(reading_before(was_pressed, samples, i) == reading_before(
                    was_pressed,
                    init,
                    i,
                ));
            }
        }
    }
}

/// For every sequence of samples, the monitor reports `Pressed` exactly as
/// often as the input goes from released to pressed, and `Released` exactly as
/// often as it goes from pressed to released.
pub proof fn lemma_edges_match_transitions(was_pressed: bool, samples: Seq<bool>)
    ensures
        occurrences(run(was_pressed, samples).0, Edge::Pressed) == rising_transitions(
            was_pressed,
            samples,
        ),
        occurrences(run(was_pressed, samples).0, Edge::Released) == falling_transitions(
            was_pressed,
            samples,
        ),
    decreases samples.len(),
{
    if samples.len() > 0 {
        let init = samples.drop_last();
        let n = init.len() as int;
        lemma_edges_match_transitions(was_pressed, init);
        lemma_run_shape(was_pressed, init);
        lemma_transitions_of_prefix(was_pressed, samples, n);
        let (edges, remembered) = run(was_pressed, init);
        let edge = edge_between(remembered, samples.last());
        assert(run(was_pressed, samples).0 == edges.push(edge));
        assert(edges.push(edge).drop_last() =~= edges);
        assert(remembered == reading_before(was_pressed, samples, n));
    }
}

/// The same input sampled `rate` times as fast: each sample of `samples`
/// taken `rate` times in a row.
pub open spec fn oversampled(samples: Seq<bool>, rate: nat) -> Seq<bool> {
    Seq::new(samples.len() * rate, |i: int| samples[i / rate as int])
}

/// The transitions among the first `n` samples of the oversampled input are
/// those among the samples of the input that these were taken from.
proof fn lemma_oversampled_transitions_below(
    was_pressed: bool,
    samples: Seq<bool>,
    rate: nat,
    n: int,
)
    requires
        rate >= 1,
        0 < n <= samples.len() * rate,
    ensures
        rises_below(was_pressed, oversampled(samples, rate), n) == rises_below(
            was_pressed,
            samples,
            (n - 1) / rate as int + 1,
        ),
        falls_below(was_pressed, oversampled(samples, rate), n) == falls_below(
            was_pressed,
            samples,
            (n - 1) / rate as int + 1,
        ),
    decreases n,
{
    let fast = oversampled(samples, rate);
    let at = n - 1;
    let from = at / rate as int;
    lemma_quotient_below(at, rate as int, samples.len() as int);
    assert(fast[at] == samples[from]);
    if at == 0 {
        assert(rises_below(was_pressed, fast, 0) == 0);
        assert(rises_below(was_pressed, samples, 0) == 0);
        assert(falls_below(was_pressed, fast, 0) == 0);
        assert(falls_below(was_pressed, samples, 0) == 0);
        assert(rises_at(was_pressed, fast, 0) == rises_at(was_pressed, samples, 0));
        assert(falls_at(was_pressed, fast, 0) == falls_at(was_pressed, samples, 0));
    } else {
        lemma_oversampled_transitions_below(was_pressed, samples, rate, at);
        lemma_quotient_of_successor(at - 1, rate as int);
        lemma_quotient_below(at - 1, rate as int, samples.len() as int);
        let before = (at - 1) / rate as int;
        assert(fast[at - 1] == samples[before]);
        if from == before {
            assert(!rises_at(was_pressed, fast, at));
            assert(!falls_at(was_pressed, fast, at));
        } else {
            assert(from == before + 1);
            assert(rises_at(was_pressed, fast, at) == rises_at(was_pressed, samples, from));
            assert(falls_at(was_pressed, fast, at) == falls_at(was_pressed, samples, from));
        }
    }
}

/// Sampling faster than the button moves changes nothing: when every sample
/// is taken `rate` times in a row, the monitor reports as many `Pressed` and
/// as many `Released` edges as it does for the samples taken once.
pub proof fn lemma_sampling_rate_adds_no_edges(was_pressed: bool, samples: Seq<bool>, rate: nat)
    requires
        rate >= 1,
    ensures
        occurrences(run(was_pressed, oversampled(samples, rate)).0, Edge::Pressed) == occurrences(
            run(was_pressed, samples).0,
            Edge::Pressed,
        ),
        occurrences(run(was_pressed, oversampled(samples, rate)).0, Edge::Released)
            == occurrences(run(was_pressed, samples).0, Edge::Released),
{
    let fast = oversampled(samples, rate);
    lemma_edges_match_transitions(was_pressed, samples);
    lemma_edges_match_transitions(was_pressed, fast);
    let count = samples.len() as int;
    if count > 0 {
        assert(count * rate == rate * (count - 1) + (rate - 1) + 1) by (nonlinear_arith);
        lemma_div_multiples_vanish_fancy(count - 1, rate - 1, rate as int);
        lemma_oversampled_transitions_below(was_pressed, samples, rate, count * rate);
    } else {
        assert(count * rate == 0);
    }
}

} // verus!
