//! Facts about integer division that the proofs of the other modules share.

use vstd::prelude::*;
use vstd::arithmetic::div_mod::{
    lemma_div_multiples_vanish_fancy, lemma_fundamental_div_mod, lemma_mod_pos_bound,
};

verus! {

/// How a quotient moves when the dividend grows by one.
pub proof fn lemma_quotient_of_successor(x: int, d: int)
    requires
        0 <= x,
        0 < d,
    ensures
        0 <= x % d < d,
        0 <= x / d,
        x == d * (x / d) + x % d,
        x % d + 1 == d ==> (x + 1) / d == x / d + 1,
        x % d + 1 < d ==> (x + 1) / d == x / d,
{
    lemma_fundamental_div_mod(x, d);
    lemma_mod_pos_bound(x, d);
    let q = x / d;
    let r = x % d;
    assert(0 <= q) by (nonlinear_arith)
        requires
            x == d * q + r,
            0 <= r < d,
            0 <= x,
    ;
    if r + 1 == d {
        assert(x + 1 == d * (q + 1) + 0) by (nonlinear_arith)
            requires
                x == d * q + r,
                r + 1 == d,
        ;
        lemma_div_multiples_vanish_fancy(q + 1, 0, d);
    } else {
        lemma_div_multiples_vanish_fancy(q, r + 1, d);
    }
}

/// A position below `count * d` falls into one of the first `count` blocks of `d`.
pub proof fn lemma_quotient_below(x: int, d: int, count: int)
    requires
        0 <= x < count * d,
        0 < d,
    ensures
        0 <= x / d < count,
{
    lemma_fundamental_div_mod(x, d);
    lemma_mod_pos_bound(x, d);
    let q = x / d;
    let r = x % d;
    assert(0 <= q < count) by (nonlinear_arith)
        requires
            x == d * q + r,
            0 <= r < d,
            0 <= x < count * d,
    ;
}

} // verus!
