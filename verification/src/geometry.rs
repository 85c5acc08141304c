//! Per-frame geometry: from a [`State`] to the ordered list of line-segment
//! endpoints the renderer draws.
//!
//! Positions on the circle are measured in thousandths of a point index:
//! point `i` of `divisions` sits at position `1000 * i` of a circle whose
//! full turn is `1000 * divisions` units, that is at the angle
//! `position / (1000 * divisions) * 2 pi`. The factor is carried in
//! thousandths too, so the real-valued target index `(i * factor) mod
//! divisions` is exactly the position `(i * factor_millis) mod
//! (1000 * divisions)` — plain modular integer arithmetic, even for
//! negative or fractional factors.

use vstd::arithmetic::div_mod::{
    lemma_fundamental_div_mod, lemma_mod_bound, lemma_mod_multiples_vanish,
    lemma_mul_mod_noop_right, lemma_small_mod,
};
use vstd::prelude::*;

use crate::state::State;

verus! {

/// Circle positions carry a point index scaled by a thousand.
pub const POSITION_UNITS_PER_INDEX: u64 = 1000;

/// The size of a full turn of the circle, in position units.
pub open spec fn circle_units(divisions: u16) -> int {
    divisions * POSITION_UNITS_PER_INDEX
}

/// The position of point `i`: where a segment starts. It depends on the
/// index alone, never on the factor.
pub open spec fn point_position(i: int) -> int {
    i * POSITION_UNITS_PER_INDEX
}

/// The position the segment from point `i` ends at: the real-valued index
/// `i * factor` taken modulo `divisions`, in position units.
pub open spec fn target_position(factor_millis: i64, i: int, divisions: u16) -> int
    recommends
        divisions > 0,
{
    (i * factor_millis) % circle_units(divisions)
}

/// The whole vertex list for one frame: endpoints in segment order, two per
/// segment — the point, then its target.
pub open spec fn generate_spec(s: State) -> Seq<u64> {
    Seq::new(
        (2 * s.divisions) as nat,
        |k: int|
            if k % 2 == 0 {
                point_position(k / 2) as u64
            } else {
                target_position(s.factor_millis, k / 2, s.divisions) as u64
            },
    )
}

/// The factor reduced to a canonical position: `factor_millis` taken modulo
/// the size of the full circle, non-negative whatever the factor's sign.
fn factor_position(factor_millis: i64, modulus: u64) -> (r: u64)
    requires
        modulus > 0,
    ensures
        r == factor_millis as int % modulus as int,
        r < modulus,
{
    if factor_millis >= 0 {
        factor_millis as u64 % modulus
    } else {
        let negated: u128 = (-(factor_millis as i128)) as u128;
        let remainder: u128 = negated % modulus as u128;
        proof {
            let f: int = factor_millis as int;
            let m: int = modulus as int;
            let n: int = negated as int;
            let q: int = n / m;
            let rem: int = n % m;
            assert(n == -f);
            lemma_fundamental_div_mod(n, m);
            assert(n == m * q + rem);
            // f == m * (-q) + (-rem), so the multiple of m vanishes:
            assert(m * (-q) == -(m * q)) by (nonlinear_arith);
            assert(f == m * (-q) + (-rem));
            lemma_mod_multiples_vanish(-q, -rem, m);
            assert(f % m == (-rem) % m);
            if rem == 0 {
                lemma_small_mod(0nat, m as nat);
                assert(f % m == 0);
            } else {
                // -rem and m - rem differ by one multiple of m:
                lemma_mod_multiples_vanish(1, -rem, m);
                assert(m * 1 + (-rem) == m - rem);
                lemma_small_mod((m - rem) as nat, m as nat);
                assert(f % m == m - rem);
            }
        }
        if remainder == 0 {
            0
        } else {
            (modulus as u128 - remainder) as u64
        }
    }
}

/// Recomputes the frame's vertex list from scratch: exactly two endpoints
/// per segment and one segment per point, in index order; empty when
/// `divisions` is zero.
pub fn generate(state: &State) -> (r: Vec<u64>)
    ensures
        r@ == generate_spec(*state),
        r@.len() == 2 * state.divisions,
        forall|i: int|
            0 <= i < state.divisions ==> r@[2 * i] == point_position(i),
        forall|i: int|
            0 <= i < state.divisions ==> r@[2 * i + 1] == target_position(
                state.factor_millis,
                i,
                state.divisions,
            ),
{
    let mut r: Vec<u64> = Vec::new();
    if state.divisions == 0 {
        proof {
            assert(r@ =~= generate_spec(*state));
        }
        return r;
    }
    let modulus: u64 = state.divisions as u64 * POSITION_UNITS_PER_INDEX;
    let factor_pos: u64 = factor_position(state.factor_millis, modulus);
    let mut i: u16 = 0;
    while i < state.divisions
        invariant
            i <= state.divisions,
            state.divisions > 0,
            modulus == circle_units(state.divisions),
            factor_pos == state.factor_millis as int % modulus as int,
            factor_pos < modulus,
            r@.len() == 2 * i,
            forall|k: int| 0 <= k < i ==> r@[2 * k] == point_position(k),
            forall|k: int|
                0 <= k < i ==> r@[2 * k + 1] == target_position(
                    state.factor_millis,
                    k,
                    state.divisions,
                ),
        decreases state.divisions - i,
    {
        let from: u64 = i as u64 * POSITION_UNITS_PER_INDEX;
        proof {
            assert(i as int * factor_pos as int <= 65535 * 65535000int)
                by (nonlinear_arith)
                requires
                    0 <= i as int <= 65535,
                    0 <= factor_pos as int <= 65535000,
            ;
        }
        let to: u64 = (i as u64 * factor_pos) % modulus;
        proof {
            lemma_mul_mod_noop_right(i as int, state.factor_millis as int, modulus as int);
        }
        r.push(from);
        r.push(to);
        i = i + 1;
    }
    proof {
        assert forall|k: int| 0 <= k < r@.len() implies r@[k] == generate_spec(*state)[k] by {
            let j: int = k / 2;
            if k % 2 == 0 {
                assert(k == 2 * j);
            } else {
                assert(k == 2 * j + 1);
            }
        }
        assert(r@ =~= generate_spec(*state));
    }
    r
}

/// The vertex list holds exactly two endpoints per division — and so is
/// empty exactly when `divisions` is zero.
pub proof fn lemma_generate_length(s: State)
    ensures
        generate_spec(s).len() == 2 * s.divisions,
        s.divisions == 0 ==> generate_spec(s).len() == 0,
{
}

/// The endpoint where segment `i` starts: the position of point `i` itself.
pub open spec fn segment_start(s: State, i: int) -> u64 {
    generate_spec(s)[2 * i]
}

/// The endpoint where segment `i` ends: the position of point `i`'s target.
pub open spec fn segment_end(s: State, i: int) -> u64 {
    generate_spec(s)[2 * i + 1]
}

/// The vertex list is a function of the state alone: any two lists
/// generated from one unmutated state — [`generate`] ensures each equals
/// `generate_spec` of that state — are identical.
pub proof fn lemma_generate_deterministic(s: State, r1: Seq<u64>, r2: Seq<u64>)
    requires
        r1 == generate_spec(s),
        r2 == generate_spec(s),
    ensures
        r1 == r2,
{
}

/// Segment `i` runs from point `i` itself to the target the factor selects:
/// only the end of a segment depends on the factor.
pub proof fn lemma_segment_endpoints(s: State, i: int)
    requires
        0 <= i < s.divisions,
    ensures
        segment_start(s, i) == point_position(i),
        segment_end(s, i) == target_position(s.factor_millis, i, s.divisions),
{
    assert((2 * i) % 2 == 0 && (2 * i) / 2 == i);
    assert((2 * i + 1) % 2 == 1 && (2 * i + 1) / 2 == i);
}

/// A point's own position is untouched by the factor: two states that agree
/// on `divisions` place every segment start identically, whatever their
/// factors — only the targets move.
pub proof fn lemma_points_independent_of_factor(s1: State, s2: State)
    requires
        s1.divisions == s2.divisions,
    ensures
        forall|i: int| 0 <= i < s1.divisions ==> #[trigger] segment_start(s1, i) == segment_start(s2, i),
{
    assert forall|i: int|
        0 <= i < s1.divisions implies #[trigger] segment_start(s1, i) == segment_start(s2, i) by {
        assert((2 * i) % 2 == 0 && (2 * i) / 2 == i);
    }
}

/// Every position in the vertex list lies on the circle: strictly below one
/// full turn.
pub proof fn lemma_positions_on_circle(s: State)
    ensures
        forall|k: int|
            0 <= k < generate_spec(s).len() ==> generate_spec(s)[k] < circle_units(s.divisions),
{
    assert forall|k: int|
        0 <= k < generate_spec(s).len() implies generate_spec(s)[k] < circle_units(s.divisions) by {
        let j: int = k / 2;
        if k % 2 == 0 {
            assert(k == 2 * j);
            assert(j * POSITION_UNITS_PER_INDEX < s.divisions * POSITION_UNITS_PER_INDEX)
                by (nonlinear_arith)
                requires
                    0 <= j < s.divisions as int,
            ;
        } else {
            assert(k == 2 * j + 1);
            lemma_mod_bound(j * s.factor_millis, circle_units(s.divisions));
        }
    }
}

} // verus!
