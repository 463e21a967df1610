//! Laws of the combinator calculus, stated and proved over the spec-level
//! evaluation functions.

use vstd::prelude::*;
use crate::rat::Rat;
use crate::space::{Space, Linear, Unit, lerp_val};
use crate::homotopy::Homotopy;
use crate::adapt::Inverse;
use crate::compose::Compose;
use crate::cubes::Square;
use crate::sides::Diagonal;
use crate::prim::{QuadraticBezier, CubicBezier};
use crate::tuples::Pair;

verus! {

/// Reversing direction twice changes nothing: the double inverse of a
/// homotopy has the same start and end functions, and evaluates identically
/// at every unit-interval parameter.
pub proof fn lemma_inverse_involution<X: Space, Y: Space, H: Homotopy<X, Y>>(h: H, x: X, s: Rat)
    requires
        s.in_unit(),
    ensures
        (Inverse(Inverse(h))).f_val(x) == h.f_val(x),
        (Inverse(Inverse(h))).g_val(x) == h.g_val(x),
        (Inverse(Inverse(h))).h_val(x, seq![s]) == h.h_val(x, seq![s]),
{
    let t = s.one_minus_val();
    assert(t == Rat { num: (s.den - s.num) as i64, den: s.den });
    assert(t.one_minus_val() == s);
    assert(seq![seq![s][0].one_minus_val()] =~= seq![t]);
    assert(seq![seq![t][0].one_minus_val()] =~= seq![s]);
}

/// Sequential composition associates with parameter slots applied left to
/// right in construction order: a three-stage chain evaluated at the axis
/// vector `[s0, s1, s2]` threads the first stage's output at `s0` through
/// the second stage at `s1` and the third stage at `s2`.
pub proof fn lemma_compose_assoc<
    X: Space,
    Y: Space,
    Z: Space,
    W: Space,
    A: Homotopy<X, Y>,
    B: Homotopy<Y, Z>,
    C: Homotopy<Z, W>,
>(d: Compose<Z, Compose<Y, A, B>, C>, x: X, s0: Rat, s1: Rat, s2: Rat)
    requires
        d.a.a.dim() == 1,
        d.a.b.dim() == 1,
        d.b.dim() == 1,
    ensures
        d.h_val(x, seq![s0, s1, s2]) == d.b.h_val(
            d.a.b.h_val(d.a.a.h_val(x, seq![s0]), seq![s1]),
            seq![s2],
        ),
{
    let s = seq![s0, s1, s2];
    assert(s.subrange(0, 2) =~= seq![s0, s1]);
    assert(s.subrange(2, 3) =~= seq![s2]);
    assert(seq![s0, s1].subrange(0, 1) =~= seq![s0]);
    assert(seq![s0, s1].subrange(1, 2) =~= seq![s1]);
}

/// The diagonal of a square drives both factors simultaneously: at shared
/// parameter `s` it evaluates to the pair of the factors at `s`.
pub proof fn lemma_diagonal_square<
    X1: Space,
    X2: Space,
    Y1: Space,
    Y2: Space,
    H1: Homotopy<X1, Y1>,
    H2: Homotopy<X2, Y2>,
>(d: Diagonal<Square<H1, H2>>, x: Pair<X1, X2>, s: Rat)
    ensures
        d.h_val(x, seq![s]) == Pair(
            d.inner.h1.h_val(x.0, seq![s]),
            d.inner.h2.h_val(x.1, seq![s]),
        ),
{
    let rep = Seq::new(2, |i: int| seq![s][0]);
    assert(seq![rep[0]] =~= seq![s]);
    assert(seq![rep[1]] =~= seq![s]);
}

/// The midpoint control value that [`QuadraticBezier::from_linear`] places
/// between two whole-number endpoints.
pub open spec fn halfway(av: i64, bv: i64) -> Rat {
    (Rat { num: av, den: 1 }).lin_scale(Rat { num: 1, den: 2 }).lin_add(
        (Rat { num: bv, den: 1 }).lin_scale(Rat { num: 1, den: 2 }),
    )
}

/// Whether every evaluation step of the reduced quadratic Bezier between the
/// whole numbers `av` and `bv` at parameter `s` stays within machine range.
pub open spec fn reduction_fits(av: i64, bv: i64, s: Rat) -> bool {
    let p = s.num as int;
    let q = s.den as int;
    let u = q - p;
    let l1n = av * u * (2 * q) + (av + bv) * p * q;
    let l2n = (av + bv) * u * q + bv * p * (2 * q);
    &&& i64::MIN <= av + bv <= i64::MAX
    &&& i64::MIN <= av * u <= i64::MAX
    &&& i64::MIN <= bv * p <= i64::MAX
    &&& i64::MIN <= av * u + bv * p <= i64::MAX
    &&& i64::MIN <= (av + bv) * p <= i64::MAX
    &&& i64::MIN <= (av + bv) * u <= i64::MAX
    &&& 2 * q <= i64::MAX
    &&& i64::MIN <= av * u * (2 * q) <= i64::MAX
    &&& i64::MIN <= (av + bv) * p * q <= i64::MAX
    &&& i64::MIN <= l1n <= i64::MAX
    &&& i64::MIN <= (av + bv) * u * q <= i64::MAX
    &&& i64::MIN <= bv * p * (2 * q) <= i64::MAX
    &&& i64::MIN <= l2n <= i64::MAX
    &&& 2 * q * q <= i64::MAX
    &&& 2 * q * q * q <= i64::MAX
    &&& i64::MIN <= l1n * u <= i64::MAX
    &&& i64::MIN <= l2n * p <= i64::MAX
    &&& i64::MIN <= l1n * u + l2n * p <= i64::MAX
}

/// Degree reduction is exact: the quadratic Bezier whose control point lies
/// halfway between two whole-number endpoints evaluates, at every
/// unit-interval parameter whose arithmetic stays within machine range, to
/// the same value as the plain linear interpolation of the endpoints.
pub proof fn lemma_quadratic_from_linear(av: i64, bv: i64, s: Rat)
    requires
        s.in_unit(),
        reduction_fits(av, bv, s),
    ensures
        (QuadraticBezier(Rat { num: av, den: 1 }, halfway(av, bv), Rat { num: bv, den: 1 }))
            .h_val(Unit, seq![s]).eqv(
            lerp_val(Rat { num: av, den: 1 }, Rat { num: bv, den: 1 }, s),
        ),
{
    let a = Rat { num: av, den: 1 };
    let b = Rat { num: bv, den: 1 };
    let p = s.num as int;
    let q = s.den as int;
    let u = q - p;
    let s1 = s.one_minus_val();
    assert(s1 == Rat { num: u as i64, den: s.den });
    let m = halfway(av, bv);
    assert(a.lin_scale(Rat { num: 1, den: 2 }) == Rat { num: av, den: 2 });
    assert(b.lin_scale(Rat { num: 1, den: 2 }) == Rat { num: bv, den: 2 });
    assert(m == Rat { num: (av + bv) as i64, den: 2 });
    // The two inner interpolations, written out over their cross products.
    let l1 = lerp_val(a, m, s);
    let l2 = lerp_val(m, b, s);
    assert(a.lin_scale(s1) == Rat { num: (av * u) as i64, den: s.den });
    assert(m.lin_scale(s) == Rat { num: ((av + bv) * p) as i64, den: (2 * q) as i64 });
    assert(m.lin_scale(s1) == Rat { num: ((av + bv) * u) as i64, den: (2 * q) as i64 });
    assert(b.lin_scale(s) == Rat { num: (bv * p) as i64, den: s.den });
    let l1n = av * u * (2 * q) + (av + bv) * p * q;
    let l2n = (av + bv) * u * q + bv * p * (2 * q);
    assert(l1 == Rat { num: l1n as i64, den: (2 * q * q) as i64 }) by {
        assert(q != 2 * q);
        assert((av * u) * (2 * q) == av * u * (2 * q));
        assert(((av + bv) * p) * q == (av + bv) * p * q);
        assert(q * (2 * q) == 2 * q * q) by (nonlinear_arith);
    }
    assert(l2 == Rat { num: l2n as i64, den: (2 * q * q) as i64 }) by {
        assert(q != 2 * q);
        assert(((av + bv) * u) * q == (av + bv) * u * q);
        assert((bv * p) * (2 * q) == bv * p * (2 * q));
        assert((2 * q) * q == 2 * q * q) by (nonlinear_arith);
    }
    // The outer interpolation shares one denominator, so it sums the scaled
    // numerators directly.
    let r = lerp_val(l1, l2, s);
    assert(l1.lin_scale(s1) == Rat { num: (l1n * u) as i64, den: (2 * q * q * q) as i64 }) by {
        assert((2 * q * q) * q == 2 * q * q * q) by (nonlinear_arith);
    }
    assert(l2.lin_scale(s) == Rat { num: (l2n * p) as i64, den: (2 * q * q * q) as i64 }) by {
        assert((2 * q * q) * q == 2 * q * q * q) by (nonlinear_arith);
    }
    assert(r == Rat { num: (l1n * u + l2n * p) as i64, den: (2 * q * q * q) as i64 });
    // The straight interpolation also shares one denominator.
    let t = lerp_val(a, b, s);
    assert(t == Rat { num: (av * u + bv * p) as i64, den: s.den });
    // The factored numerator: the two-level sum collapses onto the chord.
    let cc: int = av + bv;
    let x: int = 2 * av * u + cc * p;
    let y: int = cc * u + 2 * bv * p;
    let i: int = av * u + bv * p;
    assert(l1n == q * x) by (nonlinear_arith)
        requires
            l1n == av * u * (2 * q) + cc * p * q,
            x == 2 * av * u + cc * p,
    ;
    assert(l2n == q * y) by (nonlinear_arith)
        requires
            l2n == cc * u * q + bv * p * (2 * q),
            y == cc * u + 2 * bv * p,
    ;
    assert(x * u + y * p == 2 * q * i) by (nonlinear_arith)
        requires
            x == 2 * av * u + cc * p,
            y == cc * u + 2 * bv * p,
            cc == av + bv,
            q == u + p,
            i == av * u + bv * p,
    ;
    assert(l1n * u + l2n * p == q * (x * u + y * p)) by (nonlinear_arith)
        requires
            l1n == q * x,
            l2n == q * y,
    ;
    assert(q * (2 * q * i) == 2 * q * q * i) by (nonlinear_arith);
    assert(l1n * u + l2n * p == 2 * q * q * i);
    assert((l1n * u + l2n * p) * q == i * (2 * q * q * q)) by (nonlinear_arith)
        requires
            l1n * u + l2n * p == 2 * q * q * i,
    ;
    assert(r.eqv(t));
}

/// A cubic Bezier built by repeating the middle control point of a quadratic
/// Bezier evaluates identically to that quadratic Bezier at every parameter:
/// both reduce to the same two-level interpolation.
pub proof fn lemma_cubic_from_quadratic<T: Linear>(a: T, b: T, c: T, x: Unit, s: Seq<Rat>)
    ensures
        (CubicBezier(a, b, b, c)).h_val(x, s) == (QuadraticBezier(a, b, c)).h_val(x, s),
        (CubicBezier(a, b, b, c)).f_val(x) == (QuadraticBezier(a, b, c)).f_val(x),
        (CubicBezier(a, b, b, c)).g_val(x) == (QuadraticBezier(a, b, c)).g_val(x),
{
}

} // verus!
