//! Pure output transforms.
//!
//! Combinators that rewrite outputs ([`crate::maps::Remap`],
//! [`crate::maps::SMap`]) or select between two branch functions
//! ([`crate::maps::DiracFrom`]) take the function as a value implementing
//! [`Transform`] or [`Blend`]: a pure map with a spec-level meaning, a
//! congruence law and a validity law, so the boundary contract survives the
//! rewriting. This module also holds the concrete transforms the crate
//! ships: a constant function, a shift by a fixed offset, and the
//! two-point blend that [`crate::circle::sweep`] interpolates with.

use vstd::prelude::*;
use crate::rat::{Rat, rat_mul_congr, rat_add_congr2, rat_neg_congr};
use crate::space::{Space, Linear};
use crate::tuples::{Pair, V2};

verus! {

/// A pure function from one space to another, with congruence and validity
/// laws.
pub trait Transform<A: Space, B: Space>: Copy + Sized {
    /// Structural well-formedness of the transform value itself.
    spec fn twf(self) -> bool;

    /// Whether applying the transform to `a` stays within machine range.
    spec fn ok(self, a: A) -> bool;

    /// The value of the transform at `a`.
    spec fn val(self, a: A) -> B;

    /// Applies the transform.
    fn call(&self, a: A) -> (b: B)
        requires
            self.twf(),
        ensures
            b == self.val(a),
    ;

    /// The transform respects sameness.
    proof fn lemma_congr(self, a1: A, a2: A)
        requires
            self.twf(),
            a1.inv(),
            a2.inv(),
            a1.eqv(a2),
            self.ok(a1),
            self.ok(a2),
        ensures
            self.val(a1).eqv(self.val(a2)),
    ;

    /// The transform keeps values well formed.
    proof fn lemma_inv(self, a: A)
        requires
            self.twf(),
            a.inv(),
        ensures
            self.val(a).inv(),
    ;
}

/// A pure function of a value and one extra scalar, consumed by the added
/// axis of [`crate::maps::SMap`].
pub trait Blend<A: Space, B: Space>: Copy + Sized {
    /// Structural well-formedness of the blend value itself.
    spec fn twf(self) -> bool;

    /// Whether applying the blend to `a` at `s` stays within machine range.
    spec fn ok(self, a: A, s: Rat) -> bool;

    /// The value of the blend at `a` and `s`.
    spec fn val(self, a: A, s: Rat) -> B;

    /// Applies the blend.
    fn call(&self, a: A, s: Rat) -> (b: B)
        requires
            self.twf(),
        ensures
            b == self.val(a, s),
    ;

    /// The blend respects sameness of its value argument.
    proof fn lemma_congr(self, a1: A, a2: A, s: Rat)
        requires
            self.twf(),
            a1.inv(),
            a2.inv(),
            a1.eqv(a2),
            s.inv(),
            self.ok(a1, s),
            self.ok(a2, s),
        ensures
            self.val(a1, s).eqv(self.val(a2, s)),
    ;

    /// The blend keeps values well formed.
    proof fn lemma_inv(self, a: A, s: Rat)
        requires
            self.twf(),
            a.inv(),
            s.inv(),
        ensures
            self.val(a, s).inv(),
    ;
}

/// The constant transform: every input maps to one fixed value.
#[derive(Clone, Copy, Debug)]
pub struct Const<B>(pub B);

impl<A: Space, B: Space> Transform<A, B> for Const<B> {
    open spec fn twf(self) -> bool {
        self.0.inv()
    }

    open spec fn ok(self, a: A) -> bool {
        true
    }

    open spec fn val(self, a: A) -> B {
        self.0
    }

    fn call(&self, a: A) -> B {
        self.0
    }

    proof fn lemma_congr(self, a1: A, a2: A) {
        B::lemma_eqv_refl(self.0);
    }

    proof fn lemma_inv(self, a: A) {
    }
}

/// The shift transform: adds a fixed offset to its input.
#[derive(Clone, Copy, Debug)]
pub struct Shift<T>(pub T);

impl<T: Linear> Transform<T, T> for Shift<T> {
    open spec fn twf(self) -> bool {
        self.0.inv()
    }

    open spec fn ok(self, a: T) -> bool {
        a.add_fits(self.0)
    }

    open spec fn val(self, a: T) -> T {
        a.lin_add(self.0)
    }

    fn call(&self, a: T) -> T {
        a.add(self.0)
    }

    proof fn lemma_congr(self, a1: T, a2: T) {
        T::lemma_add_congr(a1, a2, self.0);
    }

    proof fn lemma_inv(self, a: T) {
        T::lemma_ops_inv(a, self.0, Rat::zero_val());
    }
}

/// The two-point blend `a + (b - a) * s` on one rational coordinate.
pub open spec fn blend_val(a: Rat, b: Rat, s: Rat) -> Rat {
    a.add_val(b.sub_val(a).mul_val(s))
}

/// Whether every step of [`blend_val`] stays within machine range.
pub open spec fn blend_fits(a: Rat, b: Rat, s: Rat) -> bool {
    &&& a.num > i64::MIN
    &&& b.add_fits(a.neg_val())
    &&& b.sub_val(a).mul_fits(s)
    &&& a.add_fits(b.sub_val(a).mul_val(s))
}

/// Evaluates the two-point blend `a + (b - a) * s`.
pub fn blend_at(a: Rat, b: Rat, s: Rat) -> (r: Rat)
    ensures
        r == blend_val(a, b, s),
{
    a.add(b.sub(a).mul(s))
}

/// The blended coordinate is well formed.
pub proof fn lemma_blend_inv(a: Rat, b: Rat, s: Rat)
    requires
        a.inv(),
        b.inv(),
        s.inv(),
    ensures
        blend_val(a, b, s).inv(),
{
    assert(a.neg_val().inv());
    <Rat as Linear>::lemma_ops_inv(b, a.neg_val(), s);
    <Rat as Linear>::lemma_ops_inv(b.sub_val(a), b.sub_val(a), s);
    assert(b.sub_val(a).mul_val(s).inv());
    <Rat as Linear>::lemma_ops_inv(a, b.sub_val(a).mul_val(s), s);
}

/// The blend respects sameness of both endpoints.
pub proof fn lemma_blend_congr(a1: Rat, a2: Rat, b1: Rat, b2: Rat, s: Rat)
    requires
        a1.inv(),
        a2.inv(),
        b1.inv(),
        b2.inv(),
        s.inv(),
        a1.eqv(a2),
        b1.eqv(b2),
        blend_fits(a1, b1, s),
        blend_fits(a2, b2, s),
    ensures
        blend_val(a1, b1, s).eqv(blend_val(a2, b2, s)),
{
    let n1 = a1.neg_val();
    let n2 = a2.neg_val();
    rat_neg_congr(a1, a2);
    let d1 = b1.sub_val(a1);
    let d2 = b2.sub_val(a2);
    rat_add_congr2(b1, b2, n1, n2);
    assert(d1.eqv(d2));
    <Rat as Linear>::lemma_ops_inv(b1, n1, s);
    <Rat as Linear>::lemma_ops_inv(b2, n2, s);
    rat_mul_congr(d1, d2, s);
    <Rat as Linear>::lemma_ops_inv(d1, d1, s);
    <Rat as Linear>::lemma_ops_inv(d2, d2, s);
    rat_add_congr2(a1, a2, d1.mul_val(s), d2.mul_val(s));
}

/// The blend used by a sweep of two plane curves: interpolates pointwise
/// between the two output points along the added axis.
#[derive(Clone, Copy, Debug)]
pub struct SweepBlend;

impl Blend<Pair<V2<Rat>, V2<Rat>>, V2<Rat>> for SweepBlend {
    open spec fn twf(self) -> bool {
        true
    }

    open spec fn ok(self, a: Pair<V2<Rat>, V2<Rat>>, s: Rat) -> bool {
        &&& blend_fits(a.0.0, a.1.0, s)
        &&& blend_fits(a.0.1, a.1.1, s)
    }

    open spec fn val(self, a: Pair<V2<Rat>, V2<Rat>>, s: Rat) -> V2<Rat> {
        V2(blend_val(a.0.0, a.1.0, s), blend_val(a.0.1, a.1.1, s))
    }

    fn call(&self, a: Pair<V2<Rat>, V2<Rat>>, s: Rat) -> V2<Rat> {
        V2(blend_at(a.0.0, a.1.0, s), blend_at(a.0.1, a.1.1, s))
    }

    proof fn lemma_congr(self, a1: Pair<V2<Rat>, V2<Rat>>, a2: Pair<V2<Rat>, V2<Rat>>, s: Rat) {
        lemma_blend_congr(a1.0.0, a2.0.0, a1.1.0, a2.1.0, s);
        lemma_blend_congr(a1.0.1, a2.0.1, a1.1.1, a2.1.1, s);
    }

    proof fn lemma_inv(self, a: Pair<V2<Rat>, V2<Rat>>, s: Rat) {
        lemma_blend_inv(a.0.0, a.1.0, s);
        lemma_blend_inv(a.0.1, a.1.1, s);
    }
}

} // verus!
