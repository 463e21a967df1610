//! Primitive homotopies: the concrete leaves of a combinator tree.

use vstd::prelude::*;
use crate::rat::Rat;
use crate::space::{
    Space, Linear, lerp_val, lerp_fits, lerp_at, lemma_lerp_zero, lemma_lerp_one, lemma_lerp_inv,
};
use crate::axes::{zeros, ones, all_inv};
use crate::homotopy::Homotopy;

verus! {

/// The identity homotopy: `f`, `g` and `h` all return the input unchanged.
#[derive(Clone, Copy, Debug)]
pub struct Id;

impl<X: Space> Homotopy<X, X> for Id {
    open spec fn dim(&self) -> nat {
        1
    }

    open spec fn wf(&self) -> bool {
        true
    }

    open spec fn exact(&self, x: X, s: Seq<Rat>) -> bool {
        true
    }

    open spec fn f_val(&self, x: X) -> X {
        x
    }

    open spec fn g_val(&self, x: X) -> X {
        x
    }

    open spec fn h_val(&self, x: X, s: Seq<Rat>) -> X {
        x
    }

    fn dims(&self) -> usize {
        1
    }

    fn f(&self, x: X) -> X {
        x
    }

    fn g(&self, x: X) -> X {
        x
    }

    fn h(&self, x: X, s: &Vec<Rat>) -> X {
        x
    }

    proof fn lemma_inv(&self, x: X, s: Seq<Rat>) {
    }

    proof fn lemma_congr(&self, x1: X, x2: X, s: Seq<Rat>) {
    }

    proof fn lemma_boundary(&self, x: X) {
        X::lemma_eqv_refl(x);
    }
}

/// The step homotopy: one at parameter zero and zero elsewhere, connecting
/// the constant one to the constant zero.
#[derive(Clone, Copy, Debug)]
pub struct Dirac;

impl<X: Space> Homotopy<X, Rat> for Dirac {
    open spec fn dim(&self) -> nat {
        1
    }

    open spec fn wf(&self) -> bool {
        true
    }

    open spec fn exact(&self, x: X, s: Seq<Rat>) -> bool {
        true
    }

    open spec fn f_val(&self, x: X) -> Rat {
        Rat::one_val()
    }

    open spec fn g_val(&self, x: X) -> Rat {
        Rat::zero_val()
    }

    open spec fn h_val(&self, x: X, s: Seq<Rat>) -> Rat {
        if s[0].is_zero_val() {
            Rat::one_val()
        } else {
            Rat::zero_val()
        }
    }

    fn dims(&self) -> usize {
        1
    }

    fn f(&self, x: X) -> Rat {
        Rat::one()
    }

    fn g(&self, x: X) -> Rat {
        Rat::zero()
    }

    fn h(&self, x: X, s: &Vec<Rat>) -> Rat {
        if s[0].is_zero() {
            Rat::one()
        } else {
            Rat::zero()
        }
    }

    proof fn lemma_inv(&self, x: X, s: Seq<Rat>) {
    }

    proof fn lemma_congr(&self, x1: X, x2: X, s: Seq<Rat>) {
    }

    proof fn lemma_boundary(&self, x: X) {
        assert(zeros(1)[0] == Rat::zero_val());
        assert(ones(1)[0] == Rat::one_val());
    }
}

/// Linear interpolation between two endpoint values: `h` at parameter `s` is
/// `A * (1 - s) + B * s`.
#[derive(Clone, Copy, Debug)]
pub struct Lerp<T>(pub T, pub T);

impl<T: Linear> Homotopy<crate::space::Unit, T> for Lerp<T> {
    open spec fn dim(&self) -> nat {
        1
    }

    open spec fn wf(&self) -> bool {
        self.0.inv() && self.1.inv()
    }

    open spec fn exact(&self, x: crate::space::Unit, s: Seq<Rat>) -> bool {
        s.len() == 1 ==> lerp_fits(self.0, self.1, s[0])
    }

    open spec fn f_val(&self, x: crate::space::Unit) -> T {
        self.0
    }

    open spec fn g_val(&self, x: crate::space::Unit) -> T {
        self.1
    }

    open spec fn h_val(&self, x: crate::space::Unit, s: Seq<Rat>) -> T {
        lerp_val(self.0, self.1, s[0])
    }

    fn dims(&self) -> usize {
        1
    }

    fn f(&self, x: crate::space::Unit) -> T {
        self.0
    }

    fn g(&self, x: crate::space::Unit) -> T {
        self.1
    }

    fn h(&self, x: crate::space::Unit, s: &Vec<Rat>) -> T {
        lerp_at(self.0, self.1, s[0])
    }

    proof fn lemma_inv(&self, x: crate::space::Unit, s: Seq<Rat>) {
        lemma_lerp_inv(self.0, self.1, s[0]);
    }

    proof fn lemma_congr(&self, x1: crate::space::Unit, x2: crate::space::Unit, s: Seq<Rat>) {
        T::lemma_eqv_refl(self.0);
        T::lemma_eqv_refl(self.1);
        T::lemma_eqv_refl(self.h_val(x1, s));
    }

    proof fn lemma_boundary(&self, x: crate::space::Unit) {
        assert(zeros(1)[0] == Rat::zero_val());
        assert(ones(1)[0] == Rat::one_val());
        lemma_lerp_zero(self.0, self.1);
        lemma_lerp_one(self.0, self.1);
    }
}

/// Translation: `h` at parameter `s` moves the input by `s` times a fixed
/// offset, connecting the identity to translation by the full offset.
#[derive(Clone, Copy, Debug)]
pub struct Translate<T>(pub T);

impl<T: Linear> Homotopy<T, T> for Translate<T> {
    open spec fn dim(&self) -> nat {
        1
    }

    open spec fn wf(&self) -> bool {
        self.0.inv()
    }

    open spec fn exact(&self, x: T, s: Seq<Rat>) -> bool {
        &&& s.len() == 1 ==> x.add_fits(self.0.lin_scale(s[0]))
        &&& x.add_fits(self.0)
    }

    open spec fn f_val(&self, x: T) -> T {
        x
    }

    open spec fn g_val(&self, x: T) -> T {
        x.lin_add(self.0)
    }

    open spec fn h_val(&self, x: T, s: Seq<Rat>) -> T {
        x.lin_add(self.0.lin_scale(s[0]))
    }

    fn dims(&self) -> usize {
        1
    }

    fn f(&self, x: T) -> T {
        x
    }

    fn g(&self, x: T) -> T {
        x.add(self.0)
    }

    fn h(&self, x: T, s: &Vec<Rat>) -> T {
        x.add(self.0.scale(s[0]))
    }

    proof fn lemma_inv(&self, x: T, s: Seq<Rat>) {
        T::lemma_ops_inv(x, self.0, s[0]);
        T::lemma_ops_inv(self.0, self.0, s[0]);
        T::lemma_ops_inv(x, self.0.lin_scale(s[0]), s[0]);
    }

    proof fn lemma_congr(&self, x1: T, x2: T, s: Seq<Rat>) {
        T::lemma_ops_inv(self.0, self.0, s[0]);
        T::lemma_add_congr(x1, x2, self.0);
        T::lemma_add_congr(x1, x2, self.0.lin_scale(s[0]));
    }

    proof fn lemma_boundary(&self, x: T) {
        assert(zeros(1)[0] == Rat::zero_val());
        assert(ones(1)[0] == Rat::one_val());
        T::lemma_scale_one(self.0);
        T::lemma_absorb_right(x, self.0);
        T::lemma_eqv_refl(x.lin_add(self.0));
    }
}

/// A quadratic Bezier curve from its first to its third point, steered by
/// the middle control point, evaluated by two levels of interpolation.
#[derive(Clone, Copy, Debug)]
pub struct QuadraticBezier<T>(pub T, pub T, pub T);

impl<T: Linear> QuadraticBezier<T> {
    /// Builds the quadratic Bezier that traces the linear interpolation from
    /// `a` to `b`, by placing the control point halfway.
    pub fn from_linear(a: T, b: T) -> (r: QuadraticBezier<T>)
        ensures
            r == (QuadraticBezier(
                a,
                a.lin_scale(Rat { num: 1, den: 2 }).lin_add(b.lin_scale(Rat { num: 1, den: 2 })),
                b,
            )),
    {
        let half = Rat::new(1, 2);
        QuadraticBezier(a, a.scale(half).add(b.scale(half)), b)
    }
}

impl<T: Linear> Homotopy<crate::space::Unit, T> for QuadraticBezier<T> {
    open spec fn dim(&self) -> nat {
        1
    }

    open spec fn wf(&self) -> bool {
        self.0.inv() && self.1.inv() && self.2.inv()
    }

    open spec fn exact(&self, x: crate::space::Unit, s: Seq<Rat>) -> bool {
        s.len() == 1 ==> {
            &&& lerp_fits(self.0, self.1, s[0])
            &&& lerp_fits(self.1, self.2, s[0])
            &&& lerp_fits(lerp_val(self.0, self.1, s[0]), lerp_val(self.1, self.2, s[0]), s[0])
        }
    }

    open spec fn f_val(&self, x: crate::space::Unit) -> T {
        self.0
    }

    open spec fn g_val(&self, x: crate::space::Unit) -> T {
        self.2
    }

    open spec fn h_val(&self, x: crate::space::Unit, s: Seq<Rat>) -> T {
        lerp_val(lerp_val(self.0, self.1, s[0]), lerp_val(self.1, self.2, s[0]), s[0])
    }

    fn dims(&self) -> usize {
        1
    }

    fn f(&self, x: crate::space::Unit) -> T {
        self.0
    }

    fn g(&self, x: crate::space::Unit) -> T {
        self.2
    }

    fn h(&self, x: crate::space::Unit, s: &Vec<Rat>) -> T {
        let a = lerp_at(self.0, self.1, s[0]);
        let b = lerp_at(self.1, self.2, s[0]);
        lerp_at(a, b, s[0])
    }

    proof fn lemma_inv(&self, x: crate::space::Unit, s: Seq<Rat>) {
        lemma_lerp_inv(self.0, self.1, s[0]);
        lemma_lerp_inv(self.1, self.2, s[0]);
        lemma_lerp_inv(lerp_val(self.0, self.1, s[0]), lerp_val(self.1, self.2, s[0]), s[0]);
    }

    proof fn lemma_congr(&self, x1: crate::space::Unit, x2: crate::space::Unit, s: Seq<Rat>) {
        T::lemma_eqv_refl(self.0);
        T::lemma_eqv_refl(self.2);
        T::lemma_eqv_refl(self.h_val(x1, s));
    }

    proof fn lemma_boundary(&self, x: crate::space::Unit) {
        assert(zeros(1)[0] == Rat::zero_val());
        assert(ones(1)[0] == Rat::one_val());
        let z = Rat::zero_val();
        let o = Rat::one_val();
        lemma_lerp_inv(self.0, self.1, z);
        lemma_lerp_inv(self.1, self.2, z);
        lemma_lerp_inv(self.0, self.1, o);
        lemma_lerp_inv(self.1, self.2, o);
        // Start corner: both inner interpolations collapse leftward, then the
        // outer one does as well.
        lemma_lerp_inv(lerp_val(self.0, self.1, z), lerp_val(self.1, self.2, z), z);
        lemma_lerp_inv(lerp_val(self.0, self.1, o), lerp_val(self.1, self.2, o), o);
        lemma_lerp_zero(lerp_val(self.0, self.1, z), lerp_val(self.1, self.2, z));
        lemma_lerp_zero(self.0, self.1);
        T::lemma_eqv_trans(self.h_val(x, zeros(1)), lerp_val(self.0, self.1, z), self.0);
        // End corner, collapsing rightward.
        lemma_lerp_one(lerp_val(self.0, self.1, o), lerp_val(self.1, self.2, o));
        lemma_lerp_one(self.1, self.2);
        T::lemma_eqv_trans(self.h_val(x, ones(1)), lerp_val(self.1, self.2, o), self.2);
    }
}

/// A cubic Bezier curve in the reduced two-level form: the first and second
/// points are interpolated, the third and fourth are interpolated, and the
/// results are interpolated once more. This equals a full cubic Bezier
/// exactly when the two middle control points coincide, as
/// [`CubicBezier::from_quadratic`] arranges.
#[derive(Clone, Copy, Debug)]
pub struct CubicBezier<T>(pub T, pub T, pub T, pub T);

impl<T> CubicBezier<T> {
    /// Builds the reduced cubic Bezier that traces the quadratic Bezier with
    /// points `a`, `b`, `c`, by repeating the middle control point.
    pub fn from_quadratic(a: T, b: T, c: T) -> (r: CubicBezier<T>)
        where T: Copy
        ensures
            r == (CubicBezier(a, b, b, c)),
    {
        CubicBezier(a, b, b, c)
    }
}

impl<T: Linear> Homotopy<crate::space::Unit, T> for CubicBezier<T> {
    open spec fn dim(&self) -> nat {
        1
    }

    open spec fn wf(&self) -> bool {
        self.0.inv() && self.1.inv() && self.2.inv() && self.3.inv()
    }

    open spec fn exact(&self, x: crate::space::Unit, s: Seq<Rat>) -> bool {
        s.len() == 1 ==> {
            &&& lerp_fits(self.0, self.1, s[0])
            &&& lerp_fits(self.2, self.3, s[0])
            &&& lerp_fits(lerp_val(self.0, self.1, s[0]), lerp_val(self.2, self.3, s[0]), s[0])
        }
    }

    open spec fn f_val(&self, x: crate::space::Unit) -> T {
        self.0
    }

    open spec fn g_val(&self, x: crate::space::Unit) -> T {
        self.3
    }

    open spec fn h_val(&self, x: crate::space::Unit, s: Seq<Rat>) -> T {
        lerp_val(lerp_val(self.0, self.1, s[0]), lerp_val(self.2, self.3, s[0]), s[0])
    }

    fn dims(&self) -> usize {
        1
    }

    fn f(&self, x: crate::space::Unit) -> T {
        self.0
    }

    fn g(&self, x: crate::space::Unit) -> T {
        self.3
    }

    fn h(&self, x: crate::space::Unit, s: &Vec<Rat>) -> T {
        let a = lerp_at(self.0, self.1, s[0]);
        let b = lerp_at(self.2, self.3, s[0]);
        lerp_at(a, b, s[0])
    }

    proof fn lemma_inv(&self, x: crate::space::Unit, s: Seq<Rat>) {
        lemma_lerp_inv(self.0, self.1, s[0]);
        lemma_lerp_inv(self.2, self.3, s[0]);
        lemma_lerp_inv(lerp_val(self.0, self.1, s[0]), lerp_val(self.2, self.3, s[0]), s[0]);
    }

    proof fn lemma_congr(&self, x1: crate::space::Unit, x2: crate::space::Unit, s: Seq<Rat>) {
        T::lemma_eqv_refl(self.0);
        T::lemma_eqv_refl(self.3);
        T::lemma_eqv_refl(self.h_val(x1, s));
    }

    proof fn lemma_boundary(&self, x: crate::space::Unit) {
        assert(zeros(1)[0] == Rat::zero_val());
        assert(ones(1)[0] == Rat::one_val());
        let z = Rat::zero_val();
        let o = Rat::one_val();
        lemma_lerp_inv(self.0, self.1, z);
        lemma_lerp_inv(self.2, self.3, z);
        lemma_lerp_inv(self.0, self.1, o);
        lemma_lerp_inv(self.2, self.3, o);
        lemma_lerp_inv(lerp_val(self.0, self.1, z), lerp_val(self.2, self.3, z), z);
        lemma_lerp_inv(lerp_val(self.0, self.1, o), lerp_val(self.2, self.3, o), o);
        lemma_lerp_zero(lerp_val(self.0, self.1, z), lerp_val(self.2, self.3, z));
        lemma_lerp_zero(self.0, self.1);
        T::lemma_eqv_trans(self.h_val(x, zeros(1)), lerp_val(self.0, self.1, z), self.0);
        lemma_lerp_one(lerp_val(self.0, self.1, o), lerp_val(self.2, self.3, o));
        lemma_lerp_one(self.2, self.3);
        T::lemma_eqv_trans(self.h_val(x, ones(1)), lerp_val(self.2, self.3, o), self.3);
    }
}

} // verus!
