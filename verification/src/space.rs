//! Value spaces: the capability sets that inputs and outputs of homotopies
//! satisfy.
//!
//! [`Space`] is the capability every input and output type carries: a validity
//! predicate, an exact sameness relation (an equivalence), and a decision
//! procedure for it. [`Linear`] adds addition and scaling by a rational
//! parameter, with the algebraic laws that make linear interpolation respect
//! the boundary contract. [`Origin`] distinguishes a default point, used by
//! the evaluation entry points that fix the input.

use vstd::prelude::*;
use crate::rat::Rat;
use crate::rat::rat_eqv_trans;

verus! {

/// A space of values: validity, exact sameness, and a decision for it.
pub trait Space: Copy + Sized {
    /// Whether the value is well formed.
    spec fn inv(self) -> bool;

    /// Whether two values denote the same point of the space.
    spec fn eqv(self, o: Self) -> bool;

    /// Decides sameness.
    fn same(&self, o: &Self) -> (r: bool)
        ensures
            r == self.eqv(*o),
    ;

    /// Sameness is reflexive.
    proof fn lemma_eqv_refl(a: Self)
        ensures
            a.eqv(a),
    ;

    /// Sameness is symmetric.
    proof fn lemma_eqv_sym(a: Self, b: Self)
        requires
            a.eqv(b),
        ensures
            b.eqv(a),
    ;

    /// Sameness is transitive on well-formed values.
    proof fn lemma_eqv_trans(a: Self, b: Self, c: Self)
        requires
            a.inv(),
            b.inv(),
            c.inv(),
            a.eqv(b),
            b.eqv(c),
        ensures
            a.eqv(c),
    ;
}

/// A space with addition and scaling by a rational, enough for linear
/// interpolation.
pub trait Linear: Space {
    /// The sum of two values.
    spec fn lin_add(self, o: Self) -> Self;

    /// The value scaled by a rational.
    spec fn lin_scale(self, s: Rat) -> Self;

    /// Whether the sum stays within machine range, so that `lin_add` is the
    /// exact mathematical sum.
    spec fn add_fits(self, o: Self) -> bool;

    /// Adds two values.
    fn add(self, o: Self) -> (r: Self)
        ensures
            r == self.lin_add(o),
    ;

    /// Scales a value by a rational.
    fn scale(self, s: Rat) -> (r: Self)
        ensures
            r == self.lin_scale(s),
    ;

    /// Scaling by one changes nothing, not even the representation.
    proof fn lemma_scale_one(a: Self)
        requires
            a.inv(),
        ensures
            a.lin_scale(Rat::one_val()) == a,
    ;

    /// A zero-scaled term on the right of a sum is absorbed.
    proof fn lemma_absorb_right(a: Self, b: Self)
        requires
            a.inv(),
            b.inv(),
            a.add_fits(b.lin_scale(Rat::zero_val())),
        ensures
            a.lin_add(b.lin_scale(Rat::zero_val())).eqv(a),
    ;

    /// A zero-scaled term on the left of a sum is absorbed.
    proof fn lemma_absorb_left(a: Self, b: Self)
        requires
            a.inv(),
            b.inv(),
            a.lin_scale(Rat::zero_val()).add_fits(b),
        ensures
            a.lin_scale(Rat::zero_val()).lin_add(b).eqv(b),
    ;

    /// Addition and scaling keep values well formed.
    proof fn lemma_ops_inv(a: Self, b: Self, s: Rat)
        requires
            a.inv(),
            b.inv(),
            s.inv(),
        ensures
            a.lin_add(b).inv(),
            a.lin_scale(s).inv(),
    ;

    /// Adding the same value to same points gives same points.
    proof fn lemma_add_congr(a1: Self, a2: Self, b: Self)
        requires
            a1.inv(),
            a2.inv(),
            b.inv(),
            a1.eqv(a2),
            a1.add_fits(b),
            a2.add_fits(b),
        ensures
            a1.lin_add(b).eqv(a2.lin_add(b)),
    ;
}

/// The linear interpolation `u * (1 - s) + v * s`.
pub open spec fn lerp_val<T: Linear>(u: T, v: T, s: Rat) -> T {
    u.lin_scale(s.one_minus_val()).lin_add(v.lin_scale(s))
}

/// Whether the sum inside [`lerp_val`] stays within machine range.
pub open spec fn lerp_fits<T: Linear>(u: T, v: T, s: Rat) -> bool {
    u.lin_scale(s.one_minus_val()).add_fits(v.lin_scale(s))
}

/// Evaluates the linear interpolation `u * (1 - s) + v * s`.
pub fn lerp_at<T: Linear>(u: T, v: T, s: Rat) -> (r: T)
    ensures
        r == lerp_val(u, v, s),
{
    u.scale(s.one_minus()).add(v.scale(s))
}

/// At parameter zero the interpolation returns its first endpoint.
pub proof fn lemma_lerp_zero<T: Linear>(u: T, v: T)
    requires
        u.inv(),
        v.inv(),
        lerp_fits(u, v, Rat::zero_val()),
    ensures
        lerp_val(u, v, Rat::zero_val()).eqv(u),
{
    assert(Rat::zero_val().one_minus_val() == Rat::one_val());
    T::lemma_scale_one(u);
    T::lemma_absorb_right(u, v);
}

/// At parameter one the interpolation returns its second endpoint.
pub proof fn lemma_lerp_one<T: Linear>(u: T, v: T)
    requires
        u.inv(),
        v.inv(),
        lerp_fits(u, v, Rat::one_val()),
    ensures
        lerp_val(u, v, Rat::one_val()).eqv(v),
{
    assert(Rat::one_val().one_minus_val() == Rat::zero_val());
    T::lemma_scale_one(v);
    T::lemma_absorb_left(u, v);
}

/// The interpolated value is well formed.
pub proof fn lemma_lerp_inv<T: Linear>(u: T, v: T, s: Rat)
    requires
        u.inv(),
        v.inv(),
        s.inv(),
    ensures
        lerp_val(u, v, s).inv(),
{
    assert(s.one_minus_val().inv());
    T::lemma_ops_inv(u, u, s.one_minus_val());
    T::lemma_ops_inv(v, v, s);
    T::lemma_ops_inv(u.lin_scale(s.one_minus_val()), v.lin_scale(s), s);
}

/// A space with a distinguished default point, used when only the parameter
/// of a homotopy varies.
pub trait Origin: Space {
    /// The default point.
    spec fn origin_val() -> Self;

    /// The default point is well formed.
    proof fn lemma_origin_inv()
        ensures
            Self::origin_val().inv(),
    ;

    /// Returns the default point.
    fn origin() -> (r: Self)
        ensures
            r == Self::origin_val(),
    ;
}

/// The one-point input space for homotopies whose shape is carried entirely
/// by the parameter.
#[derive(Clone, Copy, Debug, PartialEq, Eq, Structural)]
pub struct Unit;

impl Space for Unit {
    open spec fn inv(self) -> bool {
        true
    }

    open spec fn eqv(self, o: Self) -> bool {
        true
    }

    fn same(&self, o: &Self) -> bool {
        true
    }

    proof fn lemma_eqv_refl(a: Self) {
    }

    proof fn lemma_eqv_sym(a: Self, b: Self) {
    }

    proof fn lemma_eqv_trans(a: Self, b: Self, c: Self) {
    }
}

impl Origin for Unit {
    open spec fn origin_val() -> Self {
        Unit
    }

    proof fn lemma_origin_inv() {
    }

    fn origin() -> Self {
        Unit
    }
}

impl Space for bool {
    open spec fn inv(self) -> bool {
        true
    }

    open spec fn eqv(self, o: Self) -> bool {
        self == o
    }

    fn same(&self, o: &Self) -> bool {
        *self == *o
    }

    proof fn lemma_eqv_refl(a: Self) {
    }

    proof fn lemma_eqv_sym(a: Self, b: Self) {
    }

    proof fn lemma_eqv_trans(a: Self, b: Self, c: Self) {
    }
}

impl Space for Rat {
    open spec fn inv(self) -> bool {
        self.den >= 1
    }

    open spec fn eqv(self, o: Self) -> bool {
        self.num * o.den == o.num * self.den
    }

    fn same(&self, o: &Self) -> bool {
        Rat::same(self, o)
    }

    proof fn lemma_eqv_refl(a: Self) {
    }

    proof fn lemma_eqv_sym(a: Self, b: Self) {
    }

    proof fn lemma_eqv_trans(a: Self, b: Self, c: Self) {
        rat_eqv_trans(a, b, c);
    }
}

impl Linear for Rat {
    open spec fn lin_add(self, o: Self) -> Self {
        self.add_val(o)
    }

    open spec fn lin_scale(self, s: Rat) -> Self {
        self.mul_val(s)
    }

    open spec fn add_fits(self, o: Self) -> bool {
        Rat::add_fits(self, o)
    }

    fn add(self, o: Self) -> Self {
        Rat::add(self, o)
    }

    fn scale(self, s: Rat) -> Self {
        Rat::mul(self, s)
    }

    proof fn lemma_scale_one(a: Self) {
        assert(a.num * 1 == a.num);
        assert(a.den * 1 == a.den);
    }

    proof fn lemma_absorb_right(a: Self, b: Self) {
        let bz = b.mul_val(Rat::zero_val());
        assert(b.num * 0 == 0);
        assert(b.den * 1 == b.den);
        assert(bz == Rat { num: 0i64, den: b.den });
        let r = a.add_val(bz);
        if a.den == b.den {
            assert(r == Rat { num: a.num, den: a.den });
        } else {
            assert(a.num * bz.den + bz.num * a.den == a.num * b.den) by (nonlinear_arith)
                requires
                    bz.num == 0,
                    bz.den == b.den,
            ;
            assert(r.num == a.num * b.den && r.den == a.den * b.den);
            assert(r.num * a.den == a.num * r.den) by (nonlinear_arith)
                requires
                    r.num == a.num * b.den,
                    r.den == a.den * b.den,
            ;
        }
    }

    proof fn lemma_absorb_left(a: Self, b: Self) {
        let az = a.mul_val(Rat::zero_val());
        assert(a.num * 0 == 0);
        assert(a.den * 1 == a.den);
        assert(az == Rat { num: 0i64, den: a.den });
        let r = az.add_val(b);
        if a.den == b.den {
            assert(r == Rat { num: b.num, den: a.den });
        } else {
            assert(az.num * b.den + b.num * az.den == b.num * a.den) by (nonlinear_arith)
                requires
                    az.num == 0,
                    az.den == a.den,
            ;
            assert(r.num == b.num * a.den && r.den == a.den * b.den);
            assert(r.num * b.den == b.num * r.den) by (nonlinear_arith)
                requires
                    r.num == b.num * a.den,
                    r.den == a.den * b.den,
            ;
        }
    }

    proof fn lemma_ops_inv(a: Self, b: Self, s: Rat) {
        if a.add_fits(b) {
            assert(a.den * b.den >= 1) by (nonlinear_arith)
                requires
                    a.den >= 1,
                    b.den >= 1,
            ;
        }
        if a.mul_fits(s) {
            assert(a.den * s.den >= 1) by (nonlinear_arith)
                requires
                    a.den >= 1,
                    s.den >= 1,
            ;
        }
    }

    proof fn lemma_add_congr(a1: Self, a2: Self, b: Self) {
        crate::rat::rat_add_congr2(a1, a2, b, b);
    }
}

impl Origin for Rat {
    open spec fn origin_val() -> Self {
        Rat::zero_val()
    }

    proof fn lemma_origin_inv() {
    }

    fn origin() -> Self {
        Rat::zero()
    }
}

} // verus!
