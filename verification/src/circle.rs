//! A closed plane curve through four exact anchor points, and sweeps of two
//! such curves.
//!
//! The curve starts and ends at the point east of the center (so its start
//! and end functions coincide), and passes exactly through the north, west
//! and south anchors at the canonical parameters one quarter, one half and
//! three quarters. Downstream equality-based contract checks rely on those
//! canonical points being exact, so they are special-cased; between two
//! anchors the curve interpolates linearly, which keeps every evaluation an
//! exact rational point.

use vstd::prelude::*;
use crate::rat::Rat;
use crate::space::{Space, Unit, lerp_val, lerp_fits, lerp_at, lemma_lerp_zero, lemma_lerp_inv};
use crate::axes::{zeros, ones, all_inv};
use crate::homotopy::Homotopy;
use crate::tuples::{Pair, V2};
use crate::cubes::Square;
use crate::sides::Diagonal;
use crate::maps::SMap;
use crate::transform::SweepBlend;

verus! {

/// Generates points of a closed curve around a center: exact at the four
/// axis-aligned anchors, linear in between.
#[derive(Clone, Copy, Debug)]
pub struct Circle {
    /// The center of the curve.
    pub center: V2<Rat>,
    /// The radius: the distance from the center to each anchor.
    pub radius: Rat,
}

/// One quarter.
pub open spec fn quarter_val() -> Rat {
    Rat { num: 1, den: 4 }
}

/// One half.
pub open spec fn half_val() -> Rat {
    Rat { num: 1, den: 2 }
}

/// Three quarters.
pub open spec fn three_quarters_val() -> Rat {
    Rat { num: 3, den: 4 }
}

impl Circle {
    /// The anchor east of the center, at parameter zero and one.
    pub open spec fn east(self) -> V2<Rat> {
        V2(self.center.0.add_val(self.radius), self.center.1)
    }

    /// The anchor north of the center, at parameter one quarter.
    pub open spec fn north(self) -> V2<Rat> {
        V2(self.center.0, self.center.1.add_val(self.radius))
    }

    /// The anchor west of the center, at parameter one half.
    pub open spec fn west(self) -> V2<Rat> {
        V2(self.center.0.sub_val(self.radius), self.center.1)
    }

    /// The anchor south of the center, at parameter three quarters.
    pub open spec fn south(self) -> V2<Rat> {
        V2(self.center.0, self.center.1.sub_val(self.radius))
    }

    /// The local parameter within quarter `k`: four times the parameter,
    /// shifted down by `k`.
    pub open spec fn local_val(s: Rat, k: i64) -> Rat {
        if i64::MIN <= 4 * s.num <= i64::MAX && i64::MIN <= k * s.den <= i64::MAX && i64::MIN <= 4
            * s.num - k * s.den <= i64::MAX {
            Rat { num: (4 * s.num - k * s.den) as i64, den: s.den }
        } else {
            Rat::zero_val()
        }
    }

    /// Evaluates the local parameter within quarter `k`.
    pub fn local(s: Rat, k: i64) -> (r: Rat)
        requires
            0 <= k <= 3,
        ensures
            r == Circle::local_val(s, k),
    {
        let four = s.num.checked_mul(4);
        let shift = s.den.checked_mul(k);
        match (four, shift) {
            (Some(a), Some(b)) => match a.checked_sub(b) {
                Some(n) => Rat { num: n, den: s.den },
                None => Rat { num: 0, den: 1 },
            },
            _ => Rat { num: 0, den: 1 },
        }
    }

    /// Whether the anchor arithmetic and every chord interpolation of this
    /// curve at parameter `s` stays within machine range.
    pub open spec fn turn_fits(self, s: Rat) -> bool {
        &&& self.center.0.add_fits(self.radius)
        &&& self.center.1.add_fits(self.radius)
        &&& self.radius.num > i64::MIN
        &&& self.center.0.add_fits(self.radius.neg_val())
        &&& self.center.1.add_fits(self.radius.neg_val())
        &&& i64::MIN <= 4 * s.num <= i64::MAX
        &&& i64::MIN <= 4 * s.num - 1 * s.den <= i64::MAX
        &&& i64::MIN <= 4 * s.num - 2 * s.den <= i64::MAX
        &&& i64::MIN <= 4 * s.num - 3 * s.den <= i64::MAX
        &&& lerp_fits(self.east(), self.north(), Circle::local_val(s, 0))
        &&& lerp_fits(self.north(), self.west(), Circle::local_val(s, 1))
        &&& lerp_fits(self.west(), self.south(), Circle::local_val(s, 2))
        &&& lerp_fits(self.south(), self.east(), Circle::local_val(s, 3))
    }

    /// The point of the curve at parameter `s`: an anchor at the canonical
    /// parameters, a chord interpolation in between.
    pub open spec fn turn_val(self, s: Rat) -> V2<Rat> {
        if s.eqv(Rat::one_val()) {
            self.east()
        } else if s.eqv(half_val()) {
            self.west()
        } else if s.eqv(quarter_val()) {
            self.north()
        } else if s.eqv(three_quarters_val()) {
            self.south()
        } else if s.lt_val(quarter_val()) {
            lerp_val(self.east(), self.north(), Circle::local_val(s, 0))
        } else if s.lt_val(half_val()) {
            lerp_val(self.north(), self.west(), Circle::local_val(s, 1))
        } else if s.lt_val(three_quarters_val()) {
            lerp_val(self.west(), self.south(), Circle::local_val(s, 2))
        } else {
            lerp_val(self.south(), self.east(), Circle::local_val(s, 3))
        }
    }
}

impl Homotopy<Unit, V2<Rat>> for Circle {
    open spec fn dim(&self) -> nat {
        1
    }

    open spec fn wf(&self) -> bool {
        self.center.0.inv() && self.center.1.inv() && self.radius.inv()
    }

    open spec fn exact(&self, x: Unit, s: Seq<Rat>) -> bool {
        s.len() == 1 ==> self.turn_fits(s[0])
    }

    open spec fn f_val(&self, x: Unit) -> V2<Rat> {
        self.east()
    }

    open spec fn g_val(&self, x: Unit) -> V2<Rat> {
        self.east()
    }

    open spec fn h_val(&self, x: Unit, s: Seq<Rat>) -> V2<Rat> {
        self.turn_val(s[0])
    }

    fn dims(&self) -> usize {
        1
    }

    fn f(&self, x: Unit) -> V2<Rat> {
        V2(self.center.0.add(self.radius), self.center.1)
    }

    fn g(&self, x: Unit) -> V2<Rat> {
        V2(self.center.0.add(self.radius), self.center.1)
    }

    fn h(&self, x: Unit, s: &Vec<Rat>) -> V2<Rat> {
        let s0 = s[0];
        let east = V2(self.center.0.add(self.radius), self.center.1);
        let north = V2(self.center.0, self.center.1.add(self.radius));
        let west = V2(self.center.0.sub(self.radius), self.center.1);
        let south = V2(self.center.0, self.center.1.sub(self.radius));
        if s0.same(&Rat::one()) {
            east
        } else if s0.same(&Rat::new(1, 2)) {
            west
        } else if s0.same(&Rat::new(1, 4)) {
            north
        } else if s0.same(&Rat::new(3, 4)) {
            south
        } else if s0.lt(&Rat::new(1, 4)) {
            lerp_at(east, north, Circle::local(s0, 0))
        } else if s0.lt(&Rat::new(1, 2)) {
            lerp_at(north, west, Circle::local(s0, 1))
        } else if s0.lt(&Rat::new(3, 4)) {
            lerp_at(west, south, Circle::local(s0, 2))
        } else {
            lerp_at(south, east, Circle::local(s0, 3))
        }
    }

    proof fn lemma_inv(&self, x: Unit, s: Seq<Rat>) {
        let s0 = s[0];
        lemma_anchors_inv(*self);
        assert(Circle::local_val(s0, 0).inv());
        assert(Circle::local_val(s0, 1).inv());
        assert(Circle::local_val(s0, 2).inv());
        assert(Circle::local_val(s0, 3).inv());
        lemma_lerp_inv(self.east(), self.north(), Circle::local_val(s0, 0));
        lemma_lerp_inv(self.north(), self.west(), Circle::local_val(s0, 1));
        lemma_lerp_inv(self.west(), self.south(), Circle::local_val(s0, 2));
        lemma_lerp_inv(self.south(), self.east(), Circle::local_val(s0, 3));
    }

    proof fn lemma_congr(&self, x1: Unit, x2: Unit, s: Seq<Rat>) {
        self.lemma_inv(x1, s);
        <V2<Rat> as Space>::lemma_eqv_refl(self.f_val(x1));
        <V2<Rat> as Space>::lemma_eqv_refl(self.g_val(x1));
        <V2<Rat> as Space>::lemma_eqv_refl(self.h_val(x1, s));
    }

    proof fn lemma_boundary(&self, x: Unit) {
        let z = zeros(1)[0];
        let o = ones(1)[0];
        assert(z == Rat::zero_val());
        assert(o == Rat::one_val());
        lemma_anchors_inv(*self);
        // At one, the curve closes at the east anchor exactly.
        assert(Rat::one_val().eqv(Rat::one_val()));
        <V2<Rat> as Space>::lemma_eqv_refl(self.east());
        // At zero, the first chord starts at the east anchor: the local
        // parameter is canonical zero, so the interpolation collapses.
        assert(!Rat::zero_val().eqv(Rat::one_val()));
        assert(!Rat::zero_val().eqv(half_val()));
        assert(!Rat::zero_val().eqv(quarter_val()));
        assert(!Rat::zero_val().eqv(three_quarters_val()));
        assert(Rat::zero_val().lt_val(quarter_val()));
        assert(Circle::local_val(Rat::zero_val(), 0) == Rat::zero_val());
        lemma_lerp_zero(self.east(), self.north());
    }
}

/// The four anchors of a well-formed curve are well-formed points.
proof fn lemma_anchors_inv(c: Circle)
    requires
        c.center.0.inv(),
        c.center.1.inv(),
        c.radius.inv(),
    ensures
        c.east().inv(),
        c.north().inv(),
        c.west().inv(),
        c.south().inv(),
{
    assert(c.radius.neg_val().inv());
    <Rat as crate::space::Linear>::lemma_ops_inv(c.center.0, c.radius, Rat::zero_val());
    <Rat as crate::space::Linear>::lemma_ops_inv(c.center.1, c.radius, Rat::zero_val());
    <Rat as crate::space::Linear>::lemma_ops_inv(c.center.0, c.radius.neg_val(), Rat::zero_val());
    <Rat as crate::space::Linear>::lemma_ops_inv(c.center.1, c.radius.neg_val(), Rat::zero_val());
}

/// The sweep of two curves: their square collapsed to a diagonal (both
/// rotate together under one parameter), lifted by one extra axis that
/// interpolates pointwise between the two rotating points.
pub fn sweep(a: Circle, b: Circle) -> (r: SMap<
    Pair<V2<Rat>, V2<Rat>>,
    Diagonal<Square<Circle, Circle>>,
    SweepBlend,
>)
    ensures
        r.inner == (Diagonal { inner: Square { h1: a, h2: b } }),
        r.t == SweepBlend,
{
    SMap::new(Diagonal { inner: Square::new(a, b) }, SweepBlend)
}

} // verus!
