//! Tuple and fixed-size vector value types.
//!
//! Products of homotopies output one value per factor: [`Pair`], [`Triple`]
//! and [`Quad`] hold them in tuple form, and [`V2`], [`V3`] and [`V4`] in
//! uniform fixed-size vector form; the `AsVec` adapter bridges the two.
//! Sameness and validity are componentwise, and the uniform vectors of a
//! linear space are again linear, componentwise.

use vstd::prelude::*;
use crate::rat::Rat;
use crate::space::{Space, Linear, Origin};

verus! {

/// A pair of values, one per factor of a two-fold product.
#[derive(Clone, Copy, Debug)]
pub struct Pair<A, B>(pub A, pub B);

/// A triple of values, one per factor of a three-fold product.
#[derive(Clone, Copy, Debug)]
pub struct Triple<A, B, C>(pub A, pub B, pub C);

/// A quadruple of values, one per factor of a four-fold product.
#[derive(Clone, Copy, Debug)]
pub struct Quad<A, B, C, D>(pub A, pub B, pub C, pub D);

/// A two-component vector over one element type.
#[derive(Clone, Copy, Debug)]
pub struct V2<T>(pub T, pub T);

/// A three-component vector over one element type.
#[derive(Clone, Copy, Debug)]
pub struct V3<T>(pub T, pub T, pub T);

/// A four-component vector over one element type.
#[derive(Clone, Copy, Debug)]
pub struct V4<T>(pub T, pub T, pub T, pub T);

impl<A: Space, B: Space> Space for Pair<A, B> {
    open spec fn inv(self) -> bool {
        self.0.inv() && self.1.inv()
    }

    open spec fn eqv(self, o: Self) -> bool {
        self.0.eqv(o.0) && self.1.eqv(o.1)
    }

    fn same(&self, o: &Self) -> bool {
        let r0 = self.0.same(&o.0);
        let r1 = self.1.same(&o.1);
        r0 && r1
    }

    proof fn lemma_eqv_refl(a: Self) {
        A::lemma_eqv_refl(a.0);
        B::lemma_eqv_refl(a.1);
    }

    proof fn lemma_eqv_sym(a: Self, b: Self) {
        A::lemma_eqv_sym(a.0, b.0);
        B::lemma_eqv_sym(a.1, b.1);
    }

    proof fn lemma_eqv_trans(a: Self, b: Self, c: Self) {
        A::lemma_eqv_trans(a.0, b.0, c.0);
        B::lemma_eqv_trans(a.1, b.1, c.1);
    }
}

impl<A: Origin, B: Origin> Origin for Pair<A, B> {
    open spec fn origin_val() -> Self {
        Pair(A::origin_val(), B::origin_val())
    }

    proof fn lemma_origin_inv() {
        A::lemma_origin_inv();
        B::lemma_origin_inv();
    }

    fn origin() -> Self {
        Pair(A::origin(), B::origin())
    }
}

impl<A: Space, B: Space, C: Space> Space for Triple<A, B, C> {
    open spec fn inv(self) -> bool {
        self.0.inv() && self.1.inv() && self.2.inv()
    }

    open spec fn eqv(self, o: Self) -> bool {
        self.0.eqv(o.0) && self.1.eqv(o.1) && self.2.eqv(o.2)
    }

    fn same(&self, o: &Self) -> bool {
        let r0 = self.0.same(&o.0);
        let r1 = self.1.same(&o.1);
        let r2 = self.2.same(&o.2);
        r0 && r1 && r2
    }

    proof fn lemma_eqv_refl(a: Self) {
        A::lemma_eqv_refl(a.0);
        B::lemma_eqv_refl(a.1);
        C::lemma_eqv_refl(a.2);
    }

    proof fn lemma_eqv_sym(a: Self, b: Self) {
        A::lemma_eqv_sym(a.0, b.0);
        B::lemma_eqv_sym(a.1, b.1);
        C::lemma_eqv_sym(a.2, b.2);
    }

    proof fn lemma_eqv_trans(a: Self, b: Self, c: Self) {
        A::lemma_eqv_trans(a.0, b.0, c.0);
        B::lemma_eqv_trans(a.1, b.1, c.1);
        C::lemma_eqv_trans(a.2, b.2, c.2);
    }
}

impl<A: Origin, B: Origin, C: Origin> Origin for Triple<A, B, C> {
    open spec fn origin_val() -> Self {
        Triple(A::origin_val(), B::origin_val(), C::origin_val())
    }

    proof fn lemma_origin_inv() {
        A::lemma_origin_inv();
        B::lemma_origin_inv();
        C::lemma_origin_inv();
    }

    fn origin() -> Self {
        Triple(A::origin(), B::origin(), C::origin())
    }
}

impl<A: Space, B: Space, C: Space, D: Space> Space for Quad<A, B, C, D> {
    open spec fn inv(self) -> bool {
        self.0.inv() && self.1.inv() && self.2.inv() && self.3.inv()
    }

    open spec fn eqv(self, o: Self) -> bool {
        self.0.eqv(o.0) && self.1.eqv(o.1) && self.2.eqv(o.2) && self.3.eqv(o.3)
    }

    fn same(&self, o: &Self) -> bool {
        let r0 = self.0.same(&o.0);
        let r1 = self.1.same(&o.1);
        let r2 = self.2.same(&o.2);
        let r3 = self.3.same(&o.3);
        r0 && r1 && r2 && r3
    }

    proof fn lemma_eqv_refl(a: Self) {
        A::lemma_eqv_refl(a.0);
        B::lemma_eqv_refl(a.1);
        C::lemma_eqv_refl(a.2);
        D::lemma_eqv_refl(a.3);
    }

    proof fn lemma_eqv_sym(a: Self, b: Self) {
        A::lemma_eqv_sym(a.0, b.0);
        B::lemma_eqv_sym(a.1, b.1);
        C::lemma_eqv_sym(a.2, b.2);
        D::lemma_eqv_sym(a.3, b.3);
    }

    proof fn lemma_eqv_trans(a: Self, b: Self, c: Self) {
        A::lemma_eqv_trans(a.0, b.0, c.0);
        B::lemma_eqv_trans(a.1, b.1, c.1);
        C::lemma_eqv_trans(a.2, b.2, c.2);
        D::lemma_eqv_trans(a.3, b.3, c.3);
    }
}

impl<A: Origin, B: Origin, C: Origin, D: Origin> Origin for Quad<A, B, C, D> {
    open spec fn origin_val() -> Self {
        Quad(A::origin_val(), B::origin_val(), C::origin_val(), D::origin_val())
    }

    proof fn lemma_origin_inv() {
        A::lemma_origin_inv();
        B::lemma_origin_inv();
        C::lemma_origin_inv();
        D::lemma_origin_inv();
    }

    fn origin() -> Self {
        Quad(A::origin(), B::origin(), C::origin(), D::origin())
    }
}

impl<T: Space> Space for V2<T> {
    open spec fn inv(self) -> bool {
        self.0.inv() && self.1.inv()
    }

    open spec fn eqv(self, o: Self) -> bool {
        self.0.eqv(o.0) && self.1.eqv(o.1)
    }

    fn same(&self, o: &Self) -> bool {
        let r0 = self.0.same(&o.0);
        let r1 = self.1.same(&o.1);
        r0 && r1
    }

    proof fn lemma_eqv_refl(a: Self) {
        T::lemma_eqv_refl(a.0);
        T::lemma_eqv_refl(a.1);
    }

    proof fn lemma_eqv_sym(a: Self, b: Self) {
        T::lemma_eqv_sym(a.0, b.0);
        T::lemma_eqv_sym(a.1, b.1);
    }

    proof fn lemma_eqv_trans(a: Self, b: Self, c: Self) {
        T::lemma_eqv_trans(a.0, b.0, c.0);
        T::lemma_eqv_trans(a.1, b.1, c.1);
    }
}

impl<T: Linear> Linear for V2<T> {
    open spec fn lin_add(self, o: Self) -> Self {
        V2(self.0.lin_add(o.0), self.1.lin_add(o.1))
    }

    open spec fn lin_scale(self, s: Rat) -> Self {
        V2(self.0.lin_scale(s), self.1.lin_scale(s))
    }

    open spec fn add_fits(self, o: Self) -> bool {
        self.0.add_fits(o.0) && self.1.add_fits(o.1)
    }

    fn add(self, o: Self) -> Self {
        V2(self.0.add(o.0), self.1.add(o.1))
    }

    fn scale(self, s: Rat) -> Self {
        V2(self.0.scale(s), self.1.scale(s))
    }

    proof fn lemma_scale_one(a: Self) {
        T::lemma_scale_one(a.0);
        T::lemma_scale_one(a.1);
    }

    proof fn lemma_absorb_right(a: Self, b: Self) {
        T::lemma_absorb_right(a.0, b.0);
        T::lemma_absorb_right(a.1, b.1);
    }

    proof fn lemma_absorb_left(a: Self, b: Self) {
        T::lemma_absorb_left(a.0, b.0);
        T::lemma_absorb_left(a.1, b.1);
    }

    proof fn lemma_ops_inv(a: Self, b: Self, s: Rat) {
        T::lemma_ops_inv(a.0, b.0, s);
        T::lemma_ops_inv(a.1, b.1, s);
    }

    proof fn lemma_add_congr(a1: Self, a2: Self, b: Self) {
        T::lemma_add_congr(a1.0, a2.0, b.0);
        T::lemma_add_congr(a1.1, a2.1, b.1);
    }
}

impl<T: Origin> Origin for V2<T> {
    open spec fn origin_val() -> Self {
        V2(T::origin_val(), T::origin_val())
    }

    proof fn lemma_origin_inv() {
        T::lemma_origin_inv();
    }

    fn origin() -> Self {
        V2(T::origin(), T::origin())
    }
}

impl<T: Space> Space for V3<T> {
    open spec fn inv(self) -> bool {
        self.0.inv() && self.1.inv() && self.2.inv()
    }

    open spec fn eqv(self, o: Self) -> bool {
        self.0.eqv(o.0) && self.1.eqv(o.1) && self.2.eqv(o.2)
    }

    fn same(&self, o: &Self) -> bool {
        let r0 = self.0.same(&o.0);
        let r1 = self.1.same(&o.1);
        let r2 = self.2.same(&o.2);
        r0 && r1 && r2
    }

    proof fn lemma_eqv_refl(a: Self) {
        T::lemma_eqv_refl(a.0);
        T::lemma_eqv_refl(a.1);
        T::lemma_eqv_refl(a.2);
    }

    proof fn lemma_eqv_sym(a: Self, b: Self) {
        T::lemma_eqv_sym(a.0, b.0);
        T::lemma_eqv_sym(a.1, b.1);
        T::lemma_eqv_sym(a.2, b.2);
    }

    proof fn lemma_eqv_trans(a: Self, b: Self, c: Self) {
        T::lemma_eqv_trans(a.0, b.0, c.0);
        T::lemma_eqv_trans(a.1, b.1, c.1);
        T::lemma_eqv_trans(a.2, b.2, c.2);
    }
}

impl<T: Linear> Linear for V3<T> {
    open spec fn lin_add(self, o: Self) -> Self {
        V3(self.0.lin_add(o.0), self.1.lin_add(o.1), self.2.lin_add(o.2))
    }

    open spec fn lin_scale(self, s: Rat) -> Self {
        V3(self.0.lin_scale(s), self.1.lin_scale(s), self.2.lin_scale(s))
    }

    open spec fn add_fits(self, o: Self) -> bool {
        self.0.add_fits(o.0) && self.1.add_fits(o.1) && self.2.add_fits(o.2)
    }

    fn add(self, o: Self) -> Self {
        V3(self.0.add(o.0), self.1.add(o.1), self.2.add(o.2))
    }

    fn scale(self, s: Rat) -> Self {
        V3(self.0.scale(s), self.1.scale(s), self.2.scale(s))
    }

    proof fn lemma_scale_one(a: Self) {
        T::lemma_scale_one(a.0);
        T::lemma_scale_one(a.1);
        T::lemma_scale_one(a.2);
    }

    proof fn lemma_absorb_right(a: Self, b: Self) {
        T::lemma_absorb_right(a.0, b.0);
        T::lemma_absorb_right(a.1, b.1);
        T::lemma_absorb_right(a.2, b.2);
    }

    proof fn lemma_absorb_left(a: Self, b: Self) {
        T::lemma_absorb_left(a.0, b.0);
        T::lemma_absorb_left(a.1, b.1);
        T::lemma_absorb_left(a.2, b.2);
    }

    proof fn lemma_ops_inv(a: Self, b: Self, s: Rat) {
        T::lemma_ops_inv(a.0, b.0, s);
        T::lemma_ops_inv(a.1, b.1, s);
        T::lemma_ops_inv(a.2, b.2, s);
    }

    proof fn lemma_add_congr(a1: Self, a2: Self, b: Self) {
        T::lemma_add_congr(a1.0, a2.0, b.0);
        T::lemma_add_congr(a1.1, a2.1, b.1);
        T::lemma_add_congr(a1.2, a2.2, b.2);
    }
}

impl<T: Origin> Origin for V3<T> {
    open spec fn origin_val() -> Self {
        V3(T::origin_val(), T::origin_val(), T::origin_val())
    }

    proof fn lemma_origin_inv() {
        T::lemma_origin_inv();
    }

    fn origin() -> Self {
        V3(T::origin(), T::origin(), T::origin())
    }
}

impl<T: Space> Space for V4<T> {
    open spec fn inv(self) -> bool {
        self.0.inv() && self.1.inv() && self.2.inv() && self.3.inv()
    }

    open spec fn eqv(self, o: Self) -> bool {
        self.0.eqv(o.0) && self.1.eqv(o.1) && self.2.eqv(o.2) && self.3.eqv(o.3)
    }

    fn same(&self, o: &Self) -> bool {
        let r0 = self.0.same(&o.0);
        let r1 = self.1.same(&o.1);
        let r2 = self.2.same(&o.2);
        let r3 = self.3.same(&o.3);
        r0 && r1 && r2 && r3
    }

    proof fn lemma_eqv_refl(a: Self) {
        T::lemma_eqv_refl(a.0);
        T::lemma_eqv_refl(a.1);
        T::lemma_eqv_refl(a.2);
        T::lemma_eqv_refl(a.3);
    }

    proof fn lemma_eqv_sym(a: Self, b: Self) {
        T::lemma_eqv_sym(a.0, b.0);
        T::lemma_eqv_sym(a.1, b.1);
        T::lemma_eqv_sym(a.2, b.2);
        T::lemma_eqv_sym(a.3, b.3);
    }

    proof fn lemma_eqv_trans(a: Self, b: Self, c: Self) {
        T::lemma_eqv_trans(a.0, b.0, c.0);
        T::lemma_eqv_trans(a.1, b.1, c.1);
        T::lemma_eqv_trans(a.2, b.2, c.2);
        T::lemma_eqv_trans(a.3, b.3, c.3);
    }
}

impl<T: Linear> Linear for V4<T> {
    open spec fn lin_add(self, o: Self) -> Self {
        V4(self.0.lin_add(o.0), self.1.lin_add(o.1), self.2.lin_add(o.2), self.3.lin_add(o.3))
    }

    open spec fn lin_scale(self, s: Rat) -> Self {
        V4(self.0.lin_scale(s), self.1.lin_scale(s), self.2.lin_scale(s), self.3.lin_scale(s))
    }

    open spec fn add_fits(self, o: Self) -> bool {
        self.0.add_fits(o.0) && self.1.add_fits(o.1) && self.2.add_fits(o.2) && self.3.add_fits(
            o.3,
        )
    }

    fn add(self, o: Self) -> Self {
        V4(self.0.add(o.0), self.1.add(o.1), self.2.add(o.2), self.3.add(o.3))
    }

    fn scale(self, s: Rat) -> Self {
        V4(self.0.scale(s), self.1.scale(s), self.2.scale(s), self.3.scale(s))
    }

    proof fn lemma_scale_one(a: Self) {
        T::lemma_scale_one(a.0);
        T::lemma_scale_one(a.1);
        T::lemma_scale_one(a.2);
        T::lemma_scale_one(a.3);
    }

    proof fn lemma_absorb_right(a: Self, b: Self) {
        T::lemma_absorb_right(a.0, b.0);
        T::lemma_absorb_right(a.1, b.1);
        T::lemma_absorb_right(a.2, b.2);
        T::lemma_absorb_right(a.3, b.3);
    }

    proof fn lemma_absorb_left(a: Self, b: Self) {
        T::lemma_absorb_left(a.0, b.0);
        T::lemma_absorb_left(a.1, b.1);
        T::lemma_absorb_left(a.2, b.2);
        T::lemma_absorb_left(a.3, b.3);
    }

    proof fn lemma_ops_inv(a: Self, b: Self, s: Rat) {
        T::lemma_ops_inv(a.0, b.0, s);
        T::lemma_ops_inv(a.1, b.1, s);
        T::lemma_ops_inv(a.2, b.2, s);
        T::lemma_ops_inv(a.3, b.3, s);
    }

    proof fn lemma_add_congr(a1: Self, a2: Self, b: Self) {
        T::lemma_add_congr(a1.0, a2.0, b.0);
        T::lemma_add_congr(a1.1, a2.1, b.1);
        T::lemma_add_congr(a1.2, a2.2, b.2);
        T::lemma_add_congr(a1.3, a2.3, b.3);
    }
}

impl<T: Origin> Origin for V4<T> {
    open spec fn origin_val() -> Self {
        V4(T::origin_val(), T::origin_val(), T::origin_val(), T::origin_val())
    }

    proof fn lemma_origin_inv() {
        T::lemma_origin_inv();
    }

    fn origin() -> Self {
        V4(T::origin(), T::origin(), T::origin(), T::origin())
    }
}

} // verus!
