//! Dimension-lowering combinators: faces, slices and diagonals.
//!
//! Pinning one axis of an N-dimensional homotopy to a fixed scalar yields an
//! (N-1)-dimensional homotopy over the remaining axes ([`Pinned`]); pinning
//! to a boundary scalar extracts a named face, pinning to a free scalar an
//! intersection slice. Driving every axis with one shared scalar yields the
//! one-dimensional [`Diagonal`].

use vstd::prelude::*;
use crate::rat::Rat;
use crate::space::Space;
use crate::axes::{
    zeros, ones, all_inv, zeros_vec, ones_vec, with_axis, replicate, lemma_all_inv_insert,
    lemma_zeros_ones_corner,
};
use crate::homotopy::Homotopy;

verus! {

/// A homotopy with one axis pinned to a fixed scalar: a face when the scalar
/// is a boundary value, a slice otherwise. The remaining axes keep their
/// order and are re-indexed contiguously.
#[derive(Clone, Copy, Debug)]
pub struct Pinned<H> {
    /// The higher-dimensional homotopy being cut.
    pub inner: H,
    /// The axis being pinned.
    pub axis: usize,
    /// The scalar the pinned axis is held at.
    pub value: Rat,
}

impl<X: Space, Y: Space, H: Homotopy<X, Y>> Homotopy<X, Y> for Pinned<H> {
    open spec fn dim(&self) -> nat {
        (self.inner.dim() - 1) as nat
    }

    open spec fn wf(&self) -> bool {
        &&& self.inner.wf()
        &&& self.inner.dim() >= 2
        &&& (self.axis as nat) < self.inner.dim()
        &&& self.value.in_unit()
    }

    open spec fn exact(&self, x: X, s: Seq<Rat>) -> bool {
        &&& self.inner.exact(x, s.insert(self.axis as int, self.value))
        &&& self.inner.exact(x, zeros(self.dim()).insert(self.axis as int, self.value))
        &&& self.inner.exact(x, ones(self.dim()).insert(self.axis as int, self.value))
    }

    open spec fn f_val(&self, x: X) -> Y {
        self.inner.h_val(x, zeros(self.dim()).insert(self.axis as int, self.value))
    }

    open spec fn g_val(&self, x: X) -> Y {
        self.inner.h_val(x, ones(self.dim()).insert(self.axis as int, self.value))
    }

    open spec fn h_val(&self, x: X, s: Seq<Rat>) -> Y {
        self.inner.h_val(x, s.insert(self.axis as int, self.value))
    }

    fn dims(&self) -> usize {
        self.inner.dims() - 1
    }

    fn f(&self, x: X) -> Y {
        let n = self.dims();
        let z = zeros_vec(n);
        let t = with_axis(&z, self.axis, self.value);
        self.inner.h(x, &t)
    }

    fn g(&self, x: X) -> Y {
        let n = self.dims();
        let o = ones_vec(n);
        let t = with_axis(&o, self.axis, self.value);
        self.inner.h(x, &t)
    }

    fn h(&self, x: X, s: &Vec<Rat>) -> Y {
        let t = with_axis(s, self.axis, self.value);
        self.inner.h(x, &t)
    }

    proof fn lemma_inv(&self, x: X, s: Seq<Rat>) {
        let a = self.axis as int;
        lemma_zeros_ones_corner(self.dim());
        lemma_all_inv_insert(s, a, self.value);
        lemma_all_inv_insert(zeros(self.dim()), a, self.value);
        lemma_all_inv_insert(ones(self.dim()), a, self.value);
        self.inner.lemma_inv(x, s.insert(a, self.value));
        self.inner.lemma_inv(x, zeros(self.dim()).insert(a, self.value));
        self.inner.lemma_inv(x, ones(self.dim()).insert(a, self.value));
    }

    proof fn lemma_congr(&self, x1: X, x2: X, s: Seq<Rat>) {
        let a = self.axis as int;
        lemma_zeros_ones_corner(self.dim());
        lemma_all_inv_insert(s, a, self.value);
        lemma_all_inv_insert(zeros(self.dim()), a, self.value);
        lemma_all_inv_insert(ones(self.dim()), a, self.value);
        self.inner.lemma_congr(x1, x2, s.insert(a, self.value));
        self.inner.lemma_congr(x1, x2, zeros(self.dim()).insert(a, self.value));
        self.inner.lemma_congr(x1, x2, ones(self.dim()).insert(a, self.value));
    }

    proof fn lemma_boundary(&self, x: X) {
        let a = self.axis as int;
        lemma_zeros_ones_corner(self.dim());
        lemma_all_inv_insert(zeros(self.dim()), a, self.value);
        lemma_all_inv_insert(ones(self.dim()), a, self.value);
        self.inner.lemma_inv(x, zeros(self.dim()).insert(a, self.value));
        self.inner.lemma_inv(x, ones(self.dim()).insert(a, self.value));
        Y::lemma_eqv_refl(self.f_val(x));
        Y::lemma_eqv_refl(self.g_val(x));
    }
}

/// The diagonal of a homotopy: every axis driven by one shared scalar.
#[derive(Clone, Copy, Debug)]
pub struct Diagonal<H> {
    /// The higher-dimensional homotopy being collapsed.
    pub inner: H,
}

impl<X: Space, Y: Space, H: Homotopy<X, Y>> Homotopy<X, Y> for Diagonal<H> {
    open spec fn dim(&self) -> nat {
        1
    }

    open spec fn wf(&self) -> bool {
        self.inner.wf()
    }

    open spec fn exact(&self, x: X, s: Seq<Rat>) -> bool {
        self.inner.exact(x, Seq::new(self.inner.dim(), |i: int| s[0]))
    }

    open spec fn f_val(&self, x: X) -> Y {
        self.inner.f_val(x)
    }

    open spec fn g_val(&self, x: X) -> Y {
        self.inner.g_val(x)
    }

    open spec fn h_val(&self, x: X, s: Seq<Rat>) -> Y {
        self.inner.h_val(x, Seq::new(self.inner.dim(), |i: int| s[0]))
    }

    fn dims(&self) -> usize {
        1
    }

    fn f(&self, x: X) -> Y {
        self.inner.f(x)
    }

    fn g(&self, x: X) -> Y {
        self.inner.g(x)
    }

    fn h(&self, x: X, s: &Vec<Rat>) -> Y {
        let n = self.inner.dims();
        let t = replicate(s[0], n);
        self.inner.h(x, &t)
    }

    proof fn lemma_inv(&self, x: X, s: Seq<Rat>) {
        let t = Seq::new(self.inner.dim(), |i: int| s[0]);
        assert(all_inv(t));
        self.inner.lemma_inv(x, t);
    }

    proof fn lemma_congr(&self, x1: X, x2: X, s: Seq<Rat>) {
        let t = Seq::new(self.inner.dim(), |i: int| s[0]);
        assert(all_inv(t));
        self.inner.lemma_congr(x1, x2, t);
    }

    proof fn lemma_boundary(&self, x: X) {
        assert(zeros(1)[0] == Rat::zero_val());
        assert(ones(1)[0] == Rat::one_val());
        let tz = Seq::new(self.inner.dim(), |i: int| zeros(1)[0]);
        let to = Seq::new(self.inner.dim(), |i: int| ones(1)[0]);
        assert(tz =~= zeros(self.inner.dim()));
        assert(to =~= ones(self.inner.dim()));
        self.inner.lemma_boundary(x);
    }
}

/// Pins the first axis at its start: the left face.
pub fn left<X: Space, Y: Space, H: Homotopy<X, Y>>(inner: H) -> (r: Pinned<H>)
    requires
        inner.wf(),
        inner.dim() >= 2,
    ensures
        r == (Pinned { inner, axis: 0usize, value: Rat::zero_val() }),
        r.wf(),
        r.dim() == inner.dim() - 1,
{
    Pinned { inner, axis: 0, value: Rat::zero() }
}

/// Pins the first axis at its end: the right face.
pub fn right<X: Space, Y: Space, H: Homotopy<X, Y>>(inner: H) -> (r: Pinned<H>)
    requires
        inner.wf(),
        inner.dim() >= 2,
    ensures
        r == (Pinned { inner, axis: 0usize, value: Rat::one_val() }),
        r.wf(),
        r.dim() == inner.dim() - 1,
{
    Pinned { inner, axis: 0, value: Rat::one() }
}

/// Pins the second axis at its start: the top face.
pub fn top<X: Space, Y: Space, H: Homotopy<X, Y>>(inner: H) -> (r: Pinned<H>)
    requires
        inner.wf(),
        inner.dim() >= 2,
    ensures
        r == (Pinned { inner, axis: 1usize, value: Rat::zero_val() }),
        r.wf(),
        r.dim() == inner.dim() - 1,
{
    Pinned { inner, axis: 1, value: Rat::zero() }
}

/// Pins the second axis at its end: the bottom face.
pub fn bottom<X: Space, Y: Space, H: Homotopy<X, Y>>(inner: H) -> (r: Pinned<H>)
    requires
        inner.wf(),
        inner.dim() >= 2,
    ensures
        r == (Pinned { inner, axis: 1usize, value: Rat::one_val() }),
        r.wf(),
        r.dim() == inner.dim() - 1,
{
    Pinned { inner, axis: 1, value: Rat::one() }
}

/// Pins the third axis at its start: the front face.
pub fn front<X: Space, Y: Space, H: Homotopy<X, Y>>(inner: H) -> (r: Pinned<H>)
    requires
        inner.wf(),
        inner.dim() >= 3,
    ensures
        r == (Pinned { inner, axis: 2usize, value: Rat::zero_val() }),
        r.wf(),
        r.dim() == inner.dim() - 1,
{
    Pinned { inner, axis: 2, value: Rat::zero() }
}

/// Pins the third axis at its end: the back face.
pub fn back<X: Space, Y: Space, H: Homotopy<X, Y>>(inner: H) -> (r: Pinned<H>)
    requires
        inner.wf(),
        inner.dim() >= 3,
    ensures
        r == (Pinned { inner, axis: 2usize, value: Rat::one_val() }),
        r.wf(),
        r.dim() == inner.dim() - 1,
{
    Pinned { inner, axis: 2, value: Rat::one() }
}

/// Pins the fourth axis at its start: the past face.
pub fn past<X: Space, Y: Space, H: Homotopy<X, Y>>(inner: H) -> (r: Pinned<H>)
    requires
        inner.wf(),
        inner.dim() >= 4,
    ensures
        r == (Pinned { inner, axis: 3usize, value: Rat::zero_val() }),
        r.wf(),
        r.dim() == inner.dim() - 1,
{
    Pinned { inner, axis: 3, value: Rat::zero() }
}

/// Pins the fourth axis at its end: the future face.
pub fn future<X: Space, Y: Space, H: Homotopy<X, Y>>(inner: H) -> (r: Pinned<H>)
    requires
        inner.wf(),
        inner.dim() >= 4,
    ensures
        r == (Pinned { inner, axis: 3usize, value: Rat::one_val() }),
        r.wf(),
        r.dim() == inner.dim() - 1,
{
    Pinned { inner, axis: 3, value: Rat::one() }
}

/// Pins the first axis at a free scalar: a left-right intersection.
pub fn left_right<X: Space, Y: Space, H: Homotopy<X, Y>>(inner: H, v: Rat) -> (r: Pinned<H>)
    requires
        inner.wf(),
        inner.dim() >= 2,
        v.in_unit(),
    ensures
        r == (Pinned { inner, axis: 0usize, value: v }),
        r.wf(),
        r.dim() == inner.dim() - 1,
{
    Pinned { inner, axis: 0, value: v }
}

/// Pins the second axis at a free scalar: a top-bottom intersection.
pub fn top_bottom<X: Space, Y: Space, H: Homotopy<X, Y>>(inner: H, v: Rat) -> (r: Pinned<H>)
    requires
        inner.wf(),
        inner.dim() >= 2,
        v.in_unit(),
    ensures
        r == (Pinned { inner, axis: 1usize, value: v }),
        r.wf(),
        r.dim() == inner.dim() - 1,
{
    Pinned { inner, axis: 1, value: v }
}

/// Pins the third axis at a free scalar: a front-back intersection.
pub fn front_back<X: Space, Y: Space, H: Homotopy<X, Y>>(inner: H, v: Rat) -> (r: Pinned<H>)
    requires
        inner.wf(),
        inner.dim() >= 3,
        v.in_unit(),
    ensures
        r == (Pinned { inner, axis: 2usize, value: v }),
        r.wf(),
        r.dim() == inner.dim() - 1,
{
    Pinned { inner, axis: 2, value: v }
}

/// Pins the fourth axis at a free scalar: a past-future intersection.
pub fn past_future<X: Space, Y: Space, H: Homotopy<X, Y>>(inner: H, v: Rat) -> (r: Pinned<H>)
    requires
        inner.wf(),
        inner.dim() >= 4,
        v.in_unit(),
    ensures
        r == (Pinned { inner, axis: 3usize, value: v }),
        r.wf(),
        r.dim() == inner.dim() - 1,
{
    Pinned { inner, axis: 3, value: v }
}

/// Collapses every axis onto one shared scalar: the diagonal.
pub fn diagonal<X: Space, Y: Space, H: Homotopy<X, Y>>(inner: H) -> (r: Diagonal<H>)
    requires
        inner.wf(),
    ensures
        r == (Diagonal { inner }),
        r.wf(),
        r.dim() == 1,
{
    Diagonal { inner }
}

} // verus!
