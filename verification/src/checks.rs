//! Executable boundary-contract checkers.
//!
//! `check` verifies the boundary contract of a one-dimensional homotopy at a
//! given input; `check2`, `check3` and `check4` verify it for two-, three-
//! and four-dimensional homotopies at the full corners and, recursively, on
//! every extracted face. The `checku` variants fix the input at the default
//! point of the input space. Each checker's result is pinned to a spec-level
//! agreement predicate, and each is proved to return `true` whenever the
//! input is well formed and the evaluation stays within machine range.

use vstd::prelude::*;
use crate::rat::Rat;
use crate::space::{Space, Origin};
use crate::axes::{
    zeros, ones, is_corner, zeros_vec, ones_vec, lemma_corner_insert, lemma_zeros_ones_corner,
};
use crate::homotopy::Homotopy;
use crate::sides::{Pinned, left, right, top, bottom, front, back, past, future};

verus! {

/// The face of `h` with `axis` pinned at `value`, as a spec-level value.
pub open spec fn face<H>(h: H, axis: usize, value: Rat) -> Pinned<H> {
    Pinned { inner: h, axis, value }
}

/// Whether the evaluation of `h` at `x` stays within machine range on every
/// corner of its parameter cube.
pub open spec fn exact_on_corners<X: Space, Y: Space, H: Homotopy<X, Y>>(h: H, x: X) -> bool {
    forall|c: Seq<Rat>| c.len() == h.dim() && is_corner(c) ==> h.exact(x, c)
}

/// Boundary agreement of a one-dimensional homotopy at `x`.
pub open spec fn passes1<X: Space, Y: Space, H: Homotopy<X, Y>>(h: H, x: X) -> bool {
    &&& h.h_val(x, zeros(1)).eqv(h.f_val(x))
    &&& h.h_val(x, ones(1)).eqv(h.g_val(x))
}

/// Boundary agreement of a two-dimensional homotopy at `x`: the corners
/// agree, and every face passes the one-dimensional check.
pub open spec fn passes2<X: Space, Y: Space, H: Homotopy<X, Y>>(h: H, x: X) -> bool {
    &&& h.h_val(x, zeros(2)).eqv(h.f_val(x))
    &&& h.h_val(x, ones(2)).eqv(h.g_val(x))
    &&& passes1(face(h, 0usize, Rat::zero_val()), x)
    &&& passes1(face(h, 0usize, Rat::one_val()), x)
    &&& passes1(face(h, 1usize, Rat::zero_val()), x)
    &&& passes1(face(h, 1usize, Rat::one_val()), x)
}

/// Boundary agreement of a three-dimensional homotopy at `x`.
pub open spec fn passes3<X: Space, Y: Space, H: Homotopy<X, Y>>(h: H, x: X) -> bool {
    &&& h.h_val(x, zeros(3)).eqv(h.f_val(x))
    &&& h.h_val(x, ones(3)).eqv(h.g_val(x))
    &&& passes2(face(h, 0usize, Rat::zero_val()), x)
    &&& passes2(face(h, 0usize, Rat::one_val()), x)
    &&& passes2(face(h, 1usize, Rat::zero_val()), x)
    &&& passes2(face(h, 1usize, Rat::one_val()), x)
    &&& passes2(face(h, 2usize, Rat::zero_val()), x)
    &&& passes2(face(h, 2usize, Rat::one_val()), x)
}

/// Boundary agreement of a four-dimensional homotopy at `x`.
pub open spec fn passes4<X: Space, Y: Space, H: Homotopy<X, Y>>(h: H, x: X) -> bool {
    &&& h.h_val(x, zeros(4)).eqv(h.f_val(x))
    &&& h.h_val(x, ones(4)).eqv(h.g_val(x))
    &&& passes3(face(h, 0usize, Rat::zero_val()), x)
    &&& passes3(face(h, 0usize, Rat::one_val()), x)
    &&& passes3(face(h, 1usize, Rat::zero_val()), x)
    &&& passes3(face(h, 1usize, Rat::one_val()), x)
    &&& passes3(face(h, 2usize, Rat::zero_val()), x)
    &&& passes3(face(h, 2usize, Rat::one_val()), x)
    &&& passes3(face(h, 3usize, Rat::zero_val()), x)
    &&& passes3(face(h, 3usize, Rat::one_val()), x)
}

/// A face of a corner-exact homotopy is well formed and corner-exact.
proof fn lemma_face_corners<X: Space, Y: Space, H: Homotopy<X, Y>>(h: H, x: X, axis: usize, v: Rat)
    requires
        h.wf(),
        h.dim() >= 2,
        (axis as nat) < h.dim(),
        v == Rat::zero_val() || v == Rat::one_val(),
        exact_on_corners(h, x),
    ensures
        (face(h, axis, v)).wf(),
        (face(h, axis, v)).dim() == h.dim() - 1,
        exact_on_corners(face(h, axis, v), x),
{
    let fc = face(h, axis, v);
    assert(fc.wf());
    lemma_zeros_ones_corner(fc.dim());
    assert forall|c: Seq<Rat>| c.len() == fc.dim() && is_corner(c) implies fc.exact(x, c) by {
        lemma_corner_insert(c, axis as int, v);
        lemma_corner_insert(zeros(fc.dim()), axis as int, v);
        lemma_corner_insert(ones(fc.dim()), axis as int, v);
        assert(c.insert(axis as int, v).len() == h.dim());
        assert(h.exact(x, c.insert(axis as int, v)));
        assert(h.exact(x, zeros(fc.dim()).insert(axis as int, v)));
        assert(h.exact(x, ones(fc.dim()).insert(axis as int, v)));
    }
}

/// A well-formed, corner-exact one-dimensional homotopy passes the check.
pub proof fn lemma_passes1<X: Space, Y: Space, H: Homotopy<X, Y>>(h: H, x: X)
    requires
        h.wf(),
        h.dim() == 1,
        x.inv(),
        exact_on_corners(h, x),
    ensures
        passes1(h, x),
{
    lemma_zeros_ones_corner(1);
    assert(h.exact(x, zeros(1)));
    assert(h.exact(x, ones(1)));
    h.lemma_boundary(x);
}

/// A well-formed, corner-exact two-dimensional homotopy passes the check on
/// its corners and on every face.
pub proof fn lemma_passes2<X: Space, Y: Space, H: Homotopy<X, Y>>(h: H, x: X)
    requires
        h.wf(),
        h.dim() == 2,
        x.inv(),
        exact_on_corners(h, x),
    ensures
        passes2(h, x),
{
    lemma_zeros_ones_corner(2);
    assert(h.exact(x, zeros(2)));
    assert(h.exact(x, ones(2)));
    h.lemma_boundary(x);
    lemma_face_corners(h, x, 0, Rat::zero_val());
    lemma_passes1(face(h, 0usize, Rat::zero_val()), x);
    lemma_face_corners(h, x, 0, Rat::one_val());
    lemma_passes1(face(h, 0usize, Rat::one_val()), x);
    lemma_face_corners(h, x, 1, Rat::zero_val());
    lemma_passes1(face(h, 1usize, Rat::zero_val()), x);
    lemma_face_corners(h, x, 1, Rat::one_val());
    lemma_passes1(face(h, 1usize, Rat::one_val()), x);
}

/// A well-formed, corner-exact three-dimensional homotopy passes the check
/// on its corners and, recursively, on every face.
pub proof fn lemma_passes3<X: Space, Y: Space, H: Homotopy<X, Y>>(h: H, x: X)
    requires
        h.wf(),
        h.dim() == 3,
        x.inv(),
        exact_on_corners(h, x),
    ensures
        passes3(h, x),
{
    lemma_zeros_ones_corner(3);
    assert(h.exact(x, zeros(3)));
    assert(h.exact(x, ones(3)));
    h.lemma_boundary(x);
    lemma_face_corners(h, x, 0, Rat::zero_val());
    lemma_passes2(face(h, 0usize, Rat::zero_val()), x);
    lemma_face_corners(h, x, 0, Rat::one_val());
    lemma_passes2(face(h, 0usize, Rat::one_val()), x);
    lemma_face_corners(h, x, 1, Rat::zero_val());
    lemma_passes2(face(h, 1usize, Rat::zero_val()), x);
    lemma_face_corners(h, x, 1, Rat::one_val());
    lemma_passes2(face(h, 1usize, Rat::one_val()), x);
    lemma_face_corners(h, x, 2, Rat::zero_val());
    lemma_passes2(face(h, 2usize, Rat::zero_val()), x);
    lemma_face_corners(h, x, 2, Rat::one_val());
    lemma_passes2(face(h, 2usize, Rat::one_val()), x);
}

/// A well-formed, corner-exact four-dimensional homotopy passes the check on
/// its corners and, recursively, on every face.
pub proof fn lemma_passes4<X: Space, Y: Space, H: Homotopy<X, Y>>(h: H, x: X)
    requires
        h.wf(),
        h.dim() == 4,
        x.inv(),
        exact_on_corners(h, x),
    ensures
        passes4(h, x),
{
    lemma_zeros_ones_corner(4);
    assert(h.exact(x, zeros(4)));
    assert(h.exact(x, ones(4)));
    h.lemma_boundary(x);
    lemma_face_corners(h, x, 0, Rat::zero_val());
    lemma_passes3(face(h, 0usize, Rat::zero_val()), x);
    lemma_face_corners(h, x, 0, Rat::one_val());
    lemma_passes3(face(h, 0usize, Rat::one_val()), x);
    lemma_face_corners(h, x, 1, Rat::zero_val());
    lemma_passes3(face(h, 1usize, Rat::zero_val()), x);
    lemma_face_corners(h, x, 1, Rat::one_val());
    lemma_passes3(face(h, 1usize, Rat::one_val()), x);
    lemma_face_corners(h, x, 2, Rat::zero_val());
    lemma_passes3(face(h, 2usize, Rat::zero_val()), x);
    lemma_face_corners(h, x, 2, Rat::one_val());
    lemma_passes3(face(h, 2usize, Rat::one_val()), x);
    lemma_face_corners(h, x, 3, Rat::zero_val());
    lemma_passes3(face(h, 3usize, Rat::zero_val()), x);
    lemma_face_corners(h, x, 3, Rat::one_val());
    lemma_passes3(face(h, 3usize, Rat::one_val()), x);
}

/// Checks the boundary contract of a one-dimensional homotopy at input `x`.
#[must_use]
pub fn check<X: Space, Y: Space, H: Homotopy<X, Y>>(h: &H, x: X) -> (r: bool)
    requires
        h.wf(),
        h.dim() == 1,
    ensures
        r == passes1(*h, x),
        x.inv() && exact_on_corners(*h, x) ==> r,
{
    let z = zeros_vec(1);
    let o = ones_vec(1);
    let y0 = h.h(x, &z);
    let y1 = h.h(x, &o);
    let a = h.f(x);
    let b = h.g(x);
    proof {
        if x.inv() && exact_on_corners(*h, x) {
            lemma_passes1(*h, x);
        }
    }
    let r0 = y0.same(&a);
    let r1 = y1.same(&b);
    r0 && r1
}

/// Checks the boundary contract of a two-dimensional homotopy at input `x`:
/// the corners, then every face.
#[must_use]
pub fn check2<X: Space, Y: Space, H: Homotopy<X, Y>>(h: &H, x: X) -> (r: bool)
    requires
        h.wf(),
        h.dim() == 2,
    ensures
        r == passes2(*h, x),
        x.inv() && exact_on_corners(*h, x) ==> r,
{
    let z = zeros_vec(2);
    let o = ones_vec(2);
    let y0 = h.h(x, &z);
    let y1 = h.h(x, &o);
    let a = h.f(x);
    let b = h.g(x);
    let r0 = y0.same(&a);
    let r1 = y1.same(&b);
    let rl = check(&left(*h), x);
    let rr = check(&right(*h), x);
    let rt = check(&top(*h), x);
    let rb = check(&bottom(*h), x);
    proof {
        if x.inv() && exact_on_corners(*h, x) {
            lemma_passes2(*h, x);
        }
    }
    r0 && r1 && rl && rr && rt && rb
}

/// Checks the boundary contract of a three-dimensional homotopy at input
/// `x`: the corners, then every face, recursively.
#[must_use]
pub fn check3<X: Space, Y: Space, H: Homotopy<X, Y>>(h: &H, x: X) -> (r: bool)
    requires
        h.wf(),
        h.dim() == 3,
    ensures
        r == passes3(*h, x),
        x.inv() && exact_on_corners(*h, x) ==> r,
{
    let z = zeros_vec(3);
    let o = ones_vec(3);
    let y0 = h.h(x, &z);
    let y1 = h.h(x, &o);
    let a = h.f(x);
    let b = h.g(x);
    let r0 = y0.same(&a);
    let r1 = y1.same(&b);
    let rl = check2(&left(*h), x);
    let rr = check2(&right(*h), x);
    let rt = check2(&top(*h), x);
    let rb = check2(&bottom(*h), x);
    let rf = check2(&front(*h), x);
    let rk = check2(&back(*h), x);
    proof {
        if x.inv() && exact_on_corners(*h, x) {
            lemma_passes3(*h, x);
        }
    }
    r0 && r1 && rl && rr && rt && rb && rf && rk
}

/// Checks the boundary contract of a four-dimensional homotopy at input `x`:
/// the corners, then every face, recursively.
#[must_use]
pub fn check4<X: Space, Y: Space, H: Homotopy<X, Y>>(h: &H, x: X) -> (r: bool)
    requires
        h.wf(),
        h.dim() == 4,
    ensures
        r == passes4(*h, x),
        x.inv() && exact_on_corners(*h, x) ==> r,
{
    let z = zeros_vec(4);
    let o = ones_vec(4);
    let y0 = h.h(x, &z);
    let y1 = h.h(x, &o);
    let a = h.f(x);
    let b = h.g(x);
    let r0 = y0.same(&a);
    let r1 = y1.same(&b);
    let rl = check3(&left(*h), x);
    let rr = check3(&right(*h), x);
    let rt = check3(&top(*h), x);
    let rb = check3(&bottom(*h), x);
    let rf = check3(&front(*h), x);
    let rk = check3(&back(*h), x);
    let rp = check3(&past(*h), x);
    let ru = check3(&future(*h), x);
    proof {
        if x.inv() && exact_on_corners(*h, x) {
            lemma_passes4(*h, x);
        }
    }
    r0 && r1 && rl && rr && rt && rb && rf && rk && rp && ru
}

/// Checks a one-dimensional homotopy at the default input.
#[must_use]
pub fn checku<X: Origin, Y: Space, H: Homotopy<X, Y>>(h: &H) -> (r: bool)
    requires
        h.wf(),
        h.dim() == 1,
    ensures
        r == passes1(*h, X::origin_val()),
        exact_on_corners(*h, X::origin_val()) ==> r,
{
    proof {
        X::lemma_origin_inv();
    }
    let x = X::origin();
    check(h, x)
}

/// Checks a two-dimensional homotopy at the default input.
#[must_use]
pub fn checku2<X: Origin, Y: Space, H: Homotopy<X, Y>>(h: &H) -> (r: bool)
    requires
        h.wf(),
        h.dim() == 2,
    ensures
        r == passes2(*h, X::origin_val()),
        exact_on_corners(*h, X::origin_val()) ==> r,
{
    proof {
        X::lemma_origin_inv();
    }
    let x = X::origin();
    check2(h, x)
}

/// Checks a three-dimensional homotopy at the default input.
#[must_use]
pub fn checku3<X: Origin, Y: Space, H: Homotopy<X, Y>>(h: &H) -> (r: bool)
    requires
        h.wf(),
        h.dim() == 3,
    ensures
        r == passes3(*h, X::origin_val()),
        exact_on_corners(*h, X::origin_val()) ==> r,
{
    proof {
        X::lemma_origin_inv();
    }
    let x = X::origin();
    check3(h, x)
}

/// Checks a four-dimensional homotopy at the default input.
#[must_use]
pub fn checku4<X: Origin, Y: Space, H: Homotopy<X, Y>>(h: &H) -> (r: bool)
    requires
        h.wf(),
        h.dim() == 4,
    ensures
        r == passes4(*h, X::origin_val()),
        exact_on_corners(*h, X::origin_val()) ==> r,
{
    proof {
        X::lemma_origin_inv();
    }
    let x = X::origin();
    check4(h, x)
}

} // verus!
