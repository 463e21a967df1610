//! Shape-adapting combinators: direction reversal and the tuple-to-vector
//! bridge.

use vstd::prelude::*;
use crate::rat::Rat;
use crate::space::Space;
use crate::axes::{zeros, ones, all_inv, single};
use crate::homotopy::Homotopy;
use crate::tuples::{Pair, Triple, Quad, V2, V3, V4};

verus! {

/// Reverses the direction of a one-dimensional homotopy: start and end swap,
/// and the parameter runs backwards.
#[derive(Clone, Copy, Debug)]
pub struct Inverse<T>(pub T);

impl<X: Space, Y: Space, T: Homotopy<X, Y>> Homotopy<X, Y> for Inverse<T> {
    open spec fn dim(&self) -> nat {
        1
    }

    open spec fn wf(&self) -> bool {
        self.0.wf() && self.0.dim() == 1
    }

    open spec fn exact(&self, x: X, s: Seq<Rat>) -> bool {
        self.0.exact(x, seq![s[0].one_minus_val()])
    }

    open spec fn f_val(&self, x: X) -> Y {
        self.0.g_val(x)
    }

    open spec fn g_val(&self, x: X) -> Y {
        self.0.f_val(x)
    }

    open spec fn h_val(&self, x: X, s: Seq<Rat>) -> Y {
        self.0.h_val(x, seq![s[0].one_minus_val()])
    }

    fn dims(&self) -> usize {
        1
    }

    fn f(&self, x: X) -> Y {
        self.0.g(x)
    }

    fn g(&self, x: X) -> Y {
        self.0.f(x)
    }

    fn h(&self, x: X, s: &Vec<Rat>) -> Y {
        let t = single(s[0].one_minus());
        self.0.h(x, &t)
    }

    proof fn lemma_inv(&self, x: X, s: Seq<Rat>) {
        assert(s[0].one_minus_val().inv());
        assert(all_inv(seq![s[0].one_minus_val()]));
        self.0.lemma_inv(x, seq![s[0].one_minus_val()]);
    }

    proof fn lemma_congr(&self, x1: X, x2: X, s: Seq<Rat>) {
        assert(s[0].one_minus_val().inv());
        assert(all_inv(seq![s[0].one_minus_val()]));
        self.0.lemma_congr(x1, x2, seq![s[0].one_minus_val()]);
    }

    proof fn lemma_boundary(&self, x: X) {
        assert(zeros(1)[0] == Rat::zero_val());
        assert(ones(1)[0] == Rat::one_val());
        assert(Rat::zero_val().one_minus_val() == Rat::one_val());
        assert(Rat::one_val().one_minus_val() == Rat::zero_val());
        assert(seq![Rat::one_val()] =~= ones(1));
        assert(seq![Rat::zero_val()] =~= zeros(1));
        self.0.lemma_boundary(x);
    }
}

/// Reinterprets a homotopy over uniform tuples as one over fixed-size
/// vectors of the same arity, with no change to evaluated values.
#[derive(Clone, Copy, Debug)]
pub struct AsVec<T>(pub T);

impl<X: Space, Y: Space, T: Homotopy<Pair<X, X>, Pair<Y, Y>>> Homotopy<V2<X>, V2<Y>> for AsVec<
    T,
> {
    open spec fn dim(&self) -> nat {
        self.0.dim()
    }

    open spec fn wf(&self) -> bool {
        self.0.wf()
    }

    open spec fn exact(&self, x: V2<X>, s: Seq<Rat>) -> bool {
        self.0.exact(Pair(x.0, x.1), s)
    }

    open spec fn f_val(&self, x: V2<X>) -> V2<Y> {
        let p = self.0.f_val(Pair(x.0, x.1));
        V2(p.0, p.1)
    }

    open spec fn g_val(&self, x: V2<X>) -> V2<Y> {
        let p = self.0.g_val(Pair(x.0, x.1));
        V2(p.0, p.1)
    }

    open spec fn h_val(&self, x: V2<X>, s: Seq<Rat>) -> V2<Y> {
        let p = self.0.h_val(Pair(x.0, x.1), s);
        V2(p.0, p.1)
    }

    fn dims(&self) -> usize {
        self.0.dims()
    }

    fn f(&self, x: V2<X>) -> V2<Y> {
        let p = self.0.f(Pair(x.0, x.1));
        V2(p.0, p.1)
    }

    fn g(&self, x: V2<X>) -> V2<Y> {
        let p = self.0.g(Pair(x.0, x.1));
        V2(p.0, p.1)
    }

    fn h(&self, x: V2<X>, s: &Vec<Rat>) -> V2<Y> {
        let p = self.0.h(Pair(x.0, x.1), s);
        V2(p.0, p.1)
    }

    proof fn lemma_inv(&self, x: V2<X>, s: Seq<Rat>) {
        self.0.lemma_inv(Pair(x.0, x.1), s);
    }

    proof fn lemma_congr(&self, x1: V2<X>, x2: V2<X>, s: Seq<Rat>) {
        self.0.lemma_congr(Pair(x1.0, x1.1), Pair(x2.0, x2.1), s);
    }

    proof fn lemma_boundary(&self, x: V2<X>) {
        self.0.lemma_boundary(Pair(x.0, x.1));
    }
}

impl<X: Space, Y: Space, T: Homotopy<Triple<X, X, X>, Triple<Y, Y, Y>>> Homotopy<
    V3<X>,
    V3<Y>,
> for AsVec<T> {
    open spec fn dim(&self) -> nat {
        self.0.dim()
    }

    open spec fn wf(&self) -> bool {
        self.0.wf()
    }

    open spec fn exact(&self, x: V3<X>, s: Seq<Rat>) -> bool {
        self.0.exact(Triple(x.0, x.1, x.2), s)
    }

    open spec fn f_val(&self, x: V3<X>) -> V3<Y> {
        let p = self.0.f_val(Triple(x.0, x.1, x.2));
        V3(p.0, p.1, p.2)
    }

    open spec fn g_val(&self, x: V3<X>) -> V3<Y> {
        let p = self.0.g_val(Triple(x.0, x.1, x.2));
        V3(p.0, p.1, p.2)
    }

    open spec fn h_val(&self, x: V3<X>, s: Seq<Rat>) -> V3<Y> {
        let p = self.0.h_val(Triple(x.0, x.1, x.2), s);
        V3(p.0, p.1, p.2)
    }

    fn dims(&self) -> usize {
        self.0.dims()
    }

    fn f(&self, x: V3<X>) -> V3<Y> {
        let p = self.0.f(Triple(x.0, x.1, x.2));
        V3(p.0, p.1, p.2)
    }

    fn g(&self, x: V3<X>) -> V3<Y> {
        let p = self.0.g(Triple(x.0, x.1, x.2));
        V3(p.0, p.1, p.2)
    }

    fn h(&self, x: V3<X>, s: &Vec<Rat>) -> V3<Y> {
        let p = self.0.h(Triple(x.0, x.1, x.2), s);
        V3(p.0, p.1, p.2)
    }

    proof fn lemma_inv(&self, x: V3<X>, s: Seq<Rat>) {
        self.0.lemma_inv(Triple(x.0, x.1, x.2), s);
    }

    proof fn lemma_congr(&self, x1: V3<X>, x2: V3<X>, s: Seq<Rat>) {
        self.0.lemma_congr(Triple(x1.0, x1.1, x1.2), Triple(x2.0, x2.1, x2.2), s);
    }

    proof fn lemma_boundary(&self, x: V3<X>) {
        self.0.lemma_boundary(Triple(x.0, x.1, x.2));
    }
}

impl<X: Space, Y: Space, T: Homotopy<Quad<X, X, X, X>, Quad<Y, Y, Y, Y>>> Homotopy<
    V4<X>,
    V4<Y>,
> for AsVec<T> {
    open spec fn dim(&self) -> nat {
        self.0.dim()
    }

    open spec fn wf(&self) -> bool {
        self.0.wf()
    }

    open spec fn exact(&self, x: V4<X>, s: Seq<Rat>) -> bool {
        self.0.exact(Quad(x.0, x.1, x.2, x.3), s)
    }

    open spec fn f_val(&self, x: V4<X>) -> V4<Y> {
        let p = self.0.f_val(Quad(x.0, x.1, x.2, x.3));
        V4(p.0, p.1, p.2, p.3)
    }

    open spec fn g_val(&self, x: V4<X>) -> V4<Y> {
        let p = self.0.g_val(Quad(x.0, x.1, x.2, x.3));
        V4(p.0, p.1, p.2, p.3)
    }

    open spec fn h_val(&self, x: V4<X>, s: Seq<Rat>) -> V4<Y> {
        let p = self.0.h_val(Quad(x.0, x.1, x.2, x.3), s);
        V4(p.0, p.1, p.2, p.3)
    }

    fn dims(&self) -> usize {
        self.0.dims()
    }

    fn f(&self, x: V4<X>) -> V4<Y> {
        let p = self.0.f(Quad(x.0, x.1, x.2, x.3));
        V4(p.0, p.1, p.2, p.3)
    }

    fn g(&self, x: V4<X>) -> V4<Y> {
        let p = self.0.g(Quad(x.0, x.1, x.2, x.3));
        V4(p.0, p.1, p.2, p.3)
    }

    fn h(&self, x: V4<X>, s: &Vec<Rat>) -> V4<Y> {
        let p = self.0.h(Quad(x.0, x.1, x.2, x.3), s);
        V4(p.0, p.1, p.2, p.3)
    }

    proof fn lemma_inv(&self, x: V4<X>, s: Seq<Rat>) {
        self.0.lemma_inv(Quad(x.0, x.1, x.2, x.3), s);
    }

    proof fn lemma_congr(&self, x1: V4<X>, x2: V4<X>, s: Seq<Rat>) {
        self.0.lemma_congr(Quad(x1.0, x1.1, x1.2, x1.3), Quad(x2.0, x2.1, x2.2, x2.3), s);
    }

    proof fn lemma_boundary(&self, x: V4<X>) {
        self.0.lemma_boundary(Quad(x.0, x.1, x.2, x.3));
    }
}

} // verus!
