//! Dimension-raising products: squares, cubes and four-cubes.
//!
//! The product of N independent homotopies is an N-dimensional homotopy over
//! the tuple of their inputs: axis k of the parameter drives exactly the k-th
//! factor, and the output is the tuple of the factors' outputs.

use vstd::prelude::*;
use crate::rat::Rat;
use crate::space::Space;
use crate::axes::{zeros, ones, all_inv, single};
use crate::homotopy::Homotopy;
use crate::tuples::{Pair, Triple, Quad};

verus! {

/// The square of two homotopies: a two-dimensional homotopy where each axis
/// drives one factor.
#[derive(Clone, Copy, Debug)]
pub struct Square<H1, H2> {
    /// The first factor, driven by the first axis.
    pub h1: H1,
    /// The second factor, driven by the second axis.
    pub h2: H2,
}

impl<H1, H2> Square<H1, H2> {
    /// Creates the square of two homotopies.
    pub fn new(h1: H1, h2: H2) -> (r: Self)
        ensures
            r == (Square { h1, h2 }),
    {
        Square { h1, h2 }
    }
}

impl<X1: Space, X2: Space, Y1: Space, Y2: Space, H1: Homotopy<X1, Y1>, H2: Homotopy<X2, Y2>>
    Homotopy<Pair<X1, X2>, Pair<Y1, Y2>> for Square<H1, H2> {
    open spec fn dim(&self) -> nat {
        2
    }

    open spec fn wf(&self) -> bool {
        self.h1.wf() && self.h2.wf() && self.h1.dim() == 1 && self.h2.dim() == 1
    }

    open spec fn exact(&self, x: Pair<X1, X2>, s: Seq<Rat>) -> bool {
        self.h1.exact(x.0, seq![s[0]]) && self.h2.exact(x.1, seq![s[1]])
    }

    open spec fn f_val(&self, x: Pair<X1, X2>) -> Pair<Y1, Y2> {
        Pair(self.h1.f_val(x.0), self.h2.f_val(x.1))
    }

    open spec fn g_val(&self, x: Pair<X1, X2>) -> Pair<Y1, Y2> {
        Pair(self.h1.g_val(x.0), self.h2.g_val(x.1))
    }

    open spec fn h_val(&self, x: Pair<X1, X2>, s: Seq<Rat>) -> Pair<Y1, Y2> {
        Pair(self.h1.h_val(x.0, seq![s[0]]), self.h2.h_val(x.1, seq![s[1]]))
    }

    fn dims(&self) -> usize {
        2
    }

    fn f(&self, x: Pair<X1, X2>) -> Pair<Y1, Y2> {
        Pair(self.h1.f(x.0), self.h2.f(x.1))
    }

    fn g(&self, x: Pair<X1, X2>) -> Pair<Y1, Y2> {
        Pair(self.h1.g(x.0), self.h2.g(x.1))
    }

    fn h(&self, x: Pair<X1, X2>, s: &Vec<Rat>) -> Pair<Y1, Y2> {
        let s1 = single(s[0]);
        let s2 = single(s[1]);
        Pair(self.h1.h(x.0, &s1), self.h2.h(x.1, &s2))
    }

    proof fn lemma_inv(&self, x: Pair<X1, X2>, s: Seq<Rat>) {
        assert(all_inv(seq![s[0]]));
        assert(all_inv(seq![s[1]]));
        self.h1.lemma_inv(x.0, seq![s[0]]);
        self.h2.lemma_inv(x.1, seq![s[1]]);
    }

    proof fn lemma_congr(&self, x1: Pair<X1, X2>, x2: Pair<X1, X2>, s: Seq<Rat>) {
        assert(all_inv(seq![s[0]]));
        assert(all_inv(seq![s[1]]));
        self.h1.lemma_congr(x1.0, x2.0, seq![s[0]]);
        self.h2.lemma_congr(x1.1, x2.1, seq![s[1]]);
    }

    proof fn lemma_boundary(&self, x: Pair<X1, X2>) {
        assert(seq![zeros(2)[0]] =~= zeros(1));
        assert(seq![zeros(2)[1]] =~= zeros(1));
        assert(seq![ones(2)[0]] =~= ones(1));
        assert(seq![ones(2)[1]] =~= ones(1));
        self.h1.lemma_boundary(x.0);
        self.h2.lemma_boundary(x.1);
    }
}

/// The cube of three homotopies: a three-dimensional homotopy where each
/// axis drives one factor.
#[derive(Clone, Copy, Debug)]
pub struct Cube<H1, H2, H3> {
    /// The first factor, driven by the first axis.
    pub h1: H1,
    /// The second factor, driven by the second axis.
    pub h2: H2,
    /// The third factor, driven by the third axis.
    pub h3: H3,
}

impl<H1, H2, H3> Cube<H1, H2, H3> {
    /// Creates the cube of three homotopies.
    pub fn new(h1: H1, h2: H2, h3: H3) -> (r: Self)
        ensures
            r == (Cube { h1, h2, h3 }),
    {
        Cube { h1, h2, h3 }
    }
}

impl<
    X1: Space,
    X2: Space,
    X3: Space,
    Y1: Space,
    Y2: Space,
    Y3: Space,
    H1: Homotopy<X1, Y1>,
    H2: Homotopy<X2, Y2>,
    H3: Homotopy<X3, Y3>,
> Homotopy<Triple<X1, X2, X3>, Triple<Y1, Y2, Y3>> for Cube<H1, H2, H3> {
    open spec fn dim(&self) -> nat {
        3
    }

    open spec fn wf(&self) -> bool {
        &&& self.h1.wf() && self.h1.dim() == 1
        &&& self.h2.wf() && self.h2.dim() == 1
        &&& self.h3.wf() && self.h3.dim() == 1
    }

    open spec fn exact(&self, x: Triple<X1, X2, X3>, s: Seq<Rat>) -> bool {
        &&& self.h1.exact(x.0, seq![s[0]])
        &&& self.h2.exact(x.1, seq![s[1]])
        &&& self.h3.exact(x.2, seq![s[2]])
    }

    open spec fn f_val(&self, x: Triple<X1, X2, X3>) -> Triple<Y1, Y2, Y3> {
        Triple(self.h1.f_val(x.0), self.h2.f_val(x.1), self.h3.f_val(x.2))
    }

    open spec fn g_val(&self, x: Triple<X1, X2, X3>) -> Triple<Y1, Y2, Y3> {
        Triple(self.h1.g_val(x.0), self.h2.g_val(x.1), self.h3.g_val(x.2))
    }

    open spec fn h_val(&self, x: Triple<X1, X2, X3>, s: Seq<Rat>) -> Triple<Y1, Y2, Y3> {
        Triple(
            self.h1.h_val(x.0, seq![s[0]]),
            self.h2.h_val(x.1, seq![s[1]]),
            self.h3.h_val(x.2, seq![s[2]]),
        )
    }

    fn dims(&self) -> usize {
        3
    }

    fn f(&self, x: Triple<X1, X2, X3>) -> Triple<Y1, Y2, Y3> {
        Triple(self.h1.f(x.0), self.h2.f(x.1), self.h3.f(x.2))
    }

    fn g(&self, x: Triple<X1, X2, X3>) -> Triple<Y1, Y2, Y3> {
        Triple(self.h1.g(x.0), self.h2.g(x.1), self.h3.g(x.2))
    }

    fn h(&self, x: Triple<X1, X2, X3>, s: &Vec<Rat>) -> Triple<Y1, Y2, Y3> {
        let s1 = single(s[0]);
        let s2 = single(s[1]);
        let s3 = single(s[2]);
        Triple(self.h1.h(x.0, &s1), self.h2.h(x.1, &s2), self.h3.h(x.2, &s3))
    }

    proof fn lemma_inv(&self, x: Triple<X1, X2, X3>, s: Seq<Rat>) {
        assert(all_inv(seq![s[0]]));
        assert(all_inv(seq![s[1]]));
        assert(all_inv(seq![s[2]]));
        self.h1.lemma_inv(x.0, seq![s[0]]);
        self.h2.lemma_inv(x.1, seq![s[1]]);
        self.h3.lemma_inv(x.2, seq![s[2]]);
    }

    proof fn lemma_congr(&self, x1: Triple<X1, X2, X3>, x2: Triple<X1, X2, X3>, s: Seq<Rat>) {
        assert(all_inv(seq![s[0]]));
        assert(all_inv(seq![s[1]]));
        assert(all_inv(seq![s[2]]));
        self.h1.lemma_congr(x1.0, x2.0, seq![s[0]]);
        self.h2.lemma_congr(x1.1, x2.1, seq![s[1]]);
        self.h3.lemma_congr(x1.2, x2.2, seq![s[2]]);
    }

    proof fn lemma_boundary(&self, x: Triple<X1, X2, X3>) {
        assert(seq![zeros(3)[0]] =~= zeros(1));
        assert(seq![zeros(3)[1]] =~= zeros(1));
        assert(seq![zeros(3)[2]] =~= zeros(1));
        assert(seq![ones(3)[0]] =~= ones(1));
        assert(seq![ones(3)[1]] =~= ones(1));
        assert(seq![ones(3)[2]] =~= ones(1));
        self.h1.lemma_boundary(x.0);
        self.h2.lemma_boundary(x.1);
        self.h3.lemma_boundary(x.2);
    }
}

/// The four-cube of four homotopies: a four-dimensional homotopy where each
/// axis drives one factor.
#[derive(Clone, Copy, Debug)]
pub struct Cube4<H1, H2, H3, H4> {
    /// The first factor, driven by the first axis.
    pub h1: H1,
    /// The second factor, driven by the second axis.
    pub h2: H2,
    /// The third factor, driven by the third axis.
    pub h3: H3,
    /// The fourth factor, driven by the fourth axis.
    pub h4: H4,
}

impl<H1, H2, H3, H4> Cube4<H1, H2, H3, H4> {
    /// Creates the four-cube of four homotopies.
    pub fn new(h1: H1, h2: H2, h3: H3, h4: H4) -> (r: Self)
        ensures
            r == (Cube4 { h1, h2, h3, h4 }),
    {
        Cube4 { h1, h2, h3, h4 }
    }
}

impl<
    X1: Space,
    X2: Space,
    X3: Space,
    X4: Space,
    Y1: Space,
    Y2: Space,
    Y3: Space,
    Y4: Space,
    H1: Homotopy<X1, Y1>,
    H2: Homotopy<X2, Y2>,
    H3: Homotopy<X3, Y3>,
    H4: Homotopy<X4, Y4>,
> Homotopy<Quad<X1, X2, X3, X4>, Quad<Y1, Y2, Y3, Y4>> for Cube4<H1, H2, H3, H4> {
    open spec fn dim(&self) -> nat {
        4
    }

    open spec fn wf(&self) -> bool {
        &&& self.h1.wf() && self.h1.dim() == 1
        &&& self.h2.wf() && self.h2.dim() == 1
        &&& self.h3.wf() && self.h3.dim() == 1
        &&& self.h4.wf() && self.h4.dim() == 1
    }

    open spec fn exact(&self, x: Quad<X1, X2, X3, X4>, s: Seq<Rat>) -> bool {
        &&& self.h1.exact(x.0, seq![s[0]])
        &&& self.h2.exact(x.1, seq![s[1]])
        &&& self.h3.exact(x.2, seq![s[2]])
        &&& self.h4.exact(x.3, seq![s[3]])
    }

    open spec fn f_val(&self, x: Quad<X1, X2, X3, X4>) -> Quad<Y1, Y2, Y3, Y4> {
        Quad(self.h1.f_val(x.0), self.h2.f_val(x.1), self.h3.f_val(x.2), self.h4.f_val(x.3))
    }

    open spec fn g_val(&self, x: Quad<X1, X2, X3, X4>) -> Quad<Y1, Y2, Y3, Y4> {
        Quad(self.h1.g_val(x.0), self.h2.g_val(x.1), self.h3.g_val(x.2), self.h4.g_val(x.3))
    }

    open spec fn h_val(&self, x: Quad<X1, X2, X3, X4>, s: Seq<Rat>) -> Quad<Y1, Y2, Y3, Y4> {
        Quad(
            self.h1.h_val(x.0, seq![s[0]]),
            self.h2.h_val(x.1, seq![s[1]]),
            self.h3.h_val(x.2, seq![s[2]]),
            self.h4.h_val(x.3, seq![s[3]]),
        )
    }

    fn dims(&self) -> usize {
        4
    }

    fn f(&self, x: Quad<X1, X2, X3, X4>) -> Quad<Y1, Y2, Y3, Y4> {
        Quad(self.h1.f(x.0), self.h2.f(x.1), self.h3.f(x.2), self.h4.f(x.3))
    }

    fn g(&self, x: Quad<X1, X2, X3, X4>) -> Quad<Y1, Y2, Y3, Y4> {
        Quad(self.h1.g(x.0), self.h2.g(x.1), self.h3.g(x.2), self.h4.g(x.3))
    }

    fn h(&self, x: Quad<X1, X2, X3, X4>, s: &Vec<Rat>) -> Quad<Y1, Y2, Y3, Y4> {
        let s1 = single(s[0]);
        let s2 = single(s[1]);
        let s3 = single(s[2]);
        let s4 = single(s[3]);
        Quad(self.h1.h(x.0, &s1), self.h2.h(x.1, &s2), self.h3.h(x.2, &s3), self.h4.h(x.3, &s4))
    }

    proof fn lemma_inv(&self, x: Quad<X1, X2, X3, X4>, s: Seq<Rat>) {
        assert(all_inv(seq![s[0]]));
        assert(all_inv(seq![s[1]]));
        assert(all_inv(seq![s[2]]));
        assert(all_inv(seq![s[3]]));
        self.h1.lemma_inv(x.0, seq![s[0]]);
        self.h2.lemma_inv(x.1, seq![s[1]]);
        self.h3.lemma_inv(x.2, seq![s[2]]);
        self.h4.lemma_inv(x.3, seq![s[3]]);
    }

    proof fn lemma_congr(
        &self,
        x1: Quad<X1, X2, X3, X4>,
        x2: Quad<X1, X2, X3, X4>,
        s: Seq<Rat>,
    ) {
        assert(all_inv(seq![s[0]]));
        assert(all_inv(seq![s[1]]));
        assert(all_inv(seq![s[2]]));
        assert(all_inv(seq![s[3]]));
        self.h1.lemma_congr(x1.0, x2.0, seq![s[0]]);
        self.h2.lemma_congr(x1.1, x2.1, seq![s[1]]);
        self.h3.lemma_congr(x1.2, x2.2, seq![s[2]]);
        self.h4.lemma_congr(x1.3, x2.3, seq![s[3]]);
    }

    proof fn lemma_boundary(&self, x: Quad<X1, X2, X3, X4>) {
        assert(seq![zeros(4)[0]] =~= zeros(1));
        assert(seq![zeros(4)[1]] =~= zeros(1));
        assert(seq![zeros(4)[2]] =~= zeros(1));
        assert(seq![zeros(4)[3]] =~= zeros(1));
        assert(seq![ones(4)[0]] =~= ones(1));
        assert(seq![ones(4)[1]] =~= ones(1));
        assert(seq![ones(4)[2]] =~= ones(1));
        assert(seq![ones(4)[3]] =~= ones(1));
        self.h1.lemma_boundary(x.0);
        self.h2.lemma_boundary(x.1);
        self.h3.lemma_boundary(x.2);
        self.h4.lemma_boundary(x.3);
    }
}

} // verus!
