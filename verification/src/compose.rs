//! Sequential composition of homotopies.
//!
//! [`Compose`] chains a homotopy `A` into a homotopy `B` whose input space
//! is `A`'s output space. The parameter axes of the result are the
//! concatenation of both sides' axes: the leading axes drive `A` and the
//! trailing axes drive `B`, so sequential stages stay independently
//! controllable instead of collapsing into one axis.

use vstd::prelude::*;
use crate::rat::Rat;
use crate::space::Space;
use crate::axes::{zeros, ones, all_inv, prefix, suffix};
use crate::homotopy::Homotopy;

verus! {

/// The sequential composition of two homotopies, with concatenated
/// parameter axes.
#[derive(Clone, Copy)]
pub struct Compose<Y, A, B> {
    /// The first stage, driven by the leading axes.
    pub a: A,
    /// The second stage, fed by the first stage's output and driven by the
    /// trailing axes.
    pub b: B,
    /// Marks the intermediate space the first stage feeds into the second.
    pub mid: Ghost<Y>,
}

impl<Y, A, B> Compose<Y, A, B> {
    /// Creates the sequential composition of two homotopies.
    pub fn new(a: A, b: B) -> (r: Self)
        ensures
            r.a == a,
            r.b == b,
    {
        Compose { a, b, mid: Ghost(vstd::pervasive::arbitrary()) }
    }
}

impl<X: Space, Y: Space, Z: Space, A: Homotopy<X, Y>, B: Homotopy<Y, Z>> Homotopy<X, Z> for Compose<
    Y,
    A,
    B,
> {
    open spec fn dim(&self) -> nat {
        self.a.dim() + self.b.dim()
    }

    open spec fn wf(&self) -> bool {
        self.a.wf() && self.b.wf() && self.a.dim() + self.b.dim() <= usize::MAX
    }

    open spec fn exact(&self, x: X, s: Seq<Rat>) -> bool {
        let pre = s.subrange(0, self.a.dim() as int);
        let suf = s.subrange(self.a.dim() as int, s.len() as int);
        &&& self.a.exact(x, pre)
        &&& self.b.exact(self.a.h_val(x, pre), suf)
        &&& self.b.exact(self.a.f_val(x), suf)
        &&& self.b.exact(self.a.g_val(x), suf)
    }

    open spec fn f_val(&self, x: X) -> Z {
        self.b.f_val(self.a.f_val(x))
    }

    open spec fn g_val(&self, x: X) -> Z {
        self.b.g_val(self.a.g_val(x))
    }

    open spec fn h_val(&self, x: X, s: Seq<Rat>) -> Z {
        let pre = s.subrange(0, self.a.dim() as int);
        let suf = s.subrange(self.a.dim() as int, s.len() as int);
        self.b.h_val(self.a.h_val(x, pre), suf)
    }

    fn dims(&self) -> usize {
        self.a.dims() + self.b.dims()
    }

    fn f(&self, x: X) -> Z {
        self.b.f(self.a.f(x))
    }

    fn g(&self, x: X) -> Z {
        self.b.g(self.a.g(x))
    }

    fn h(&self, x: X, s: &Vec<Rat>) -> Z {
        let da = self.a.dims();
        let pre = prefix(s, da);
        let suf = suffix(s, da);
        let mid = self.a.h(x, &pre);
        self.b.h(mid, &suf)
    }

    proof fn lemma_inv(&self, x: X, s: Seq<Rat>) {
        let pre = s.subrange(0, self.a.dim() as int);
        let suf = s.subrange(self.a.dim() as int, s.len() as int);
        assert(all_inv(pre));
        assert(all_inv(suf));
        self.a.lemma_inv(x, pre);
        self.b.lemma_inv(self.a.f_val(x), suf);
        self.b.lemma_inv(self.a.g_val(x), suf);
        self.b.lemma_inv(self.a.h_val(x, pre), suf);
    }

    proof fn lemma_congr(&self, x1: X, x2: X, s: Seq<Rat>) {
        let pre = s.subrange(0, self.a.dim() as int);
        let suf = s.subrange(self.a.dim() as int, s.len() as int);
        assert(all_inv(pre));
        assert(all_inv(suf));
        self.a.lemma_inv(x1, pre);
        self.a.lemma_inv(x2, pre);
        self.a.lemma_congr(x1, x2, pre);
        self.b.lemma_congr(self.a.f_val(x1), self.a.f_val(x2), suf);
        self.b.lemma_congr(self.a.g_val(x1), self.a.g_val(x2), suf);
        self.b.lemma_congr(self.a.h_val(x1, pre), self.a.h_val(x2, pre), suf);
    }

    proof fn lemma_boundary(&self, x: X) {
        let da = self.a.dim() as int;
        let n = self.dim();
        let prez = zeros(n).subrange(0, da);
        let sufz = zeros(n).subrange(da, n as int);
        let preo = ones(n).subrange(0, da);
        let sufo = ones(n).subrange(da, n as int);
        assert(prez =~= zeros(self.a.dim()));
        assert(sufz =~= zeros(self.b.dim()));
        assert(preo =~= ones(self.a.dim()));
        assert(sufo =~= ones(self.b.dim()));
        assert(all_inv(prez));
        assert(all_inv(sufz));
        assert(all_inv(preo));
        assert(all_inv(sufo));
        self.a.lemma_inv(x, prez);
        self.a.lemma_inv(x, preo);
        self.a.lemma_boundary(x);
        // Start corner: B's stage at A's start corner output agrees with B's
        // stage at A's start function, then B's own boundary closes the gap.
        self.b.lemma_congr(self.a.h_val(x, prez), self.a.f_val(x), sufz);
        self.b.lemma_boundary(self.a.f_val(x));
        self.b.lemma_inv(self.a.h_val(x, prez), sufz);
        self.b.lemma_inv(self.a.f_val(x), sufz);
        Z::lemma_eqv_trans(
            self.b.h_val(self.a.h_val(x, prez), sufz),
            self.b.h_val(self.a.f_val(x), sufz),
            self.b.f_val(self.a.f_val(x)),
        );
        // End corner, symmetrically.
        self.b.lemma_congr(self.a.h_val(x, preo), self.a.g_val(x), sufo);
        self.b.lemma_boundary(self.a.g_val(x));
        self.b.lemma_inv(self.a.h_val(x, preo), sufo);
        self.b.lemma_inv(self.a.g_val(x), sufo);
        Z::lemma_eqv_trans(
            self.b.h_val(self.a.h_val(x, preo), sufo),
            self.b.h_val(self.a.g_val(x), sufo),
            self.b.g_val(self.a.g_val(x)),
        );
    }
}

} // verus!
