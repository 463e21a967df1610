//! Output-mapping combinators: branch selection, output rewriting, and
//! dimension-raising output blending.

use vstd::prelude::*;
use crate::rat::Rat;
use crate::space::Space;
use crate::axes::{zeros, ones, all_inv, prefix};
use crate::homotopy::Homotopy;
use crate::transform::{Transform, Blend};

verus! {

/// A two-branch step homotopy: the first branch function at parameter zero
/// and the second elsewhere. Since the parameter is the second branch at one,
/// the boundary contract holds.
#[derive(Clone, Copy)]
pub struct DiracFrom<X, Y, F, G> {
    /// The branch taken at parameter zero.
    pub fx: F,
    /// The branch taken everywhere else.
    pub gx: G,
    /// Marks the input space of the two branches.
    pub px: Ghost<X>,
    /// Marks the output space of the two branches.
    pub py: Ghost<Y>,
}

impl<X, Y, F, G> DiracFrom<X, Y, F, G> {
    /// Creates a two-branch step homotopy from its branch functions.
    pub fn new(f: F, g: G) -> (r: DiracFrom<X, Y, F, G>)
        ensures
            r.fx == f,
            r.gx == g,
    {
        DiracFrom {
            fx: f,
            gx: g,
            px: Ghost(vstd::pervasive::arbitrary()),
            py: Ghost(vstd::pervasive::arbitrary()),
        }
    }
}

impl<X: Space, Y: Space, F: Transform<X, Y>, G: Transform<X, Y>> Homotopy<X, Y> for DiracFrom<
    X,
    Y,
    F,
    G,
> {
    open spec fn dim(&self) -> nat {
        1
    }

    open spec fn wf(&self) -> bool {
        self.fx.twf() && self.gx.twf()
    }

    open spec fn exact(&self, x: X, s: Seq<Rat>) -> bool {
        self.fx.ok(x) && self.gx.ok(x)
    }

    open spec fn f_val(&self, x: X) -> Y {
        self.fx.val(x)
    }

    open spec fn g_val(&self, x: X) -> Y {
        self.gx.val(x)
    }

    open spec fn h_val(&self, x: X, s: Seq<Rat>) -> Y {
        if s[0].is_zero_val() {
            self.fx.val(x)
        } else {
            self.gx.val(x)
        }
    }

    fn dims(&self) -> usize {
        1
    }

    fn f(&self, x: X) -> Y {
        self.fx.call(x)
    }

    fn g(&self, x: X) -> Y {
        self.gx.call(x)
    }

    fn h(&self, x: X, s: &Vec<Rat>) -> Y {
        if s[0].is_zero() {
            self.fx.call(x)
        } else {
            self.gx.call(x)
        }
    }

    proof fn lemma_inv(&self, x: X, s: Seq<Rat>) {
        self.fx.lemma_inv(x);
        self.gx.lemma_inv(x);
    }

    proof fn lemma_congr(&self, x1: X, x2: X, s: Seq<Rat>) {
        self.fx.lemma_congr(x1, x2);
        self.gx.lemma_congr(x1, x2);
    }

    proof fn lemma_boundary(&self, x: X) {
        assert(zeros(1)[0] == Rat::zero_val());
        assert(ones(1)[0] == Rat::one_val());
        Y::lemma_eqv_refl(self.fx.val(x));
        Y::lemma_eqv_refl(self.gx.val(x));
    }
}

/// Applies a pure transform to the output of a homotopy at every evaluation
/// point, without changing its axes.
#[derive(Clone, Copy)]
pub struct Remap<Y1, H, F> {
    /// The homotopy whose output is rewritten.
    pub inner: H,
    /// The output transform.
    pub t: F,
    /// Marks the output space being transformed away.
    pub mid: Ghost<Y1>,
}

impl<Y1, H, F> Remap<Y1, H, F> {
    /// Creates a homotopy whose output is rewritten by a pure transform.
    pub fn new(h: H, f: F) -> (r: Remap<Y1, H, F>)
        ensures
            r.inner == h,
            r.t == f,
    {
        Remap { inner: h, t: f, mid: Ghost(vstd::pervasive::arbitrary()) }
    }
}

impl<X: Space, Y1: Space, Y2: Space, H: Homotopy<X, Y1>, F: Transform<Y1, Y2>> Homotopy<
    X,
    Y2,
> for Remap<Y1, H, F> {
    open spec fn dim(&self) -> nat {
        self.inner.dim()
    }

    open spec fn wf(&self) -> bool {
        self.inner.wf() && self.t.twf()
    }

    open spec fn exact(&self, x: X, s: Seq<Rat>) -> bool {
        &&& self.inner.exact(x, s)
        &&& self.t.ok(self.inner.h_val(x, s))
        &&& self.t.ok(self.inner.f_val(x))
        &&& self.t.ok(self.inner.g_val(x))
    }

    open spec fn f_val(&self, x: X) -> Y2 {
        self.t.val(self.inner.f_val(x))
    }

    open spec fn g_val(&self, x: X) -> Y2 {
        self.t.val(self.inner.g_val(x))
    }

    open spec fn h_val(&self, x: X, s: Seq<Rat>) -> Y2 {
        self.t.val(self.inner.h_val(x, s))
    }

    fn dims(&self) -> usize {
        self.inner.dims()
    }

    fn f(&self, x: X) -> Y2 {
        self.t.call(self.inner.f(x))
    }

    fn g(&self, x: X) -> Y2 {
        self.t.call(self.inner.g(x))
    }

    fn h(&self, x: X, s: &Vec<Rat>) -> Y2 {
        self.t.call(self.inner.h(x, s))
    }

    proof fn lemma_inv(&self, x: X, s: Seq<Rat>) {
        self.inner.lemma_inv(x, s);
        self.t.lemma_inv(self.inner.f_val(x));
        self.t.lemma_inv(self.inner.g_val(x));
        self.t.lemma_inv(self.inner.h_val(x, s));
    }

    proof fn lemma_congr(&self, x1: X, x2: X, s: Seq<Rat>) {
        self.inner.lemma_inv(x1, s);
        self.inner.lemma_inv(x2, s);
        self.inner.lemma_congr(x1, x2, s);
        self.t.lemma_congr(self.inner.f_val(x1), self.inner.f_val(x2));
        self.t.lemma_congr(self.inner.g_val(x1), self.inner.g_val(x2));
        self.t.lemma_congr(self.inner.h_val(x1, s), self.inner.h_val(x2, s));
    }

    proof fn lemma_boundary(&self, x: X) {
        crate::axes::lemma_zeros_ones_corner(self.dim());
        self.inner.lemma_inv(x, zeros(self.dim()));
        self.inner.lemma_inv(x, ones(self.dim()));
        self.inner.lemma_boundary(x);
        self.t.lemma_congr(self.inner.h_val(x, zeros(self.dim())), self.inner.f_val(x));
        self.t.lemma_congr(self.inner.h_val(x, ones(self.dim())), self.inner.g_val(x));
    }
}

/// Lifts a homotopy into one extra dimension: the leading axes drive the
/// inner homotopy unchanged, and the final axis is consumed directly by a
/// pure blend of the output.
#[derive(Clone, Copy)]
pub struct SMap<Y1, H, F> {
    /// The homotopy being lifted.
    pub inner: H,
    /// The blend consuming the new final axis.
    pub t: F,
    /// Marks the output space being blended away.
    pub mid: Ghost<Y1>,
}

impl<Y1, H, F> SMap<Y1, H, F> {
    /// Creates a homotopy lifted into one extra dimension through a blend.
    pub fn new(h: H, f: F) -> (r: SMap<Y1, H, F>)
        ensures
            r.inner == h,
            r.t == f,
    {
        SMap { inner: h, t: f, mid: Ghost(vstd::pervasive::arbitrary()) }
    }
}

impl<X: Space, Y1: Space, Y2: Space, H: Homotopy<X, Y1>, F: Blend<Y1, Y2>> Homotopy<X, Y2> for SMap<
    Y1,
    H,
    F,
> {
    open spec fn dim(&self) -> nat {
        self.inner.dim() + 1
    }

    open spec fn wf(&self) -> bool {
        self.inner.wf() && self.t.twf() && self.inner.dim() + 1 <= usize::MAX
    }

    open spec fn exact(&self, x: X, s: Seq<Rat>) -> bool {
        let pre = s.subrange(0, self.inner.dim() as int);
        let last = s[self.inner.dim() as int];
        &&& self.inner.exact(x, pre)
        &&& self.t.ok(self.inner.h_val(x, pre), last)
        &&& self.t.ok(self.inner.f_val(x), Rat::zero_val())
        &&& self.t.ok(self.inner.g_val(x), Rat::one_val())
        &&& self.t.ok(self.inner.h_val(x, pre), Rat::zero_val())
        &&& self.t.ok(self.inner.h_val(x, pre), Rat::one_val())
    }

    open spec fn f_val(&self, x: X) -> Y2 {
        self.t.val(self.inner.f_val(x), Rat::zero_val())
    }

    open spec fn g_val(&self, x: X) -> Y2 {
        self.t.val(self.inner.g_val(x), Rat::one_val())
    }

    open spec fn h_val(&self, x: X, s: Seq<Rat>) -> Y2 {
        let pre = s.subrange(0, self.inner.dim() as int);
        self.t.val(self.inner.h_val(x, pre), s[self.inner.dim() as int])
    }

    fn dims(&self) -> usize {
        self.inner.dims() + 1
    }

    fn f(&self, x: X) -> Y2 {
        self.t.call(self.inner.f(x), Rat::zero())
    }

    fn g(&self, x: X) -> Y2 {
        self.t.call(self.inner.g(x), Rat::one())
    }

    fn h(&self, x: X, s: &Vec<Rat>) -> Y2 {
        let n = self.inner.dims();
        let pre = prefix(s, n);
        let y = self.inner.h(x, &pre);
        self.t.call(y, s[n])
    }

    proof fn lemma_inv(&self, x: X, s: Seq<Rat>) {
        let pre = s.subrange(0, self.inner.dim() as int);
        assert(all_inv(pre));
        self.inner.lemma_inv(x, pre);
        self.t.lemma_inv(self.inner.f_val(x), Rat::zero_val());
        self.t.lemma_inv(self.inner.g_val(x), Rat::one_val());
        self.t.lemma_inv(self.inner.h_val(x, pre), s[self.inner.dim() as int]);
    }

    proof fn lemma_congr(&self, x1: X, x2: X, s: Seq<Rat>) {
        let pre = s.subrange(0, self.inner.dim() as int);
        let last = s[self.inner.dim() as int];
        assert(all_inv(pre));
        self.inner.lemma_inv(x1, pre);
        self.inner.lemma_inv(x2, pre);
        self.inner.lemma_congr(x1, x2, pre);
        self.t.lemma_congr(self.inner.f_val(x1), self.inner.f_val(x2), Rat::zero_val());
        self.t.lemma_congr(self.inner.g_val(x1), self.inner.g_val(x2), Rat::one_val());
        self.t.lemma_congr(self.inner.h_val(x1, pre), self.inner.h_val(x2, pre), last);
    }

    proof fn lemma_boundary(&self, x: X) {
        let n = self.inner.dim();
        let prez = zeros(self.dim()).subrange(0, n as int);
        let preo = ones(self.dim()).subrange(0, n as int);
        assert(prez =~= zeros(n));
        assert(preo =~= ones(n));
        assert(zeros(self.dim())[n as int] == Rat::zero_val());
        assert(ones(self.dim())[n as int] == Rat::one_val());
        crate::axes::lemma_zeros_ones_corner(n);
        self.inner.lemma_inv(x, zeros(n));
        self.inner.lemma_inv(x, ones(n));
        self.inner.lemma_boundary(x);
        self.t.lemma_congr(
            self.inner.h_val(x, zeros(n)),
            self.inner.f_val(x),
            Rat::zero_val(),
        );
        self.t.lemma_congr(self.inner.h_val(x, ones(n)), self.inner.g_val(x), Rat::one_val());
    }
}

} // verus!
