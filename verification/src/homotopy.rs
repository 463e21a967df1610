//! The homotopy capability set and the boundary contract.
//!
//! A homotopy connects a start function `f` and an end function `g` through
//! an interpolating function `h` over a parameter vector: `h` at the all-zero
//! corner agrees with `f`, and at the all-one corner with `g`. This boundary
//! contract is a proof obligation of the trait ([`Homotopy::lemma_boundary`]),
//! so every combinator of the crate preserves it by construction; the
//! executable checkers in [`crate::checks`] are proved to return `true`
//! whenever the evaluation stays within machine range.

use vstd::prelude::*;
use crate::rat::Rat;
use crate::space::{Space, Origin};
use crate::axes::{zeros, ones, all_inv};

verus! {

/// A continuous map between two functions, with the boundary contract as a
/// proof obligation.
///
/// `X` is the input space, `Y` the output space; the parameter is a vector
/// of [`Rat`] scalars with one entry per axis ([`Homotopy::dim`]).
pub trait Homotopy<X: Space, Y: Space>: Copy + Sized {
    /// The number of parameter axes.
    spec fn dim(&self) -> nat;

    /// Structural well-formedness of the combinator.
    spec fn wf(&self) -> bool;

    /// Whether evaluation at `x` and `s` stays within machine range, so that
    /// the evaluated values are the exact mathematical ones.
    spec fn exact(&self, x: X, s: Seq<Rat>) -> bool;

    /// The function being mapped from.
    spec fn f_val(&self, x: X) -> Y;

    /// The function being mapped to.
    spec fn g_val(&self, x: X) -> Y;

    /// The interpolating function over the parameter vector.
    spec fn h_val(&self, x: X, s: Seq<Rat>) -> Y;

    /// The number of parameter axes, as executable code.
    fn dims(&self) -> (n: usize)
        requires
            self.wf(),
        ensures
            n as nat == self.dim(),
    ;

    /// Evaluates the start function.
    fn f(&self, x: X) -> (y: Y)
        requires
            self.wf(),
        ensures
            y == self.f_val(x),
    ;

    /// Evaluates the end function.
    fn g(&self, x: X) -> (y: Y)
        requires
            self.wf(),
        ensures
            y == self.g_val(x),
    ;

    /// Evaluates the homotopy at a parameter vector with one scalar per axis.
    fn h(&self, x: X, s: &Vec<Rat>) -> (y: Y)
        requires
            self.wf(),
            s@.len() == self.dim(),
        ensures
            y == self.h_val(x, s@),
    ;

    /// Evaluation keeps values well formed.
    proof fn lemma_inv(&self, x: X, s: Seq<Rat>)
        requires
            self.wf(),
            x.inv(),
            all_inv(s),
            s.len() == self.dim(),
        ensures
            self.f_val(x).inv(),
            self.g_val(x).inv(),
            self.h_val(x, s).inv(),
    ;

    /// Evaluation respects sameness of inputs.
    proof fn lemma_congr(&self, x1: X, x2: X, s: Seq<Rat>)
        requires
            self.wf(),
            x1.inv(),
            x2.inv(),
            x1.eqv(x2),
            all_inv(s),
            s.len() == self.dim(),
            self.exact(x1, s),
            self.exact(x2, s),
        ensures
            self.f_val(x1).eqv(self.f_val(x2)),
            self.g_val(x1).eqv(self.g_val(x2)),
            self.h_val(x1, s).eqv(self.h_val(x2, s)),
    ;

    /// The boundary contract: at the all-zero corner the homotopy agrees with
    /// its start function, and at the all-one corner with its end function.
    proof fn lemma_boundary(&self, x: X)
        requires
            self.wf(),
            x.inv(),
            self.exact(x, zeros(self.dim())),
            self.exact(x, ones(self.dim())),
        ensures
            self.h_val(x, zeros(self.dim())).eqv(self.f_val(x)),
            self.h_val(x, ones(self.dim())).eqv(self.g_val(x)),
    ;
}

/// Evaluates a homotopy at the default input of its input space: the entry
/// point for homotopies whose shape is carried entirely by the parameter.
pub fn hu<X: Origin, Y: Space, H: Homotopy<X, Y>>(h: &H, s: &Vec<Rat>) -> (y: Y)
    requires
        h.wf(),
        s@.len() == h.dim(),
    ensures
        y == h.h_val(X::origin_val(), s@),
{
    let x = X::origin();
    h.h(x, s)
}

} // verus!
