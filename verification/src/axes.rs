//! Parameter vectors and axis operations.
//!
//! An N-dimensional homotopy takes a parameter vector of N rational scalars,
//! one per axis. The start corner is the all-zero vector and the end corner
//! the all-one vector. This module holds the shape-generic axis operations:
//! building corners, splitting a vector into a prefix and a suffix for
//! sequential composition, re-inserting a pinned axis for face and slice
//! extraction, and replicating one scalar over every axis for diagonals.

use vstd::prelude::*;
use crate::rat::Rat;

verus! {

/// The all-zero parameter vector of length `n`: the start corner.
pub open spec fn zeros(n: nat) -> Seq<Rat> {
    Seq::new(n, |i: int| Rat::zero_val())
}

/// The all-one parameter vector of length `n`: the end corner.
pub open spec fn ones(n: nat) -> Seq<Rat> {
    Seq::new(n, |i: int| Rat::one_val())
}

/// Every scalar of the vector is well formed.
pub open spec fn all_inv(s: Seq<Rat>) -> bool {
    forall|i: int| 0 <= i < s.len() ==> s[i].inv()
}

/// Every scalar of the vector is canonical zero or canonical one: the vector
/// is a corner of the parameter cube.
pub open spec fn is_corner(s: Seq<Rat>) -> bool {
    forall|i: int| 0 <= i < s.len() ==> s[i] == Rat::zero_val() || s[i] == Rat::one_val()
}

/// Builds the all-zero parameter vector of length `n`.
pub fn zeros_vec(n: usize) -> (r: Vec<Rat>)
    ensures
        r@ == zeros(n as nat),
{
    let mut v: Vec<Rat> = Vec::new();
    let mut i: usize = 0;
    while i < n
        invariant
            i <= n,
            v@.len() == i,
            forall|j: int| 0 <= j < i ==> v@[j] == Rat::zero_val(),
        decreases n - i,
    {
        v.push(Rat::zero());
        i = i + 1;
    }
    proof {
        assert(v@ =~= zeros(n as nat));
    }
    v
}

/// Builds the all-one parameter vector of length `n`.
pub fn ones_vec(n: usize) -> (r: Vec<Rat>)
    ensures
        r@ == ones(n as nat),
{
    let mut v: Vec<Rat> = Vec::new();
    let mut i: usize = 0;
    while i < n
        invariant
            i <= n,
            v@.len() == i,
            forall|j: int| 0 <= j < i ==> v@[j] == Rat::one_val(),
        decreases n - i,
    {
        v.push(Rat::one());
        i = i + 1;
    }
    proof {
        assert(v@ =~= ones(n as nat));
    }
    v
}

/// Copies the leading `k` axes of a parameter vector.
pub fn prefix(s: &Vec<Rat>, k: usize) -> (r: Vec<Rat>)
    requires
        k <= s@.len(),
    ensures
        r@ == s@.subrange(0, k as int),
{
    let mut v: Vec<Rat> = Vec::new();
    let mut i: usize = 0;
    while i < k
        invariant
            i <= k,
            k <= s@.len(),
            v@.len() == i,
            forall|j: int| 0 <= j < i ==> v@[j] == s@[j],
        decreases k - i,
    {
        v.push(s[i]);
        i = i + 1;
    }
    proof {
        assert(v@ =~= s@.subrange(0, k as int));
    }
    v
}

/// Copies the axes of a parameter vector from `k` on.
pub fn suffix(s: &Vec<Rat>, k: usize) -> (r: Vec<Rat>)
    requires
        k <= s@.len(),
    ensures
        r@ == s@.subrange(k as int, s@.len() as int),
{
    let mut v: Vec<Rat> = Vec::new();
    let mut i: usize = k;
    while i < s.len()
        invariant
            k <= i <= s@.len(),
            v@.len() == i - k,
            forall|j: int| k <= j < i ==> v@[j - k] == s@[j],
        decreases s@.len() - i,
    {
        v.push(s[i]);
        i = i + 1;
    }
    proof {
        assert(v@ =~= s@.subrange(k as int, s@.len() as int));
    }
    v
}

/// Re-inserts a pinned axis: the result drives axis `axis` with the fixed
/// scalar `v` and the remaining axes with `s`, in order.
pub fn with_axis(s: &Vec<Rat>, axis: usize, v: Rat) -> (r: Vec<Rat>)
    requires
        axis <= s@.len(),
    ensures
        r@ == s@.insert(axis as int, v),
{
    let mut out: Vec<Rat> = Vec::new();
    let mut i: usize = 0;
    while i < axis
        invariant
            i <= axis,
            axis <= s@.len(),
            out@.len() == i,
            forall|j: int| 0 <= j < i ==> out@[j] == s@[j],
        decreases axis - i,
    {
        out.push(s[i]);
        i = i + 1;
    }
    out.push(v);
    let mut i2: usize = axis;
    while i2 < s.len()
        invariant
            axis <= i2 <= s@.len(),
            out@.len() == i2 + 1,
            forall|j: int| 0 <= j < axis ==> out@[j] == s@[j],
            out@[axis as int] == v,
            forall|j: int| axis <= j < i2 ==> out@[j + 1] == s@[j],
        decreases s@.len() - i2,
    {
        out.push(s[i2]);
        i2 = i2 + 1;
    }
    proof {
        assert(out@ =~= s@.insert(axis as int, v));
    }
    out
}

/// Replicates one scalar over `n` axes: the diagonal parameter vector.
pub fn replicate(v: Rat, n: usize) -> (r: Vec<Rat>)
    ensures
        r@ == Seq::new(n as nat, |i: int| v),
{
    let mut out: Vec<Rat> = Vec::new();
    let mut i: usize = 0;
    while i < n
        invariant
            i <= n,
            out@.len() == i,
            forall|j: int| 0 <= j < i ==> out@[j] == v,
        decreases n - i,
    {
        out.push(v);
        i = i + 1;
    }
    proof {
        assert(out@ =~= Seq::new(n as nat, |i: int| v));
    }
    out
}

/// Builds the one-axis parameter vector holding `v`.
pub fn single(v: Rat) -> (r: Vec<Rat>)
    ensures
        r@ == seq![v],
{
    let mut out: Vec<Rat> = Vec::new();
    out.push(v);
    proof {
        assert(out@ =~= seq![v]);
    }
    out
}

/// A corner stays a corner when a canonical boundary scalar is pinned into it.
pub proof fn lemma_corner_insert(s: Seq<Rat>, axis: int, v: Rat)
    requires
        0 <= axis <= s.len(),
        is_corner(s),
        v == Rat::zero_val() || v == Rat::one_val(),
    ensures
        is_corner(s.insert(axis, v)),
        all_inv(s.insert(axis, v)),
{
    let t = s.insert(axis, v);
    assert forall|i: int| 0 <= i < t.len() implies t[i] == Rat::zero_val() || t[i]
        == Rat::one_val() by {
        if i < axis {
            assert(t[i] == s[i]);
        } else if i == axis {
            assert(t[i] == v);
        } else {
            assert(t[i] == s[i - 1]);
        }
    }
    lemma_corner_inv(t);
}

/// Inserting a well-formed scalar keeps every scalar well formed.
pub proof fn lemma_all_inv_insert(s: Seq<Rat>, axis: int, v: Rat)
    requires
        0 <= axis <= s.len(),
        all_inv(s),
        v.inv(),
    ensures
        all_inv(s.insert(axis, v)),
{
    let t = s.insert(axis, v);
    assert forall|i: int| 0 <= i < t.len() implies t[i].inv() by {
        if i < axis {
            assert(t[i] == s[i]);
        } else if i == axis {
            assert(t[i] == v);
        } else {
            assert(t[i] == s[i - 1]);
        }
    }
}

/// Corners are made of well-formed scalars.
pub proof fn lemma_corner_inv(s: Seq<Rat>)
    requires
        is_corner(s),
    ensures
        all_inv(s),
{
    assert forall|i: int| 0 <= i < s.len() implies s[i].inv() by {
        assert(s[i] == Rat::zero_val() || s[i] == Rat::one_val());
    }
}

/// The two canonical corners are corners.
pub proof fn lemma_zeros_ones_corner(n: nat)
    ensures
        is_corner(zeros(n)),
        is_corner(ones(n)),
        all_inv(zeros(n)),
        all_inv(ones(n)),
{
    lemma_corner_inv(zeros(n));
    lemma_corner_inv(ones(n));
}

} // verus!
