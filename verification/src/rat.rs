//! Exact rational numbers.
//!
//! Every interpolation parameter and every numeric value in this crate is a
//! `Rat`: a fraction `num / den` of two machine integers with a positive
//! denominator. Fractions are not kept in lowest terms; two fractions denote
//! the same number exactly when they cross-multiply equally (`Rat::eqv`).
//!
//! The arithmetic operations are total: when an intermediate product or sum
//! would leave the `i64` range the operation returns `Rat::zero_val()` instead
//! of a partial result. Each operation has an `*_fits` predicate saying when
//! it stays in range; within that range the result is the exact rational one.

use vstd::prelude::*;

verus! {

/// An exact rational number `num / den`.
#[derive(Clone, Copy, Debug)]
pub struct Rat {
    /// The numerator.
    pub num: i64,
    /// The denominator; positive for a valid rational.
    pub den: i64,
}

impl Rat {
    /// A rational is valid when its denominator is positive.
    pub open spec fn inv(self) -> bool {
        self.den >= 1
    }

    /// Two fractions denote the same rational number exactly when they
    /// cross-multiply equally.
    pub open spec fn eqv(self, o: Rat) -> bool {
        self.num * o.den == o.num * self.den
    }

    /// The canonical representation of zero.
    pub open spec fn zero_val() -> Rat {
        Rat { num: 0, den: 1 }
    }

    /// The canonical representation of one.
    pub open spec fn one_val() -> Rat {
        Rat { num: 1, den: 1 }
    }

    /// Zero, as executable code.
    pub fn zero() -> (r: Rat)
        ensures
            r == Rat::zero_val(),
    {
        Rat { num: 0, den: 1 }
    }

    /// One, as executable code.
    pub fn one() -> (r: Rat)
        ensures
            r == Rat::one_val(),
    {
        Rat { num: 1, den: 1 }
    }

    /// What `Rat::new` returns: the fraction itself for a positive
    /// denominator, and the canonical zero otherwise.
    pub open spec fn new_val(num: i64, den: i64) -> Rat {
        if den >= 1 {
            Rat { num, den }
        } else {
            Rat::zero_val()
        }
    }

    /// Builds `num / den`. A denominator below one yields zero, so the result
    /// is always valid.
    pub fn new(num: i64, den: i64) -> (r: Rat)
        ensures
            r == Rat::new_val(num, den),
            r.inv(),
    {
        if den >= 1 {
            Rat { num, den }
        } else {
            Rat { num: 0, den: 1 }
        }
    }

    /// Whether this fraction is the number zero.
    pub open spec fn is_zero_val(self) -> bool {
        self.num == 0
    }

    /// Tests whether this fraction is the number zero.
    pub fn is_zero(&self) -> (r: bool)
        ensures
            r == self.is_zero_val(),
    {
        self.num == 0
    }

    /// Whether two fractions denote the same rational number.
    pub fn same(&self, o: &Rat) -> (r: bool)
        ensures
            r == self.eqv(*o),
    {
        let a = self.num.checked_mul(o.den);
        let b = o.num.checked_mul(self.den);
        match (a, b) {
            (Some(x), Some(y)) => x == y,
            (Some(_), None) => false,
            (None, Some(_)) => false,
            (None, None) => self.same_wide(o),
        }
    }

    /// Compares by cross-multiplication in wider arithmetic; used when both
    /// cross products leave the `i64` range.
    fn same_wide(&self, o: &Rat) -> (r: bool)
        ensures
            r == self.eqv(*o),
    {
        proof {
            lemma_cross_in_i128(*self, *o);
        }
        let x: i128 = (self.num as i128) * (o.den as i128);
        let y: i128 = (o.num as i128) * (self.den as i128);
        x == y
    }

    /// Whether adding `o` stays within machine range. Fractions over one
    /// shared denominator are summed on it; others cross-multiply.
    pub open spec fn add_fits(self, o: Rat) -> bool {
        if self.den == o.den {
            i64::MIN <= self.num + o.num <= i64::MAX
        } else {
            &&& i64::MIN <= self.num * o.den <= i64::MAX
            &&& i64::MIN <= o.num * self.den <= i64::MAX
            &&& i64::MIN <= self.num * o.den + o.num * self.den <= i64::MAX
            &&& i64::MIN <= self.den * o.den <= i64::MAX
        }
    }

    /// What `add` returns: the exact sum when it fits, zero otherwise. A sum
    /// over one shared denominator keeps that denominator.
    pub open spec fn add_val(self, o: Rat) -> Rat {
        if !self.add_fits(o) {
            Rat::zero_val()
        } else if self.den == o.den {
            Rat { num: (self.num + o.num) as i64, den: self.den }
        } else {
            Rat {
                num: (self.num * o.den + o.num * self.den) as i64,
                den: (self.den * o.den) as i64,
            }
        }
    }

    /// Adds two rationals.
    pub fn add(self, o: Rat) -> (r: Rat)
        ensures
            r == self.add_val(o),
    {
        if self.den == o.den {
            match self.num.checked_add(o.num) {
                Some(n) => Rat { num: n, den: self.den },
                None => Rat { num: 0, den: 1 },
            }
        } else {
            let n1 = self.num.checked_mul(o.den);
            let n2 = o.num.checked_mul(self.den);
            let d = self.den.checked_mul(o.den);
            match (n1, n2, d) {
                (Some(a), Some(b), Some(dd)) => match a.checked_add(b) {
                    Some(n) => Rat { num: n, den: dd },
                    None => Rat { num: 0, den: 1 },
                },
                _ => Rat { num: 0, den: 1 },
            }
        }
    }

    /// Whether multiplying by `o` stays within machine range.
    pub open spec fn mul_fits(self, o: Rat) -> bool {
        &&& i64::MIN <= self.num * o.num <= i64::MAX
        &&& i64::MIN <= self.den * o.den <= i64::MAX
    }

    /// What `mul` returns: the exact product when it fits, zero otherwise.
    pub open spec fn mul_val(self, o: Rat) -> Rat {
        if self.mul_fits(o) {
            Rat { num: (self.num * o.num) as i64, den: (self.den * o.den) as i64 }
        } else {
            Rat::zero_val()
        }
    }

    /// Multiplies two rationals.
    pub fn mul(self, o: Rat) -> (r: Rat)
        ensures
            r == self.mul_val(o),
    {
        let n = self.num.checked_mul(o.num);
        let d = self.den.checked_mul(o.den);
        match (n, d) {
            (Some(nn), Some(dd)) => Rat { num: nn, den: dd },
            _ => Rat { num: 0, den: 1 },
        }
    }

    /// What `neg` returns: the exact negation when it fits, zero otherwise.
    pub open spec fn neg_val(self) -> Rat {
        if self.num == i64::MIN {
            Rat::zero_val()
        } else {
            Rat { num: (-self.num) as i64, den: self.den }
        }
    }

    /// Negates a rational.
    pub fn neg(self) -> (r: Rat)
        ensures
            r == self.neg_val(),
    {
        if self.num == i64::MIN {
            Rat { num: 0, den: 1 }
        } else {
            Rat { num: -self.num, den: self.den }
        }
    }

    /// What `sub` returns.
    pub open spec fn sub_val(self, o: Rat) -> Rat {
        self.add_val(o.neg_val())
    }

    /// Subtracts `o`.
    pub fn sub(self, o: Rat) -> (r: Rat)
        ensures
            r == self.sub_val(o),
    {
        self.add(o.neg())
    }

    /// What `one_minus` returns: `1 - self` over a shared denominator when it
    /// fits, zero otherwise.
    pub open spec fn one_minus_val(self) -> Rat {
        if i64::MIN <= self.den - self.num <= i64::MAX {
            Rat { num: (self.den - self.num) as i64, den: self.den }
        } else {
            Rat::zero_val()
        }
    }

    /// Computes `1 - self` on the shared denominator, so that parameters at
    /// the boundary reverse exactly: `1 - 0/d == d/d` and `1 - d/d == 0/d`.
    pub fn one_minus(self) -> (r: Rat)
        ensures
            r == self.one_minus_val(),
    {
        match self.den.checked_sub(self.num) {
            Some(n) => Rat { num: n, den: self.den },
            None => Rat { num: 0, den: 1 },
        }
    }

    /// Whether this fraction denotes a smaller number than `o`; meaningful
    /// for valid rationals, whose denominators are positive.
    pub open spec fn lt_val(self, o: Rat) -> bool {
        self.num * o.den < o.num * self.den
    }

    /// Tests whether this fraction denotes a smaller number than `o`.
    pub fn lt(&self, o: &Rat) -> (r: bool)
        ensures
            r == self.lt_val(*o),
    {
        proof {
            lemma_cross_in_i128(*self, *o);
        }
        let x: i128 = (self.num as i128) * (o.den as i128);
        let y: i128 = (o.num as i128) * (self.den as i128);
        x < y
    }

    /// Whether the fraction lies in the closed unit interval.
    pub open spec fn in_unit(self) -> bool {
        self.inv() && 0 <= self.num <= self.den
    }
}

/// Cross products of two `i64` fractions fit in `i128`.
proof fn lemma_cross_in_i128(a: Rat, b: Rat)
    ensures
        i128::MIN <= a.num * b.den <= i128::MAX,
        i128::MIN <= b.num * a.den <= i128::MAX,
{
    lemma_mul_i64_bounds(a.num, b.den);
    lemma_mul_i64_bounds(b.num, a.den);
}

/// The product of two `i64` values is bounded by the square of the range.
proof fn lemma_mul_i64_bounds(x: i64, y: i64)
    ensures
        -0x4000_0000_0000_0000_0000_0000_0000_0000 <= x * y,
        x * y <= 0x4000_0000_0000_0000_0000_0000_0000_0000,
{
    assert(-0x4000_0000_0000_0000_0000_0000_0000_0000 <= x * y
        <= 0x4000_0000_0000_0000_0000_0000_0000_0000) by (nonlinear_arith)
        requires
            -0x8000_0000_0000_0000 <= x <= 0x7fff_ffff_ffff_ffff,
            -0x8000_0000_0000_0000 <= y <= 0x7fff_ffff_ffff_ffff,
    ;
}

/// Multiplying same rationals by the same rational gives same rationals.
pub proof fn rat_mul_congr(a1: Rat, a2: Rat, b: Rat)
    requires
        a1.inv(),
        a2.inv(),
        b.inv(),
        a1.eqv(a2),
        a1.mul_fits(b),
        a2.mul_fits(b),
    ensures
        a1.mul_val(b).eqv(a2.mul_val(b)),
{
    let r1 = a1.mul_val(b);
    let r2 = a2.mul_val(b);
    assert(r1.num * r2.den == r2.num * r1.den) by (nonlinear_arith)
        requires
            a1.num * a2.den == a2.num * a1.den,
            r1.num == a1.num * b.num,
            r1.den == a1.den * b.den,
            r2.num == a2.num * b.num,
            r2.den == a2.den * b.den,
    ;
}

/// Distributes a sum over a product.
proof fn lemma_mul_spread(x: int, y: int, z: int)
    ensures
        (x + y) * z == x * z + y * z,
{
    assert((x + y) * z == x * z + y * z) by (nonlinear_arith);
}

/// Adding same rationals to same rationals gives same rationals.
pub proof fn rat_add_congr2(a1: Rat, a2: Rat, b1: Rat, b2: Rat)
    requires
        a1.inv(),
        a2.inv(),
        b1.inv(),
        b2.inv(),
        a1.eqv(a2),
        b1.eqv(b2),
        a1.add_fits(b1),
        a2.add_fits(b2),
    ensures
        a1.add_val(b1).eqv(a2.add_val(b2)),
{
    let r1 = a1.add_val(b1);
    let r2 = a2.add_val(b2);
    if a1.den == b1.den && a2.den == b2.den {
        assert(r1.num == a1.num + b1.num && r1.den == a1.den);
        assert(r2.num == a2.num + b2.num && r2.den == a2.den);
        lemma_mul_spread(a1.num as int, b1.num as int, a2.den as int);
        lemma_mul_spread(a2.num as int, b2.num as int, a1.den as int);
        assert(b1.num * a2.den == b2.num * a1.den);
        assert(r1.num * r2.den == r2.num * r1.den);
    } else if a1.den == b1.den {
        assert(r1.num == a1.num + b1.num && r1.den == a1.den);
        assert(r2.num == a2.num * b2.den + b2.num * a2.den && r2.den == a2.den * b2.den);
        lemma_mul_spread(a1.num as int, b1.num as int, a2.den as int * b2.den as int);
        lemma_mul_spread(a2.num as int * b2.den as int, b2.num as int * a2.den as int,
            a1.den as int);
        assert(a1.num * (a2.den * b2.den) == (a2.num * b2.den) * a1.den) by (nonlinear_arith)
            requires
                a1.num * a2.den == a2.num * a1.den,
        ;
        assert(b1.num * (a2.den * b2.den) == (b2.num * a2.den) * a1.den) by (nonlinear_arith)
            requires
                b1.num * b2.den == b2.num * b1.den,
                b1.den == a1.den,
        ;
        assert(r1.num * r2.den == r2.num * r1.den);
    } else if a2.den == b2.den {
        assert(r2.num == a2.num + b2.num && r2.den == a2.den);
        assert(r1.num == a1.num * b1.den + b1.num * a1.den && r1.den == a1.den * b1.den);
        lemma_mul_spread(a2.num as int, b2.num as int, a1.den as int * b1.den as int);
        lemma_mul_spread(a1.num as int * b1.den as int, b1.num as int * a1.den as int,
            a2.den as int);
        assert(a2.num * (a1.den * b1.den) == (a1.num * b1.den) * a2.den) by (nonlinear_arith)
            requires
                a1.num * a2.den == a2.num * a1.den,
        ;
        assert(b2.num * (a1.den * b1.den) == (b1.num * a1.den) * a2.den) by (nonlinear_arith)
            requires
                b1.num * b2.den == b2.num * b1.den,
                b2.den == a2.den,
        ;
        assert(r1.num * r2.den == r2.num * r1.den);
    } else {
        let x1: int = a1.num * b1.den;
        let y1: int = b1.num * a1.den;
        let x2: int = a2.num * b2.den;
        let y2: int = b2.num * a2.den;
        let za: int = a2.den * b2.den;
        let zb: int = a1.den * b1.den;
        assert(r1.num == x1 + y1 && r1.den == zb);
        assert(r2.num == x2 + y2 && r2.den == za);
        lemma_mul_spread(x1, y1, za);
        lemma_mul_spread(x2, y2, zb);
        assert(x1 * za == (a1.num * a2.den) * (b1.den * b2.den)) by (nonlinear_arith)
            requires
                x1 == a1.num * b1.den,
                za == a2.den * b2.den,
        ;
        assert(y1 * za == (b1.num * b2.den) * (a1.den * a2.den)) by (nonlinear_arith)
            requires
                y1 == b1.num * a1.den,
                za == a2.den * b2.den,
        ;
        assert(x2 * zb == (a2.num * a1.den) * (b1.den * b2.den)) by (nonlinear_arith)
            requires
                x2 == a2.num * b2.den,
                zb == a1.den * b1.den,
        ;
        assert(y2 * zb == (b2.num * b1.den) * (a1.den * a2.den)) by (nonlinear_arith)
            requires
                y2 == b2.num * a2.den,
                zb == a1.den * b1.den,
        ;
        assert(r1.num * r2.den == x1 * za + y1 * za);
        assert(r2.num * r1.den == x2 * zb + y2 * zb);
        assert(r1.num * r2.den == r2.num * r1.den);
    }
}

/// Negating same rationals gives same rationals.
pub proof fn rat_neg_congr(a1: Rat, a2: Rat)
    requires
        a1.inv(),
        a2.inv(),
        a1.num > i64::MIN,
        a2.num > i64::MIN,
        a1.eqv(a2),
    ensures
        a1.neg_val().eqv(a2.neg_val()),
{
    let r1 = a1.neg_val();
    let r2 = a2.neg_val();
    assert(r1.num * r2.den == r2.num * r1.den) by (nonlinear_arith)
        requires
            a1.num * a2.den == a2.num * a1.den,
            r1.num == -a1.num,
            r1.den == a1.den,
            r2.num == -a2.num,
            r2.den == a2.den,
    ;
}

/// Equivalence is transitive on valid rationals.
pub proof fn rat_eqv_trans(a: Rat, b: Rat, c: Rat)
    requires
        a.inv(),
        b.inv(),
        c.inv(),
        a.eqv(b),
        b.eqv(c),
    ensures
        a.eqv(c),
{
    assert(a.num * c.den == c.num * a.den) by (nonlinear_arith)
        requires
            a.den >= 1,
            b.den >= 1,
            c.den >= 1,
            a.num * b.den == b.num * a.den,
            b.num * c.den == c.num * b.den,
    ;
}

} // verus!
