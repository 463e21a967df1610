use homotopy::adapt::{AsVec, Inverse};
use homotopy::checks::{check, check2, check3, check4, checku, checku2, checku3, checku4};
use homotopy::compose::Compose;
use homotopy::cubes::{Cube, Cube4, Square};
use homotopy::homotopy::{hu, Homotopy};
use homotopy::maps::{DiracFrom, Remap, SMap};
use homotopy::prim::{CubicBezier, Dirac, Id, Lerp, QuadraticBezier, Translate};
use homotopy::rat::Rat;
use homotopy::sides::{diagonal, front_back, left_right, past_future, top_bottom};
use homotopy::space::{Space, Unit};
use homotopy::transform::{Const, Shift};
use homotopy::tuples::{V2, V4};

fn r(num: i64, den: i64) -> Rat {
    Rat::new(num, den)
}

fn w(num: i64) -> Rat {
    Rat::new(num, 1)
}

#[test]
fn check_id() {
    assert!(check(&Id, r(0, 1)));
    assert!(check(&Id, r(1, 1)));
    assert!(check(&Id, true));
    assert!(check(&Id, false));
}

#[test]
fn check_dirac() {
    assert!(checku::<Unit, _, _>(&Dirac));
}

#[test]
fn check_dirac_from() {
    let ft: DiracFrom<Unit, Rat, Const<Rat>, Const<Rat>> =
        DiracFrom::new(Const(w(1)), Const(w(0)));
    assert!(checku(&ft));
}

#[test]
fn check_lerp() {
    let lerp = Lerp(r(12, 10), r(13, 10));
    assert!(checku(&lerp));
}

#[test]
fn check_quadratic_bezier() {
    let qb = QuadraticBezier(r(3, 10), r(7, 10), r(9, 10));
    assert!(checku(&qb));
}

#[test]
fn check_cubic_bezier() {
    let cb = CubicBezier(r(3, 10), r(7, 10), r(8, 10), r(9, 10));
    assert!(checku(&cb));
}

#[test]
fn check_bezier_midpoints() {
    // Two-level interpolation at one half, computed exactly.
    let qb = QuadraticBezier(r(3, 10), r(7, 10), r(9, 10));
    assert!(qb.h(Unit, &vec![r(1, 2)]).same(&r(13, 20)));
    let cb = CubicBezier(r(3, 10), r(7, 10), r(8, 10), r(9, 10));
    assert!(cb.h(Unit, &vec![r(1, 2)]).same(&r(27, 40)));
}

#[test]
fn check_reduced_quadratic_bezier_equals_lerp() {
    let qb = QuadraticBezier::from_linear(w(0), w(1));
    let l = Lerp(w(0), w(1));
    for k in 0..=10 {
        let s = r(k, 10);
        assert!(qb.h(Unit, &vec![s]).same(&l.h(Unit, &vec![s])));
    }
}

#[test]
fn check_reduced_cubic_bezier_equals_quadratic_bezier() {
    let cb = CubicBezier::from_quadratic(r(0, 10), r(3, 10), r(9, 10));
    let qb = QuadraticBezier(r(0, 10), r(3, 10), r(9, 10));
    for k in 0..=10 {
        let s = r(k, 10);
        assert!(cb.h(Unit, &vec![s]).same(&qb.h(Unit, &vec![s])));
    }
}

#[test]
fn check_composition() {
    // A linear interpolation.
    let a = Lerp(w(3), w(10));
    assert!(a.h(Unit, &vec![r(0, 1)]).same(&w(3)));
    assert!(a.h(Unit, &vec![r(1, 2)]).same(&r(13, 2)));
    assert!(a.h(Unit, &vec![r(1, 1)]).same(&w(10)));
    // Composed with a two-branch step that separates the start of the line
    // from the rest of the line.
    let b: DiracFrom<Rat, Rat, Shift<Rat>, Shift<Rat>> =
        DiracFrom::new(Shift(w(-2)), Shift(w(2)));
    let c = Compose::new(a, b);
    assert!(checku2(&c));

    let z = r(0, 1);
    let o = r(1, 1);
    let tiny = r(1, 10_000_000_000_000_000);
    assert!(c.h(Unit, &vec![z, z]).same(&w(1)));
    // Exactly one plus seven times the tiny step: the interpolation is exact.
    assert!(c
        .h(Unit, &vec![tiny, z])
        .same(&r(10_000_000_000_000_007, 10_000_000_000_000_000)));
    assert!(c.h(Unit, &vec![r(1, 2), z]).same(&r(9, 2)));
    assert!(c.h(Unit, &vec![o, z]).same(&w(8)));

    assert!(c.h(Unit, &vec![z, o]).same(&w(5)));
    assert!(c
        .h(Unit, &vec![tiny, o])
        .same(&r(50_000_000_000_000_007, 10_000_000_000_000_000)));
    assert!(c.h(Unit, &vec![r(1, 2), o]).same(&r(17, 2)));
    assert!(c.h(Unit, &vec![o, o]).same(&w(12)));

    let d = diagonal(c);
    assert!(d.h(Unit, &vec![z]).same(&w(1)));
    assert!(d
        .h(Unit, &vec![tiny])
        .same(&r(50_000_000_000_000_007, 10_000_000_000_000_000)));
    assert!(d.h(Unit, &vec![r(1, 2)]).same(&r(17, 2)));
    assert!(d.h(Unit, &vec![o]).same(&w(12)));
}

#[test]
fn check_square() {
    let a = Lerp(w(1), w(5));
    let b = Lerp(w(11), w(15));
    let c = Square::new(a, b);
    assert!(checku2(&c));
    assert!(checku(&diagonal(c)));
    assert!(checku2(&AsVec(c)));
    assert!(checku(&left_right(c, r(1, 2))));
    assert!(checku(&top_bottom(c, r(1, 2))));
}

#[test]
fn check_square_diagonal_drives_both() {
    let c = Square::new(Lerp(w(1), w(5)), Lerp(w(11), w(15)));
    let d = diagonal(c);
    let got = d.h(homotopy::tuples::Pair(Unit, Unit), &vec![r(1, 2)]);
    assert!(got.0.same(&w(3)));
    assert!(got.1.same(&w(13)));
}

#[test]
fn check_cube() {
    let a = Lerp(w(1), w(2));
    let b = Lerp(w(3), w(4));
    let c = Lerp(w(5), w(6));
    let c = Cube::new(a, b, c);
    assert!(checku3(&c));
    assert!(checku(&diagonal(c)));
    assert!(checku3(&AsVec(c)));
    assert!(checku2(&left_right(c, r(1, 2))));
    assert!(checku2(&top_bottom(c, r(1, 2))));
    assert!(checku2(&front_back(c, r(1, 2))));
}

#[test]
fn check_cube4() {
    let a = Lerp(w(1), w(2));
    let b = Lerp(w(3), w(4));
    let c = Lerp(w(5), w(6));
    let d = Lerp(w(7), w(8));
    let c = Cube4::new(a, b, c, d);
    assert!(checku4(&c));
    assert!(checku(&diagonal(c)));
    assert!(checku4(&AsVec(c)));
    assert!(checku3(&left_right(c, r(1, 2))));
    assert!(checku3(&top_bottom(c, r(1, 2))));
    assert!(checku3(&front_back(c, r(1, 2))));
    assert!(checku3(&past_future(c, r(1, 2))));
}

#[test]
fn check_invert() {
    let a = Lerp(w(2), w(4));
    let b = Inverse(a);
    assert!(checku(&b));
}

#[test]
fn check_invert_twice_restores() {
    let a = Lerp(w(2), w(4));
    let b = Inverse(Inverse(a));
    for k in 0..=10 {
        let s = r(k, 10);
        assert!(b.h(Unit, &vec![s]).same(&a.h(Unit, &vec![s])));
    }
    assert!(b.f(Unit).same(&a.f(Unit)));
    assert!(b.g(Unit).same(&a.g(Unit)));
}

#[test]
fn check_translate() {
    let a = Lerp(w(1), w(2));
    let b = Translate(w(3));
    let c = Compose::new(a, b);
    let z = r(0, 1);
    let o = r(1, 1);
    assert!(checku2(&c));
    assert!(c.h(Unit, &vec![z, z]).same(&w(1)));
    assert!(c.h(Unit, &vec![o, z]).same(&w(2)));
    assert!(c.h(Unit, &vec![z, o]).same(&w(4)));
    assert!(c.h(Unit, &vec![o, o]).same(&w(5)));

    let a = Square::new(Lerp(w(1), w(2)), Lerp(w(3), w(4)));
    let b = Translate(V2(w(10), w(20)));
    let c = Compose::new(AsVec(a), b);
    assert!(c
        .h(V2(Unit, Unit), &vec![z, z, z])
        .same(&V2(w(1), w(3))));
    assert!(c
        .h(V2(Unit, Unit), &vec![z, z, o])
        .same(&V2(w(11), w(23))));
    assert!(c
        .h(V2(Unit, Unit), &vec![o, z, z])
        .same(&V2(w(2), w(3))));
    assert!(c
        .h(V2(Unit, Unit), &vec![o, z, o])
        .same(&V2(w(12), w(23))));
    assert!(checku3(&c));

    let a = Cube::new(Lerp(w(0), w(1)), Lerp(w(0), w(1)), Lerp(w(0), w(1)));
    let b = Translate(homotopy::tuples::V3(w(10), w(20), w(30)));
    let c = Compose::new(AsVec(a), b);
    let x3 = homotopy::tuples::V3(Unit, Unit, Unit);
    assert!(c
        .h(x3, &vec![z, z, z, z])
        .same(&homotopy::tuples::V3(w(0), w(0), w(0))));
    assert!(c
        .h(x3, &vec![o, o, o, o])
        .same(&homotopy::tuples::V3(w(11), w(21), w(31))));
    assert!(checku4(&c));

    let a = Cube4::new(Id, Id, Id, Id);
    let b = Translate(V4(w(1), w(2), w(3), w(4)));
    let c = Compose::new(AsVec(a), b);
    let x4 = V4(w(0), w(0), w(0), w(0));
    assert!(c
        .h(x4, &vec![z, z, z, z, z])
        .same(&V4(w(0), w(0), w(0), w(0))));
    assert!(c
        .h(x4, &vec![o, o, o, o, o])
        .same(&V4(w(1), w(2), w(3), w(4))));

    let a = Lerp(w(1), w(2));
    let b = Translate(w(10));
    let c = Compose::new(a, b);
    let d = Compose::new(c, b);
    assert!(d.h(Unit, &vec![z, z, z]).same(&w(1)));
    assert!(d.h(Unit, &vec![z, z, o]).same(&w(11)));
    assert!(d.h(Unit, &vec![z, o, z]).same(&w(11)));
    assert!(d.h(Unit, &vec![z, o, o]).same(&w(21)));
    assert!(d.h(Unit, &vec![o, o, o]).same(&w(22)));
    assert!(checku3(&d));
}

#[test]
fn check_remap_shifts_output() {
    let a = Lerp(w(1), w(5));
    let m = Remap::new(a, Shift(w(100)));
    assert!(checku(&m));
    assert!(hu::<Unit, _, _>(&m, &vec![r(0, 1)]).same(&w(101)));
    assert!(m.h(Unit, &vec![r(1, 2)]).same(&w(103)));
    assert!(m.h(Unit, &vec![r(1, 1)]).same(&w(105)));
}

#[test]
fn check_explicit_inputs_through_dimensions() {
    let x = homotopy::tuples::Pair(Unit, Unit);
    assert!(check2(&Square::new(Lerp(w(1), w(5)), Lerp(w(11), w(15))), x));
    let x3 = homotopy::tuples::Triple(Unit, Unit, Unit);
    assert!(check3(&Cube::new(Lerp(w(1), w(2)), Lerp(w(3), w(4)), Lerp(w(5), w(6))), x3));
    let x4 = homotopy::tuples::Quad(Unit, Unit, Unit, Unit);
    assert!(check4(
        &Cube4::new(Lerp(w(1), w(2)), Lerp(w(3), w(4)), Lerp(w(5), w(6)), Lerp(w(7), w(8))),
        x4
    ));
}

#[test]
fn check_rat_guards() {
    // A denominator below one collapses to canonical zero.
    assert!(Rat::new(5, 0).same(&Rat::new(0, 1)));
    assert!(Rat::new(5, -3).same(&Rat::new(0, 1)));
    // Sameness is value equality, not representation equality.
    assert!(Rat::new(13, 2).same(&Rat::new(65, 10)));
    assert!(!Rat::new(13, 2).same(&Rat::new(66, 10)));
}

#[test]
fn check_dirac_checks_pass_everywhere() {
    // The step homotopy jumps at zero; its boundary contract still holds.
    assert!(check(&Dirac, r(0, 1)));
    assert!(check(&Dirac, r(7, 9)));
}

#[test]
fn check_faces_of_square_values() {
    let c = Square::new(Lerp(w(1), w(5)), Lerp(w(11), w(15)));
    let x = homotopy::tuples::Pair(Unit, Unit);
    // The left face pins the first axis at its start, so the first factor
    // stays at its start value while the second runs.
    let l = homotopy::sides::left(c);
    let got = l.h(x, &vec![r(1, 2)]);
    assert!(got.0.same(&w(1)));
    assert!(got.1.same(&w(13)));
    // The bottom face pins the second axis at its end.
    let bface = homotopy::sides::bottom(c);
    let got = bface.h(x, &vec![r(1, 2)]);
    assert!(got.0.same(&w(3)));
    assert!(got.1.same(&w(15)));
}

#[test]
fn check_smap_lifts_dimension() {
    // Lifting a one-dimensional homotopy through a blend adds one axis.
    let a = homotopy::circle::Circle {
        center: V2(w(0), w(0)),
        radius: w(1),
    };
    let b = homotopy::circle::Circle {
        center: V2(w(0), w(0)),
        radius: w(2),
    };
    let sq = Square::new(a, b);
    let lifted: SMap<_, _, _> = SMap::new(diagonal(sq), homotopy::transform::SweepBlend);
    assert_eq!(lifted.dims(), 2);
    assert!(checku2(&lifted));
}
