use homotopy::adapt::AsVec;
use homotopy::checks::{check, checku, checku2};
use homotopy::circle::{sweep, Circle};
use homotopy::cubes::Square;
use homotopy::homotopy::Homotopy;
use homotopy::rat::Rat;
use homotopy::sides::{diagonal, left, top};
use homotopy::space::{Space, Unit};
use homotopy::tuples::{Pair, V2};

fn q(num: i64, den: i64) -> Rat {
    Rat::new(num, den)
}

fn pt(x: i64, y: i64) -> V2<Rat> {
    V2(q(x, 1), q(y, 1))
}

#[test]
fn check_circle() {
    let a = Circle { center: pt(0, 0), radius: q(1, 1) };
    assert!(check(&a, Unit));
    assert!(a.h(Unit, &vec![q(0, 1)]).same(&pt(1, 0)));
    assert!(a.h(Unit, &vec![q(1, 2)]).same(&pt(-1, 0)));
    assert!(a.h(Unit, &vec![q(1, 4)]).same(&pt(0, 1)));
    assert!(a.h(Unit, &vec![q(3, 4)]).same(&pt(0, -1)));
    assert!(a.h(Unit, &vec![q(1, 1)]).same(&pt(1, 0)));

    let b = Circle { center: pt(0, 0), radius: q(2, 1) };
    let c = Square::new(a, b);
    let c = AsVec(c);
    let x = V2(Unit, Unit);
    assert!(checku2(&c));
    assert!(c.h(x, &vec![q(1, 2), q(1, 4)]).same(&V2(pt(-1, 0), pt(0, 2))));

    // A diagonal of a square of two circles is a sector sweep.
    let diag_c = diagonal(c);
    assert!(diag_c.h(x, &vec![q(0, 1)]).same(&V2(pt(1, 0), pt(2, 0))));
    assert!(diag_c.h(x, &vec![q(1, 4)]).same(&V2(pt(0, 1), pt(0, 2))));
    assert!(diag_c.h(x, &vec![q(1, 2)]).same(&V2(pt(-1, 0), pt(-2, 0))));
    assert!(diag_c.h(x, &vec![q(3, 4)]).same(&V2(pt(0, -1), pt(0, -2))));
    assert!(diag_c.h(x, &vec![q(1, 1)]).same(&V2(pt(1, 0), pt(2, 0))));
    assert!(checku(&diag_c));

    // The left side is like locking the inner circle.
    let left_c = left(c);
    assert!(left_c.h(x, &vec![q(1, 2)]).same(&V2(pt(1, 0), pt(-2, 0))));

    // The top side is like locking the outer circle.
    let top_c = top(c);
    assert!(top_c.h(x, &vec![q(1, 2)]).same(&V2(pt(-1, 0), pt(2, 0))));
}

#[test]
fn check_circle_chord_midpoint() {
    // Between two anchors the curve interpolates linearly: one eighth of a
    // turn lands halfway along the chord from east to north.
    let a = Circle { center: pt(0, 0), radius: q(2, 1) };
    assert!(a.h(Unit, &vec![q(1, 8)]).same(&V2(q(1, 1), q(1, 1))));
}

#[test]
fn check_sweep() {
    let a = Circle { center: pt(0, 0), radius: q(1, 1) };
    let b = Circle { center: pt(10, 0), radius: q(2, 1) };
    let s = sweep(a, b);
    assert!(checku2(&s));
    let x = Pair(Unit, Unit);
    let z = q(0, 1);
    let o = q(1, 1);
    // At the added axis' start the sweep follows the first circle.
    assert!(s.h(x, &vec![z, z]).same(&pt(1, 0)));
    assert!(s.h(x, &vec![q(1, 2), z]).same(&pt(-1, 0)));
    // At its end it follows the second circle.
    assert!(s.h(x, &vec![z, o]).same(&pt(12, 0)));
    assert!(s.h(x, &vec![q(1, 2), o]).same(&pt(8, 0)));
    // Halfway it is the midpoint of the two rotating points.
    assert!(s.h(x, &vec![z, q(1, 2)]).same(&V2(q(13, 2), q(0, 1))));
}
