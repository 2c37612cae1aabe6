//! The Hamilton product over the integers.
//!
//! The matrix layout says which component of the left operand meets which
//! component of the right one, and with which sign. Here that layout is read
//! over exact integers, where products and sums do not round, and the
//! algebraic laws of the product are proved of it. Rounded arithmetic keeps
//! them only approximately.

use vstd::prelude::*;
use crate::layout::{flipped, source};

verus! {

/// The entry at (`row`, `col`) of the left-multiplication matrix of `a`.
pub open spec fn entry(a: Seq<int>, row: int, col: int) -> int {
    if flipped(row, col) {
        -a[source(row, col)]
    } else {
        a[source(row, col)]
    }
}

/// Row `row` of the matrix of `a`, applied to `b`.
pub open spec fn row_product(a: Seq<int>, b: Seq<int>, row: int) -> int {
    entry(a, row, 0) * b[0] + entry(a, row, 1) * b[1] + entry(a, row, 2) * b[2] + entry(a, row, 3)
        * b[3]
}

/// The product `a * b`: the matrix of `a` applied to `b`.
pub open spec fn product(a: Seq<int>, b: Seq<int>) -> Seq<int> {
    seq![row_product(a, b, 0), row_product(a, b, 1), row_product(a, b, 2), row_product(a, b, 3)]
}

/// The conjugate `[w, -x, -y, -z]`.
pub open spec fn conjugate(q: Seq<int>) -> Seq<int> {
    seq![q[0], -q[1], -q[2], -q[3]]
}

/// The squared norm `w² + x² + y² + z²`.
pub open spec fn sum_of_squares(q: Seq<int>) -> int {
    q[0] * q[0] + q[1] * q[1] + q[2] * q[2] + q[3] * q[3]
}

/// The matrix form is the Hamilton product: with `i² = j² = k² = ijk = -1`,
/// multiplying out `(a0 + a1 i + a2 j + a3 k)(b0 + b1 i + b2 j + b3 k)` gives
/// these four components.
pub proof fn lemma_product_is_hamilton(a: Seq<int>, b: Seq<int>)
    requires
        a.len() == 4,
        b.len() == 4,
    ensures
        product(a, b) == seq![
            a[0] * b[0] - a[1] * b[1] - a[2] * b[2] - a[3] * b[3],
            a[0] * b[1] + a[1] * b[0] + a[2] * b[3] - a[3] * b[2],
            a[0] * b[2] - a[1] * b[3] + a[2] * b[0] + a[3] * b[1],
            a[0] * b[3] + a[1] * b[2] - a[2] * b[1] + a[3] * b[0],
        ],
{
    let (a0, a1, a2, a3) = (a[0], a[1], a[2], a[3]);
    let (b0, b1, b2, b3) = (b[0], b[1], b[2], b[3]);
    assert((-a1) * b1 == -(a1 * b1) && (-a2) * b2 == -(a2 * b2) && (-a3) * b3 == -(a3 * b3)
        && (-a3) * b2 == -(a3 * b2) && (-a1) * b3 == -(a1 * b3) && (-a2) * b1 == -(a2 * b1))
        by (nonlinear_arith);
}

/// Associativity, written out on the twelve components.
proof fn lemma_associative_components(
    a0: int,
    a1: int,
    a2: int,
    a3: int,
    b0: int,
    b1: int,
    b2: int,
    b3: int,
    c0: int,
    c1: int,
    c2: int,
    c3: int,
)
    ensures
        (a0 * b0 - a1 * b1 - a2 * b2 - a3 * b3) * c0
            - (a0 * b1 + a1 * b0 + a2 * b3 - a3 * b2) * c1
            - (a0 * b2 - a1 * b3 + a2 * b0 + a3 * b1) * c2
            - (a0 * b3 + a1 * b2 - a2 * b1 + a3 * b0) * c3
            == a0 * (b0 * c0 - b1 * c1 - b2 * c2 - b3 * c3)
                - a1 * (b0 * c1 + b1 * c0 + b2 * c3 - b3 * c2)
                - a2 * (b0 * c2 - b1 * c3 + b2 * c0 + b3 * c1)
                - a3 * (b0 * c3 + b1 * c2 - b2 * c1 + b3 * c0),
        (a0 * b0 - a1 * b1 - a2 * b2 - a3 * b3) * c1
            + (a0 * b1 + a1 * b0 + a2 * b3 - a3 * b2) * c0
            + (a0 * b2 - a1 * b3 + a2 * b0 + a3 * b1) * c3
            - (a0 * b3 + a1 * b2 - a2 * b1 + a3 * b0) * c2
            == a0 * (b0 * c1 + b1 * c0 + b2 * c3 - b3 * c2)
                + a1 * (b0 * c0 - b1 * c1 - b2 * c2 - b3 * c3)
                + a2 * (b0 * c3 + b1 * c2 - b2 * c1 + b3 * c0)
                - a3 * (b0 * c2 - b1 * c3 + b2 * c0 + b3 * c1),
        (a0 * b0 - a1 * b1 - a2 * b2 - a3 * b3) * c2
            - (a0 * b1 + a1 * b0 + a2 * b3 - a3 * b2) * c3
            + (a0 * b2 - a1 * b3 + a2 * b0 + a3 * b1) * c0
            + (a0 * b3 + a1 * b2 - a2 * b1 + a3 * b0) * c1
            == a0 * (b0 * c2 - b1 * c3 + b2 * c0 + b3 * c1)
                - a1 * (b0 * c3 + b1 * c2 - b2 * c1 + b3 * c0)
                + a2 * (b0 * c0 - b1 * c1 - b2 * c2 - b3 * c3)
                + a3 * (b0 * c1 + b1 * c0 + b2 * c3 - b3 * c2),
        (a0 * b0 - a1 * b1 - a2 * b2 - a3 * b3) * c3
            + (a0 * b1 + a1 * b0 + a2 * b3 - a3 * b2) * c2
            - (a0 * b2 - a1 * b3 + a2 * b0 + a3 * b1) * c1
            + (a0 * b3 + a1 * b2 - a2 * b1 + a3 * b0) * c0
            == a0 * (b0 * c3 + b1 * c2 - b2 * c1 + b3 * c0)
                + a1 * (b0 * c2 - b1 * c3 + b2 * c0 + b3 * c1)
                - a2 * (b0 * c1 + b1 * c0 + b2 * c3 - b3 * c2)
                + a3 * (b0 * c0 - b1 * c1 - b2 * c2 - b3 * c3),
{
    broadcast use vstd::arithmetic::mul::group_mul_is_distributive;
    broadcast use vstd::arithmetic::mul::lemma_mul_is_associative;

}

/// The product is associative: `(a * b) * c == a * (b * c)`.
pub proof fn lemma_product_associative(a: Seq<int>, b: Seq<int>, c: Seq<int>)
    requires
        a.len() == 4,
        b.len() == 4,
        c.len() == 4,
    ensures
        product(product(a, b), c) == product(a, product(b, c)),
{
    lemma_product_is_hamilton(a, b);
    lemma_product_is_hamilton(b, c);
    lemma_product_is_hamilton(product(a, b), c);
    lemma_product_is_hamilton(a, product(b, c));
    lemma_associative_components(
        a[0],
        a[1],
        a[2],
        a[3],
        b[0],
        b[1],
        b[2],
        b[3],
        c[0],
        c[1],
        c[2],
        c[3],
    );
}

/// The product does not commute: `i * j` is `k`, and `j * i` is `-k`.
pub proof fn lemma_product_not_commutative()
    ensures
        product(seq![0, 1, 0, 0], seq![0, 0, 1, 0]) == seq![0int, 0, 0, 1],
        product(seq![0, 0, 1, 0], seq![0, 1, 0, 0]) == seq![0int, 0, 0, -1],
        exists|a: Seq<int>, b: Seq<int>|
            a.len() == 4 && b.len() == 4 && #[trigger] product(a, b) != product(b, a),
{
    let i: Seq<int> = seq![0, 1, 0, 0];
    let j: Seq<int> = seq![0, 0, 1, 0];
    lemma_product_is_hamilton(i, j);
    lemma_product_is_hamilton(j, i);
    assert(product(i, j)[3] == 1);
    assert(product(j, i)[3] == -1);
}

/// Conjugating twice gives the quaternion back.
pub proof fn lemma_conjugate_involution(q: Seq<int>)
    requires
        q.len() == 4,
    ensures
        conjugate(conjugate(q)) == q,
{
}

/// A quaternion times its conjugate, in either order, is its squared norm:
/// the scalar `w² + x² + y² + z²` with no vector part. So wherever the squared
/// norm can be divided by, the conjugate over the squared norm is the inverse.
pub proof fn lemma_product_with_conjugate(q: Seq<int>)
    requires
        q.len() == 4,
    ensures
        product(q, conjugate(q)) == seq![sum_of_squares(q), 0, 0, 0],
        product(conjugate(q), q) == seq![sum_of_squares(q), 0, 0, 0],
{
    let (w, x, y, z) = (q[0], q[1], q[2], q[3]);
    lemma_product_is_hamilton(q, conjugate(q));
    lemma_product_is_hamilton(conjugate(q), q);
    assert(w * (-x) == -(w * x) && w * (-y) == -(w * y) && w * (-z) == -(w * z) && x * (-x) == -(x
        * x) && y * (-y) == -(y * y) && z * (-z) == -(z * z)) by (nonlinear_arith);
    assert(x * (-y) == -(x * y) && y * (-x) == -(x * y) && x * (-z) == -(x * z) && z * (-x) == -(x
        * z) && y * (-z) == -(y * z) && z * (-y) == -(y * z)) by (nonlinear_arith);
    assert((-x) * w == -(w * x) && (-y) * w == -(w * y) && (-z) * w == -(w * z) && (-x) * x == -(x
        * x) && (-y) * y == -(y * y) && (-z) * z == -(z * z)) by (nonlinear_arith);
    assert((-x) * y == -(x * y) && (-y) * x == -(x * y) && (-x) * z == -(x * z) && (-z) * x == -(x
        * z) && (-y) * z == -(y * z) && (-z) * y == -(y * z)) by (nonlinear_arith);
    assert(x * w == w * x && y * w == w * y && z * w == w * z && y * x == x * y && z * x == x * z
        && z * y == y * z) by (nonlinear_arith);
}

/// The scalar part of `(q * v) * conjugate(q)` for a pure `v`, multiplied out.
proof fn lemma_rotation_scalar_part(w: int, x: int, y: int, z: int, a: int, b: int, c: int)
    ensures
        (0 - x * a - y * b - z * c) * w + (w * a + y * c - z * b) * x + (w * b - x * c + z * a) * y
            + (w * c + x * b - y * a) * z == 0,
{
    broadcast use vstd::arithmetic::mul::group_mul_is_distributive;

    assert((x * a) * w == (w * a) * x && (y * b) * w == (w * b) * y && (z * c) * w == (w * c) * z)
        by (nonlinear_arith);
    assert((y * c) * x == (x * c) * y && (z * b) * x == (x * b) * z && (z * a) * y == (y * a) * z)
        by (nonlinear_arith);
    assert(0 * w == 0);
}

/// Rotating a vector gives a vector: for a pure quaternion `v`, one with no
/// scalar part, `(q * v) * conjugate(q)` is pure as well.
pub proof fn lemma_rotation_is_pure(q: Seq<int>, v: Seq<int>)
    requires
        q.len() == 4,
        v.len() == 4,
        v[0] == 0,
    ensures
        product(product(q, v), conjugate(q))[0] == 0,
{
    let (w, x, y, z) = (q[0], q[1], q[2], q[3]);
    let p = product(q, v);
    lemma_product_is_hamilton(q, v);
    lemma_product_is_hamilton(p, conjugate(q));
    assert(w * 0 == 0 && x * 0 == 0 && y * 0 == 0 && z * 0 == 0);
    assert(p[1] * (-x) == -(p[1] * x) && p[2] * (-y) == -(p[2] * y) && p[3] * (-z) == -(p[3] * z))
        by (nonlinear_arith);
    lemma_rotation_scalar_part(w, x, y, z, v[1], v[2], v[3]);
}

} // verus!
