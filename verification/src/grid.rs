//! The cubic grid: how a cell's coordinates map to its place in the flat
//! block array.
//!
//! A chunk of edge `n` holds `n * n * n` cells. The cell `(x, y, z)`, each
//! coordinate in `0..n`, lives at `z * n * n + y * n + x`.

use vstd::prelude::*;

verus! {

/// Number of cells in a cube of edge `n`.
pub open spec fn volume(n: int) -> int {
    n * n * n
}

/// Whether `(x, y, z)` names a cell of a cube of edge `n`.
pub open spec fn in_bounds(x: int, y: int, z: int, n: int) -> bool {
    0 <= x < n && 0 <= y < n && 0 <= z < n
}

/// The place of cell `(x, y, z)` in the flat array of a cube of edge `n`.
pub open spec fn linear_index(x: int, y: int, z: int, n: int) -> int {
    z * n * n + y * n + x
}

/// The place of `(x, y, z)` if it is a cell of the cube, and nothing if it
/// lies outside.
pub open spec fn checked_index(x: int, y: int, z: int, n: int) -> Option<int> {
    if in_bounds(x, y, z, n) {
        Some(linear_index(x, y, z, n))
    } else {
        None
    }
}

/// Every cell of the cube has a place inside the flat array.
pub proof fn lemma_linear_index_in_range(x: int, y: int, z: int, n: int)
    requires
        in_bounds(x, y, z, n),
    ensures
        0 <= linear_index(x, y, z, n) < volume(n),
        0 <= y * n <= (n - 1) * n,
        0 <= z * n * n <= (n - 1) * n * n,
{
    assert(0 <= y * n <= (n - 1) * n) by (nonlinear_arith)
        requires
            0 <= y < n,
    ;
    assert(0 <= z * n * n <= (n - 1) * n * n) by (nonlinear_arith)
        requires
            0 <= z < n,
    ;
    assert((n - 1) * n * n + (n - 1) * n + (n - 1) == n * n * n - 1) by (nonlinear_arith);
}

/// Two cells that share a place are the same cell.
pub proof fn lemma_linear_index_injective(
    x1: int,
    y1: int,
    z1: int,
    x2: int,
    y2: int,
    z2: int,
    n: int,
)
    requires
        in_bounds(x1, y1, z1, n),
        in_bounds(x2, y2, z2, n),
        linear_index(x1, y1, z1, n) == linear_index(x2, y2, z2, n),
    ensures
        x1 == x2,
        y1 == y2,
        z1 == z2,
{
    // Each of the two places splits into a row part below n * n and a
    // layer part that is a multiple of n * n.
    let r1 = y1 * n + x1;
    let r2 = y2 * n + x2;
    assert(0 <= r1 < n * n && 0 <= r2 < n * n) by (nonlinear_arith)
        requires
            0 <= x1 < n,
            0 <= y1 < n,
            0 <= x2 < n,
            0 <= y2 < n,
            r1 == y1 * n + x1,
            r2 == y2 * n + x2,
    ;
    assert(z1 == z2) by (nonlinear_arith)
        requires
            z1 * n * n + r1 == z2 * n * n + r2,
            0 <= r1 < n * n,
            0 <= r2 < n * n,
    ;
    assert(y1 == y2) by (nonlinear_arith)
        requires
            y1 * n + x1 == y2 * n + x2,
            0 <= x1 < n,
            0 <= x2 < n,
    ;
}

/// Every place in the flat array belongs to a cell of the cube.
pub proof fn lemma_linear_index_surjective(i: int, n: int)
    requires
        0 <= i < volume(n),
    ensures
        in_bounds(i % n, (i / n) % n, i / (n * n), n),
        linear_index(i % n, (i / n) % n, i / (n * n), n) == i,
{
    assert(n > 0) by (nonlinear_arith)
        requires
            0 < n * n * n,
    ;
    let q = i / n;
    vstd::arithmetic::div_mod::lemma_fundamental_div_mod(i, n);
    vstd::arithmetic::div_mod::lemma_fundamental_div_mod(q, n);
    vstd::arithmetic::div_mod::lemma_mod_bound(i, n);
    vstd::arithmetic::div_mod::lemma_mod_bound(q, n);
    vstd::arithmetic::div_mod::lemma_div_denominator(i, n, n);
    let z = q / n;
    assert(i / (n * n) == z);
    assert(i == z * n * n + (q % n) * n + i % n) by (nonlinear_arith)
        requires
            i == n * q + i % n,
            q == n * z + q % n,
    ;
    assert(0 <= z < n) by (nonlinear_arith)
        requires
            i == z * n * n + (q % n) * n + i % n,
            0 <= i < n * n * n,
            0 <= q % n < n,
            0 <= i % n < n,
            n > 0,
    ;
}

/// A cube whose cells can all be addressed has an edge that fits a signed
/// machine word.
pub proof fn lemma_edge_fits(n: int)
    requires
        0 <= n,
        volume(n) <= usize::MAX,
    ensures
        n < isize::MAX,
{
    assert(n < 0x7fff_ffff) by (nonlinear_arith)
        requires
            0 <= n,
            n * n * n <= 0xffff_ffff_ffff_ffff,
    ;
}

/// The place of `(x, y, z)` in the flat array of a cube of edge `edge`,
/// for coordinates that are known to name a cell.
pub fn index_unchecked(x: usize, y: usize, z: usize, edge: usize) -> (i: usize)
    requires
        volume(edge as int) <= usize::MAX,
        in_bounds(x as int, y as int, z as int, edge as int),
    ensures
        i == linear_index(x as int, y as int, z as int, edge as int),
        i < volume(edge as int),
{
    proof {
        lemma_linear_index_in_range(x as int, y as int, z as int, edge as int);
        assert(0 <= z * edge <= (edge - 1) * edge) by (nonlinear_arith)
            requires
                0 <= z < edge,
        ;
        assert((edge - 1) * edge <= edge * edge * edge) by (nonlinear_arith)
            requires
                0 < edge,
        ;
    }
    (z * edge * edge) + (y * edge) + x
}

/// The place of `(x, y, z)` in the flat array of a cube of edge `edge`, or
/// `None` where a coordinate falls outside `0..edge`.
pub fn index(x: isize, y: isize, z: isize, edge: usize) -> (i: Option<usize>)
    requires
        volume(edge as int) <= usize::MAX,
    ensures
        i.is_some() == in_bounds(x as int, y as int, z as int, edge as int),
        i matches Some(v) ==> v == linear_index(x as int, y as int, z as int, edge as int) && v
            < volume(edge as int),
{
    if x < 0 || y < 0 || z < 0 {
        return None;
    }
    let (ux, uy, uz) = (x as usize, y as usize, z as usize);
    if ux >= edge || uy >= edge || uz >= edge {
        None
    } else {
        Some(index_unchecked(ux, uy, uz, edge))
    }
}

/// The number of cells of a cube of edge `edge`, or `None` where it does
/// not fit a machine word.
pub fn checked_volume(edge: usize) -> (cells: Option<usize>)
    ensures
        cells.is_some() == (volume(edge as int) <= usize::MAX),
        cells matches Some(c) ==> c == volume(edge as int),
{
    match edge.checked_mul(edge) {
        Some(square) => {
            assert(square * edge == volume(edge as int)) by (nonlinear_arith)
                requires
                    square == edge * edge,
            ;
            square.checked_mul(edge)
        },
        None => {
            assert(volume(edge as int) > usize::MAX) by (nonlinear_arith)
                requires
                    edge * edge > usize::MAX,
                    0 <= edge,
            ;
            None
        },
    }
}

} // verus!
