//! Linearization between local chunk coordinates and buffer indices.
//!
//! The chunk buffer is ordered x-fastest, then y, then z:
//! `index = x + E * (y + E * z)`. The planar attribute field is ordered
//! x-fastest, then z: `index = x + E * z`.
use vstd::prelude::*;
use vstd::arithmetic::div_mod::{
    lemma_div_denominator, lemma_fundamental_div_mod, lemma_fundamental_div_mod_converse,
    lemma_div_pos_is_pos,
};
use vstd::arithmetic::mul::lemma_mul_inequality;

verus! {

/// Edge length of a cubic chunk, in voxels.
pub const CHUNK_SIZE: u32 = 32;

/// Number of voxels in one chunk buffer (`CHUNK_SIZE` cubed).
pub const CHUNK_VOLUME: u32 = 32768;

/// Number of columns in one chunk's horizontal footprint (`CHUNK_SIZE` squared).
pub const PLANE_AREA: u32 = 1024;

/// Buffer index of local coordinates `(x, y, z)` in a cube of edge `e`.
pub open spec fn lin3(e: int, x: int, y: int, z: int) -> int {
    x + e * (y + e * z)
}

/// Local coordinates `(x, y, z)` of buffer index `i` in a cube of edge `e`.
pub open spec fn delin3(e: int, i: int) -> (int, int, int) {
    (i % e, (i / e) % e, i / (e * e))
}

/// Field index of planar coordinates `(x, z)` in a square of edge `e`.
pub open spec fn lin2(e: int, x: int, z: int) -> int {
    x + e * z
}

/// Planar coordinates `(x, z)` of field index `i` in a square of edge `e`.
pub open spec fn delin2(e: int, i: int) -> (int, int) {
    (i % e, i / e)
}

/// Every index of a cube of edge `e` comes back unchanged from
/// delinearizing and then linearizing it, through coordinates inside the cube.
pub proof fn lemma_linearize3d_round_trip(e: int, i: int)
    requires
        0 < e,
        0 <= i < e * e * e,
    ensures
        0 <= delin3(e, i).0 < e,
        0 <= delin3(e, i).1 < e,
        0 <= delin3(e, i).2 < e,
        lin3(e, delin3(e, i).0, delin3(e, i).1, delin3(e, i).2) == i,
{
    let q = i / e;
    lemma_fundamental_div_mod(i, e);
    lemma_fundamental_div_mod(q, e);
    lemma_div_denominator(i, e, e);
    lemma_div_pos_is_pos(i, e);
    lemma_div_pos_is_pos(q, e);
    assert(i / (e * e) < e) by {
        if i / (e * e) >= e {
            lemma_fundamental_div_mod(i, e * e);
            lemma_mul_inequality(e, i / (e * e), e * e);
            assert(e * (e * e) == e * e * e) by (nonlinear_arith);
            assert(i % (e * e) >= 0);
            assert((e * e) * (i / (e * e)) == (i / (e * e)) * (e * e)) by (nonlinear_arith);
        }
    }
    assert(e * (q % e + e * (q / e)) == e * (q % e) + e * (e * (q / e))) by (nonlinear_arith);
}

/// Every point of a cube of edge `e` comes back unchanged from linearizing
/// and then delinearizing it, through an index inside the buffer.
pub proof fn lemma_delinearize3d_round_trip(e: int, x: int, y: int, z: int)
    requires
        0 < e,
        0 <= x < e,
        0 <= y < e,
        0 <= z < e,
    ensures
        0 <= lin3(e, x, y, z) < e * e * e,
        delin3(e, lin3(e, x, y, z)) == (x, y, z),
{
    let i = lin3(e, x, y, z);
    let q = y + e * z;
    assert(i == q * e + x) by (nonlinear_arith)
        requires i == x + e * (y + e * z), q == y + e * z;
    lemma_fundamental_div_mod_converse(i, e, q, x);
    assert(q == z * e + y) by (nonlinear_arith)
        requires q == y + e * z;
    lemma_fundamental_div_mod_converse(q, e, z, y);
    assert(0 <= e * z) by (nonlinear_arith)
        requires 0 < e, 0 <= z;
    lemma_div_denominator(i, e, e);
    assert(i < e * e * e) by (nonlinear_arith)
        requires i == x + e * (y + e * z), 0 <= x < e, 0 <= y < e, 0 <= z < e, 0 < e;
}

/// Every index of a square of edge `e` comes back unchanged from
/// delinearizing and then linearizing it, through coordinates inside the square.
pub proof fn lemma_linearize2d_round_trip(e: int, i: int)
    requires
        0 < e,
        0 <= i < e * e,
    ensures
        0 <= delin2(e, i).0 < e,
        0 <= delin2(e, i).1 < e,
        lin2(e, delin2(e, i).0, delin2(e, i).1) == i,
{
    lemma_fundamental_div_mod(i, e);
    lemma_div_pos_is_pos(i, e);
    if i / e >= e {
        lemma_mul_inequality(e, i / e, e);
        assert(e * (i / e) == (i / e) * e) by (nonlinear_arith);
    }
}

/// Every point of a square of edge `e` comes back unchanged from linearizing
/// and then delinearizing it, through an index inside the field.
pub proof fn lemma_delinearize2d_round_trip(e: int, x: int, z: int)
    requires
        0 < e,
        0 <= x < e,
        0 <= z < e,
    ensures
        0 <= lin2(e, x, z) < e * e,
        delin2(e, lin2(e, x, z)) == (x, z),
{
    let i = lin2(e, x, z);
    assert(i == z * e + x) by (nonlinear_arith)
        requires i == x + e * z;
    lemma_fundamental_div_mod_converse(i, e, z, x);
    assert(0 <= i < e * e) by (nonlinear_arith)
        requires i == x + e * z, 0 <= x < e, 0 <= z < e, 0 < e;
}

/// Buffer index of local coordinates `(x, y, z)` in a chunk.
pub fn linearize3d(x: u32, y: u32, z: u32) -> (r: u32)
    requires
        x < CHUNK_SIZE,
        y < CHUNK_SIZE,
        z < CHUNK_SIZE,
    ensures
        r == lin3(CHUNK_SIZE as int, x as int, y as int, z as int),
        r < CHUNK_VOLUME,
{
    x + 32 * (y + 32 * z)
}

/// Local coordinates `(x, y, z)` of a chunk buffer index.
pub fn delinearize3d(index: u32) -> (r: (u32, u32, u32))
    requires
        index < CHUNK_VOLUME,
    ensures
        (r.0 as int, r.1 as int, r.2 as int) == delin3(CHUNK_SIZE as int, index as int),
        r.0 < CHUNK_SIZE,
        r.1 < CHUNK_SIZE,
        r.2 < CHUNK_SIZE,
{
    (index % 32, (index / 32) % 32, index / 1024)
}

/// Field index of planar coordinates `(x, z)` in a chunk's footprint.
pub fn linearize2d(x: u32, z: u32) -> (r: u32)
    requires
        x < CHUNK_SIZE,
        z < CHUNK_SIZE,
    ensures
        r == lin2(CHUNK_SIZE as int, x as int, z as int),
        r < PLANE_AREA,
{
    x + 32 * z
}

/// Planar coordinates `(x, z)` of a field index in a chunk's footprint.
pub fn delinearize2d(index: u32) -> (r: (u32, u32))
    requires
        index < PLANE_AREA,
    ensures
        (r.0 as int, r.1 as int) == delin2(CHUNK_SIZE as int, index as int),
        r.0 < CHUNK_SIZE,
        r.1 < CHUNK_SIZE,
{
    (index % 32, index / 32)
}

} // verus!
