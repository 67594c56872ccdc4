//! The unit cube that every instance draws: its corners and the triangles
//! that the index buffer lists.

use vstd::prelude::*;

verus! {

/// A corner of the unit cube centred on the origin, in half units: each
/// coordinate is `1` or `-1`, standing for `0.5` or `-0.5`.
#[derive(Clone, Copy, Debug, PartialEq, Eq, Structural)]
pub struct CubeCorner {
    pub x: i8,
    pub y: i8,
    pub z: i8,
}

/// The cube's corners, in the order that the index buffer refers to them.
pub open spec fn cube_corners_spec() -> Seq<CubeCorner> {
    seq![
        CubeCorner { x: -1i8, y: 1i8, z: 1i8 },
        CubeCorner { x: -1i8, y: -1i8, z: 1i8 },
        CubeCorner { x: 1i8, y: -1i8, z: 1i8 },
        CubeCorner { x: 1i8, y: 1i8, z: 1i8 },
        CubeCorner { x: 1i8, y: 1i8, z: -1i8 },
        CubeCorner { x: 1i8, y: -1i8, z: -1i8 },
        CubeCorner { x: -1i8, y: -1i8, z: -1i8 },
        CubeCorner { x: -1i8, y: 1i8, z: -1i8 },
    ]
}

/// The corner list, three indices per triangle: two triangles each for the
/// front, back, bottom and top faces.
pub open spec fn cube_indices_spec() -> Seq<u16> {
    seq![
        0, 1, 2, 2, 3, 0,
        4, 5, 6, 6, 7, 4,
        5, 2, 1, 6, 5, 1,
        0, 3, 4, 0, 4, 7,
    ]
}

/// The cube's corners.
pub fn cube_corners() -> (r: Vec<CubeCorner>)
    ensures
        r@ == cube_corners_spec(),
{
    let r = vec![
        CubeCorner { x: -1, y: 1, z: 1 },
        CubeCorner { x: -1, y: -1, z: 1 },
        CubeCorner { x: 1, y: -1, z: 1 },
        CubeCorner { x: 1, y: 1, z: 1 },
        CubeCorner { x: 1, y: 1, z: -1 },
        CubeCorner { x: 1, y: -1, z: -1 },
        CubeCorner { x: -1, y: -1, z: -1 },
        CubeCorner { x: -1, y: 1, z: -1 },
    ];
    assert(r@ =~= cube_corners_spec());
    r
}

/// The cube's index list.
pub fn cube_indices() -> (r: Vec<u16>)
    ensures
        r@ == cube_indices_spec(),
{
    let r: Vec<u16> = vec![
        0, 1, 2, 2, 3, 0,
        4, 5, 6, 6, 7, 4,
        5, 2, 1, 6, 5, 1,
        0, 3, 4, 0, 4, 7,
    ];
    assert(r@ =~= cube_indices_spec());
    r
}

/// The cube is well formed: eight distinct corners, each coordinate a half
/// unit either side of the origin, and a whole number of triangles whose
/// indices all name a corner.
pub proof fn cube_is_well_formed()
    ensures
        cube_corners_spec().len() == 8,
        forall|i: int| 0 <= i < 8 ==> {
            let c = #[trigger] cube_corners_spec()[i];
            (c.x == 1 || c.x == -1) && (c.y == 1 || c.y == -1) && (c.z == 1 || c.z == -1)
        },
        forall|i: int, j: int|
            0 <= i < 8 && 0 <= j < 8 && i != j ==> #[trigger] cube_corners_spec()[i]
                != #[trigger] cube_corners_spec()[j],
        cube_indices_spec().len() % 3 == 0,
        forall|k: int|
            0 <= k < cube_indices_spec().len() ==> #[trigger] cube_indices_spec()[k] < 8,
{
    let c = cube_corners_spec();
    let ix = cube_indices_spec();
    assert(ix.len() == 24);
    assert forall|k: int| 0 <= k < ix.len() implies #[trigger] ix[k] < 8 by {
        assert(0 <= k < 24);
    }
}

/// Each value as two bytes, low byte first.
pub open spec fn u16s_le_bytes(s: Seq<u16>) -> Seq<u8> {
    Seq::new(
        2 * s.len(),
        |k: int|
            if k % 2 == 0 {
                (s[k / 2] % 256) as u8
            } else {
                (s[k / 2] / 256) as u8
            },
    )
}

/// Each value as two bytes, high byte first.
pub open spec fn u16s_be_bytes(s: Seq<u16>) -> Seq<u8> {
    Seq::new(
        2 * s.len(),
        |k: int|
            if k % 2 == 0 {
                (s[k / 2] / 256) as u8
            } else {
                (s[k / 2] % 256) as u8
            },
    )
}

/// Relies on `bytemuck::cast_slice` from `u16` to `u8`: it hands back the
/// same memory seen as bytes, two for each value in the machine's byte order,
/// and never fails for this pair of types (`u8` has the smaller alignment and
/// divides the size).
#[verifier::external_body]
fn u16_bytes(values: &[u16]) -> (r: Vec<u8>)
    ensures
        r@ == u16s_le_bytes(values@) || r@ == u16s_be_bytes(values@),
{
    bytemuck::cast_slice::<u16, u8>(values).to_vec()
}

/// The contents of the index buffer: the cube's indices as bytes, in the
/// machine's byte order.
pub fn cube_index_bytes() -> (r: Vec<u8>)
    ensures
        r@ == u16s_le_bytes(cube_indices_spec()) || r@ == u16s_be_bytes(cube_indices_spec()),
{
    let indices = cube_indices();
    u16_bytes(indices.as_slice())
}

} // verus!
