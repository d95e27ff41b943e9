//! The cube that the scenes are made of.

use crate::vector::{Vector3, MINUS_ONE, ONE, ZERO};
use crate::vertex::VertexBasic;
use vstd::prelude::*;

verus! {

/// The bit pattern of the coordinate -1, 0 or 1.
pub open spec fn unit(coordinate: int) -> u32 {
    if coordinate > 0 {
        ONE
    } else if coordinate < 0 {
        MINUS_ONE
    } else {
        ZERO
    }
}

/// The vertices of the cube with corners at (+-1, +-1, +-1), as position and
/// outward normal: four for each face, so that each face has its own normal.
pub open spec fn cube_rows() -> Seq<(int, int, int, int, int, int)> {
    seq![
        (-1, -1, 1, 0, 0, 1),
        (1, -1, 1, 0, 0, 1),
        (1, 1, 1, 0, 0, 1),
        (-1, 1, 1, 0, 0, 1),
        (-1, -1, -1, 0, 0, -1),
        (-1, 1, -1, 0, 0, -1),
        (1, 1, -1, 0, 0, -1),
        (1, -1, -1, 0, 0, -1),
        (-1, 1, -1, 0, 1, 0),
        (-1, 1, 1, 0, 1, 0),
        (1, 1, 1, 0, 1, 0),
        (1, 1, -1, 0, 1, 0),
        (-1, -1, -1, 0, -1, 0),
        (1, -1, -1, 0, -1, 0),
        (1, -1, 1, 0, -1, 0),
        (-1, -1, 1, 0, -1, 0),
        (1, -1, -1, 1, 0, 0),
        (1, 1, -1, 1, 0, 0),
        (1, 1, 1, 1, 0, 0),
        (1, -1, 1, 1, 0, 0),
        (-1, -1, -1, -1, 0, 0),
        (-1, -1, 1, -1, 0, 0),
        (-1, 1, 1, -1, 0, 0),
        (-1, 1, -1, -1, 0, 0),
    ]
}

/// The triangles of the cube, two for each face, as indices into
/// [`cube_rows`].
pub open spec fn cube_indices() -> Seq<u16> {
    seq![
        0, 1, 3, 3, 1, 2, 4, 5, 6, 6, 7, 4, 8, 9, 10, 10, 11, 8,
        12, 13, 14, 14, 15, 12, 16, 17, 18, 18, 19, 16, 20, 21, 22, 22, 23, 20,
    ]
}

/// The vertex of a row of [`cube_rows`].
pub open spec fn vertex_of(row: (int, int, int, int, int, int)) -> VertexBasic {
    VertexBasic {
        position: Vector3 { x: unit(row.0), y: unit(row.1), z: unit(row.2) },
        normal: Vector3 { x: unit(row.3), y: unit(row.4), z: unit(row.5) },
    }
}

/// The vertices of the cube.
pub open spec fn cube_vertices() -> Seq<VertexBasic> {
    Seq::new(cube_rows().len(), |k: int| vertex_of(cube_rows()[k]))
}

/// A vertex from the bit patterns of its position and its normal.
fn corner(x: u32, y: u32, z: u32, nx: u32, ny: u32, nz: u32) -> (vertex: VertexBasic)
    ensures
        vertex == (VertexBasic {
            position: Vector3 { x, y, z },
            normal: Vector3 { x: nx, y: ny, z: nz },
        }),
{
    VertexBasic { position: Vector3 { x, y, z }, normal: Vector3 { x: nx, y: ny, z: nz } }
}

/// The vertices and the indices of the cube.
pub fn create_vertices() -> (mesh: (Vec<VertexBasic>, Vec<u16>))
    ensures
        mesh.0@ == cube_vertices(),
        mesh.1@ == cube_indices(),
        mesh.0@.len() == 24,
        mesh.1@.len() == 36,
{
    let vertices = vec![
        // Back face
        corner(MINUS_ONE, MINUS_ONE, ONE, ZERO, ZERO, ONE),
        corner(ONE, MINUS_ONE, ONE, ZERO, ZERO, ONE),
        corner(ONE, ONE, ONE, ZERO, ZERO, ONE),
        corner(MINUS_ONE, ONE, ONE, ZERO, ZERO, ONE),
        // Front face
        corner(MINUS_ONE, MINUS_ONE, MINUS_ONE, ZERO, ZERO, MINUS_ONE),
        corner(MINUS_ONE, ONE, MINUS_ONE, ZERO, ZERO, MINUS_ONE),
        corner(ONE, ONE, MINUS_ONE, ZERO, ZERO, MINUS_ONE),
        corner(ONE, MINUS_ONE, MINUS_ONE, ZERO, ZERO, MINUS_ONE),
        // Bottom face
        corner(MINUS_ONE, ONE, MINUS_ONE, ZERO, ONE, ZERO),
        corner(MINUS_ONE, ONE, ONE, ZERO, ONE, ZERO),
        corner(ONE, ONE, ONE, ZERO, ONE, ZERO),
        corner(ONE, ONE, MINUS_ONE, ZERO, ONE, ZERO),
        // Top face
        corner(MINUS_ONE, MINUS_ONE, MINUS_ONE, ZERO, MINUS_ONE, ZERO),
        corner(ONE, MINUS_ONE, MINUS_ONE, ZERO, MINUS_ONE, ZERO),
        corner(ONE, MINUS_ONE, ONE, ZERO, MINUS_ONE, ZERO),
        corner(MINUS_ONE, MINUS_ONE, ONE, ZERO, MINUS_ONE, ZERO),
        // Right face
        corner(ONE, MINUS_ONE, MINUS_ONE, ONE, ZERO, ZERO),
        corner(ONE, ONE, MINUS_ONE, ONE, ZERO, ZERO),
        corner(ONE, ONE, ONE, ONE, ZERO, ZERO),
        corner(ONE, MINUS_ONE, ONE, ONE, ZERO, ZERO),
        // Left face
        corner(MINUS_ONE, MINUS_ONE, MINUS_ONE, MINUS_ONE, ZERO, ZERO),
        corner(MINUS_ONE, MINUS_ONE, ONE, MINUS_ONE, ZERO, ZERO),
        corner(MINUS_ONE, ONE, ONE, MINUS_ONE, ZERO, ZERO),
        corner(MINUS_ONE, ONE, MINUS_ONE, MINUS_ONE, ZERO, ZERO),
    ];
    let indices: Vec<u16> = vec![
        0, 1, 3, 3, 1, 2, 4, 5, 6, 6, 7, 4, 8, 9, 10, 10, 11, 8,
        12, 13, 14, 14, 15, 12, 16, 17, 18, 18, 19, 16, 20, 21, 22, 22, 23, 20,
    ];
    assert(vertices@ =~= cube_vertices());
    assert(indices@ =~= cube_indices());
    (vertices, indices)
}

/// Whether a row is a corner of the cube on the face that its normal points
/// out of: the coordinates of the position are 1 or -1, the normal is a unit
/// vector along one axis, and the position lies one unit along the normal.
pub open spec fn on_face(row: (int, int, int, int, int, int)) -> bool {
    &&& row.0 == 1 || row.0 == -1
    &&& row.1 == 1 || row.1 == -1
    &&& row.2 == 1 || row.2 == -1
    &&& (row.3 == row.0 && row.4 == 0 && row.5 == 0) || (row.3 == 0 && row.4 == row.1 && row.5
        == 0) || (row.3 == 0 && row.4 == 0 && row.5 == row.2)
}

/// Whether two rows have the same normal.
pub open spec fn same_normal(
    a: (int, int, int, int, int, int),
    b: (int, int, int, int, int, int),
) -> bool {
    a.3 == b.3 && a.4 == b.4 && a.5 == b.5
}

/// Whether the three indices from `3 * triangle` on name three different
/// vertices of one face.
pub open spec fn triangle_on_face(triangle: int) -> bool {
    let a = cube_indices()[3 * triangle] as int;
    let b = cube_indices()[3 * triangle + 1] as int;
    let c = cube_indices()[3 * triangle + 2] as int;
    &&& a != b && b != c && a != c
    &&& same_normal(cube_rows()[a], cube_rows()[b])
    &&& same_normal(cube_rows()[a], cube_rows()[c])
}

/// The cube is a mesh of 12 triangles over 24 vertices: every index names a
/// vertex, every vertex is a corner of the cube on the face of its normal,
/// and every triangle joins three different vertices of one face.
pub proof fn lemma_cube_mesh()
    ensures
        cube_rows().len() == 24,
        cube_indices().len() == 36,
        forall|i: int| 0 <= i < 36 ==> #[trigger] cube_indices()[i] < 24,
        forall|k: int| 0 <= k < 24 ==> on_face(#[trigger] cube_rows()[k]),
        forall|t: int| 0 <= t < 12 ==> #[trigger] triangle_on_face(t),
{
    assert forall|i: int| 0 <= i < 36 implies #[trigger] cube_indices()[i] < 24 by {
        if i < 12 {
        } else if i < 24 {
        } else {
        }
    }
    assert forall|k: int| 0 <= k < 24 implies on_face(#[trigger] cube_rows()[k]) by {
        if k < 8 {
        } else if k < 16 {
        } else {
        }
    }
    assert forall|t: int| 0 <= t < 12 implies #[trigger] triangle_on_face(t) by {
        if t < 4 {
        } else if t < 8 {
        } else {
        }
    }
}

} // verus!
