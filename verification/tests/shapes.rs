use brics::shapes::create_vertices;
use brics::vertex::VertexBasic;

fn row(vertex: &VertexBasic) -> [f32; 6] {
    [
        f32::from_bits(vertex.position.x),
        f32::from_bits(vertex.position.y),
        f32::from_bits(vertex.position.z),
        f32::from_bits(vertex.normal.x),
        f32::from_bits(vertex.normal.y),
        f32::from_bits(vertex.normal.z),
    ]
}

#[test]
fn the_cube_has_24_vertices_and_36_indices() {
    let (vertices, indices) = create_vertices();
    assert_eq!(vertices.len(), 24);
    assert_eq!(indices.len(), 36);
}

#[test]
fn the_cube_has_the_expected_vertices() {
    let (vertices, _) = create_vertices();
    let expected: Vec<[f32; 6]> = vec![
        // Back face
        [-1.0, -1.0, 1.0, 0.0, 0.0, 1.0],
        [1.0, -1.0, 1.0, 0.0, 0.0, 1.0],
        [1.0, 1.0, 1.0, 0.0, 0.0, 1.0],
        [-1.0, 1.0, 1.0, 0.0, 0.0, 1.0],
        // Front face
        [-1.0, -1.0, -1.0, 0.0, 0.0, -1.0],
        [-1.0, 1.0, -1.0, 0.0, 0.0, -1.0],
        [1.0, 1.0, -1.0, 0.0, 0.0, -1.0],
        [1.0, -1.0, -1.0, 0.0, 0.0, -1.0],
        // Bottom face
        [-1.0, 1.0, -1.0, 0.0, 1.0, 0.0],
        [-1.0, 1.0, 1.0, 0.0, 1.0, 0.0],
        [1.0, 1.0, 1.0, 0.0, 1.0, 0.0],
        [1.0, 1.0, -1.0, 0.0, 1.0, 0.0],
        // Top face
        [-1.0, -1.0, -1.0, 0.0, -1.0, 0.0],
        [1.0, -1.0, -1.0, 0.0, -1.0, 0.0],
        [1.0, -1.0, 1.0, 0.0, -1.0, 0.0],
        [-1.0, -1.0, 1.0, 0.0, -1.0, 0.0],
        // Right face
        [1.0, -1.0, -1.0, 1.0, 0.0, 0.0],
        [1.0, 1.0, -1.0, 1.0, 0.0, 0.0],
        [1.0, 1.0, 1.0, 1.0, 0.0, 0.0],
        [1.0, -1.0, 1.0, 1.0, 0.0, 0.0],
        // Left face
        [-1.0, -1.0, -1.0, -1.0, 0.0, 0.0],
        [-1.0, -1.0, 1.0, -1.0, 0.0, 0.0],
        [-1.0, 1.0, 1.0, -1.0, 0.0, 0.0],
        [-1.0, 1.0, -1.0, -1.0, 0.0, 0.0],
    ];
    let actual: Vec<[f32; 6]> = vertices.iter().map(row).collect();
    assert_eq!(actual, expected);
    for vertex in &vertices {
        for bits in [vertex.normal.x, vertex.normal.y, vertex.normal.z] {
            assert_ne!(bits, (-0.0f32).to_bits());
        }
    }
}

#[test]
fn the_cube_has_the_expected_indices() {
    let (_, indices) = create_vertices();
    let expected: Vec<u16> = vec![
        0, 1, 3, 3, 1, 2, 4, 5, 6, 6, 7, 4, 8, 9, 10, 10, 11, 8, 12, 13, 14, 14, 15, 12, 16, 17,
        18, 18, 19, 16, 20, 21, 22, 22, 23, 20,
    ];
    assert_eq!(indices, expected);
}

#[test]
fn every_triangle_of_the_cube_lies_on_one_face() {
    let (vertices, indices) = create_vertices();
    for triangle in indices.chunks(3) {
        let a = row(&vertices[triangle[0] as usize]);
        let b = row(&vertices[triangle[1] as usize]);
        let c = row(&vertices[triangle[2] as usize]);
        assert_eq!(a[3..], b[3..]);
        assert_eq!(a[3..], c[3..]);
        assert_ne!(triangle[0], triangle[1]);
        assert_ne!(triangle[1], triangle[2]);
        assert_ne!(triangle[0], triangle[2]);
        for v in [a, b, c] {
            assert_eq!(v[0] * v[3] + v[1] * v[4] + v[2] * v[5], 1.0);
        }
    }
}
