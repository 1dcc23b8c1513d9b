//! The shared quad geometry: vertices, their flattened words, and indices.

use ventura::render::sprite::pipeline::{
    sprite_quad_indices, sprite_quad_vertex_data, sprite_quad_vertices,
};

#[test]
fn quad_vertices_hold_the_unit_quad() {
    let v = sprite_quad_vertices();
    assert_eq!(v.len(), 4);
    let expected = [
        (-0.5f32, 0.5f32, 0.0f32, 0.0f32),
        (-0.5, -0.5, 0.0, 1.0),
        (0.5, -0.5, 1.0, 1.0),
        (0.5, 0.5, 1.0, 0.0),
    ];
    for (vertex, (px, py, u, t)) in v.iter().zip(expected) {
        assert_eq!(vertex.position_x, px.to_bits());
        assert_eq!(vertex.position_y, py.to_bits());
        assert_eq!(vertex.texture_u, u.to_bits());
        assert_eq!(vertex.texture_v, t.to_bits());
    }
}

#[test]
fn quad_vertex_data_flattens_the_vertices() {
    let v = sprite_quad_vertices();
    let flat = sprite_quad_vertex_data();
    assert_eq!(flat.len(), 16);
    for (i, vertex) in v.iter().enumerate() {
        assert_eq!(flat[4 * i], vertex.position_x);
        assert_eq!(flat[4 * i + 1], vertex.position_y);
        assert_eq!(flat[4 * i + 2], vertex.texture_u);
        assert_eq!(flat[4 * i + 3], vertex.texture_v);
    }
}

#[test]
fn quad_indices_draw_two_triangles() {
    assert_eq!(sprite_quad_indices(), vec![0u16, 1, 2, 2, 3, 0]);
}
