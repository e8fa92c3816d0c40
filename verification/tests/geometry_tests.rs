use obj_geometry::geometry::{Geometry, IndexRange, VertexFormat, VertexFormatError};
use obj_geometry::model::{Model, Shape, Vtn};
use obj_geometry::vertex::{vtn_to_vertex, RecordedVertex};

fn corner(p: usize) -> Vtn {
    Vtn { position: p, texcoord: None, normal: None }
}

fn corner_full(p: usize, t: usize, n: usize) -> Vtn {
    Vtn { position: p, texcoord: Some(t), normal: Some(n) }
}

fn sample_model() -> Model<f32> {
    Model {
        positions: vec![[0.0, 0.0, 0.0], [1.0, 0.0, 0.0], [0.0, 1.0, 0.0], [0.0, 0.0, 1.0]],
        texcoords: vec![[0.0, 0.0], [1.0, 0.0], [0.0, 1.0], [1.0, 1.0]],
        normals: vec![[1.0, 0.0, 0.0], [0.0, 1.0, 0.0], [0.0, 0.0, 1.0], [0.5, 0.5, 0.0]],
    }
}

#[test]
fn single_position_only_triangle() {
    let model = sample_model();
    let shapes = vec![Shape::Triangle(corner(0), corner(1), corner(2))];
    let mut vertices: Vec<RecordedVertex<f32>> = Vec::new();
    let mut indices: Vec<u32> = Vec::new();
    let (range, format) = Geometry::add_geometry(&shapes, &model, &mut vertices, &mut indices);
    assert_eq!(range, IndexRange { start: 0, length: 3 });
    assert_eq!(format, Ok(VertexFormat::Position));
    assert_eq!(indices, vec![0, 1, 2]);
    assert_eq!(vertices.len(), 3);
    for (k, vertex) in vertices.iter().enumerate() {
        assert_eq!(vertex.position, Some(model.positions[k]));
        assert_eq!(vertex.texcoord, None);
        assert_eq!(vertex.normal, None);
    }
}

#[test]
fn all_triangles_full_attributes() {
    let model = sample_model();
    let shapes = vec![
        Shape::Triangle(corner_full(0, 0, 0), corner_full(1, 1, 1), corner_full(2, 2, 2)),
        Shape::Triangle(corner_full(1, 1, 1), corner_full(2, 2, 2), corner_full(3, 3, 3)),
    ];
    let mut vertices: Vec<RecordedVertex<f32>> = Vec::new();
    let mut indices: Vec<u32> = Vec::new();
    let (range, format) = Geometry::add_geometry(&shapes, &model, &mut vertices, &mut indices);
    assert_eq!(format, Ok(VertexFormat::PositionTextureNormal));
    assert_eq!(range.length, 6);
    assert_eq!(vertices.len(), 6);
    assert_eq!(vertices[5].position, Some(model.positions[3]));
    assert_eq!(vertices[5].texcoord, Some(model.texcoords[3]));
    assert_eq!(vertices[5].normal, Some(model.normals[3]));
}

#[test]
fn no_triangles_is_empty_position() {
    let model = sample_model();
    let shapes = vec![Shape::Point(corner(0)), Shape::Line(corner(1), corner(2))];
    let mut vertices: Vec<RecordedVertex<f32>> = Vec::new();
    let mut indices: Vec<u32> = Vec::new();
    let (range, format) = Geometry::add_geometry(&shapes, &model, &mut vertices, &mut indices);
    assert_eq!(format, Ok(VertexFormat::Position));
    assert_eq!(range, IndexRange { start: 0, length: 0 });
    assert!(vertices.is_empty());
    assert!(indices.is_empty());
}

#[test]
fn empty_shape_list_is_empty_position() {
    let model = sample_model();
    let shapes: Vec<Shape> = Vec::new();
    let mut vertices: Vec<RecordedVertex<f32>> = Vec::new();
    let mut indices: Vec<u32> = Vec::new();
    let (range, format) = Geometry::add_geometry(&shapes, &model, &mut vertices, &mut indices);
    assert_eq!(format, Ok(VertexFormat::Position));
    assert_eq!(range, IndexRange { start: 0, length: 0 });
}

#[test]
fn mixed_texcoords_rejected() {
    let model = sample_model();
    let with_uv = Vtn { position: 0, texcoord: Some(0), normal: None };
    let shapes = vec![
        Shape::Triangle(with_uv, corner(1), corner(2)),
        Shape::Triangle(corner(0), corner(1), corner(2)),
    ];
    let mut vertices: Vec<RecordedVertex<f32>> = Vec::new();
    let mut indices: Vec<u32> = Vec::new();
    let (range, format) = Geometry::add_geometry(&shapes, &model, &mut vertices, &mut indices);
    assert_eq!(format, Err(VertexFormatError::ExpectedSameVertexFormatPerGeometry));
    // The appends are committed even on the error: the range covers
    // every corner that was emitted.
    assert_eq!(range, IndexRange { start: 0, length: 6 });
    assert_eq!(vertices.len(), 6);
    assert_eq!(indices.len(), 6);
}

#[test]
fn mixed_normals_rejected() {
    let model = sample_model();
    let with_n = Vtn { position: 0, texcoord: None, normal: Some(0) };
    let shapes = vec![Shape::Triangle(with_n, corner(1), corner(2))];
    let mut vertices: Vec<RecordedVertex<f32>> = Vec::new();
    let mut indices: Vec<u32> = Vec::new();
    let (_, format) = Geometry::add_geometry(&shapes, &model, &mut vertices, &mut indices);
    assert_eq!(format, Err(VertexFormatError::ExpectedSameVertexFormatPerGeometry));
}

#[test]
fn position_texture_classification() {
    let model = sample_model();
    let c = |p: usize, t: usize| Vtn { position: p, texcoord: Some(t), normal: None };
    let shapes = vec![Shape::Triangle(c(0, 0), c(1, 1), c(2, 2))];
    let mut vertices: Vec<RecordedVertex<f32>> = Vec::new();
    let mut indices: Vec<u32> = Vec::new();
    let (_, format) = Geometry::add_geometry(&shapes, &model, &mut vertices, &mut indices);
    assert_eq!(format, Ok(VertexFormat::PositionTexture));
    assert_eq!(vertices[0].texcoord, Some(model.texcoords[0]));
    assert_eq!(vertices[0].normal, None);
}

#[test]
fn position_normal_classification() {
    let model = sample_model();
    let c = |p: usize, n: usize| Vtn { position: p, texcoord: None, normal: Some(n) };
    let shapes = vec![Shape::Triangle(c(0, 0), c(1, 1), c(2, 2))];
    let mut vertices: Vec<RecordedVertex<f32>> = Vec::new();
    let mut indices: Vec<u32> = Vec::new();
    let (_, format) = Geometry::add_geometry(&shapes, &model, &mut vertices, &mut indices);
    assert_eq!(format, Ok(VertexFormat::PositionNormal));
    assert_eq!(vertices[0].normal, Some(model.normals[0]));
    assert_eq!(vertices[0].texcoord, None);
}

#[test]
fn indices_continue_from_existing_buffers() {
    let model = sample_model();
    let shapes = vec![Shape::Triangle(corner(0), corner(1), corner(2))];
    let mut vertices: Vec<RecordedVertex<f32>> = vec![
        RecordedVertex { position: Some([9.0, 9.0, 9.0]), texcoord: None, normal: None };
        2
    ];
    let mut indices: Vec<u32> = vec![7, 7, 7, 7, 7];
    let (range, format) = Geometry::add_geometry(&shapes, &model, &mut vertices, &mut indices);
    assert_eq!(format, Ok(VertexFormat::Position));
    // The range starts where the index buffer ended.
    assert_eq!(range, IndexRange { start: 5, length: 3 });
    // Existing contents are untouched; the k-th appended index equals
    // the vertex-buffer length before the call plus k.
    assert_eq!(indices, vec![7, 7, 7, 7, 7, 2, 3, 4]);
    assert_eq!(vertices.len(), 5);
    assert_eq!(vertices[0].position, Some([9.0, 9.0, 9.0]));
    assert_eq!(range.start + range.length, indices.len());
}

#[test]
fn vertex_order_follows_declaration_order() {
    let model = sample_model();
    let shapes = vec![
        Shape::Triangle(corner(2), corner(0), corner(1)),
        Shape::Point(corner(3)),
        Shape::Triangle(corner(3), corner(1), corner(0)),
    ];
    let mut vertices: Vec<RecordedVertex<f32>> = Vec::new();
    let mut indices: Vec<u32> = Vec::new();
    let (range, format) = Geometry::add_geometry(&shapes, &model, &mut vertices, &mut indices);
    assert_eq!(format, Ok(VertexFormat::Position));
    assert_eq!(range.length, 6);
    let expected: Vec<usize> = vec![2, 0, 1, 3, 1, 0];
    for (k, p) in expected.into_iter().enumerate() {
        assert_eq!(vertices[k].position, Some(model.positions[p]));
    }
}

#[test]
fn build_single_vertex() {
    let model = sample_model();
    let vertex: RecordedVertex<f32> = vtn_to_vertex(corner_full(1, 2, 3), &model);
    assert_eq!(vertex.position, Some(model.positions[1]));
    assert_eq!(vertex.texcoord, Some(model.texcoords[2]));
    assert_eq!(vertex.normal, Some(model.normals[3]));
    let bare: RecordedVertex<f32> = vtn_to_vertex(corner(0), &model);
    assert_eq!(bare.position, Some(model.positions[0]));
    assert_eq!(bare.texcoord, None);
    assert_eq!(bare.normal, None);
}

#[test]
fn merging_ranges_keeps_order() {
    let mut geometry = Geometry::new();
    assert!(geometry.0.is_empty());
    geometry.append(IndexRange { start: 0, length: 3 });
    geometry.append(IndexRange { start: 3, length: 6 });
    assert_eq!(
        geometry.0,
        vec![IndexRange { start: 0, length: 3 }, IndexRange { start: 3, length: 6 }]
    );
}
