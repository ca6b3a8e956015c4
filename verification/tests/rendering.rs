use tilegame::geometry::{is_whole_vertex_buffer, F32Bytes, Geometry, TexPoint, ThreePoint, TwoPoint, Vertex};
use tilegame::rendering::shader::{Shader, ShaderSource};
use tilegame::texture::Texture;

fn fb(x: f32) -> F32Bytes {
    x.to_ne_bytes()
}

#[test]
fn strides() {
    assert_eq!(TwoPoint::stride(), 8);
    assert_eq!(ThreePoint::stride(), 12);
    assert_eq!(TexPoint::stride(), 20);
}

#[test]
fn two_point_bytes_round_trip() {
    let bytes: Vec<u8> = (1..=8).collect();
    let p = TwoPoint::from_bytes(&bytes);
    assert_eq!(p.to_bytes(), bytes);
}

#[test]
fn three_point_from_bytes_reads_floats() {
    let mut bytes = Vec::new();
    for x in [1.5f32, -2.0, 0.25] {
        bytes.extend_from_slice(&fb(x));
    }
    let p = ThreePoint::from_bytes(&bytes);
    assert_eq!(p.data, [fb(1.5), fb(-2.0), fb(0.25)]);
    assert_eq!(f32::from_ne_bytes(p.data[1]), -2.0);
    assert_eq!(p.to_bytes(), bytes);
}

#[test]
fn from_byte_buffer_cuts_whole_vertices() {
    let buffer: Vec<u8> = (0..20).collect();
    let points = TwoPoint::from_byte_buffer(&buffer);
    assert_eq!(points.len(), 2);
    assert_eq!(points[0].to_bytes(), (0..8).collect::<Vec<u8>>());
    assert_eq!(points[1].to_bytes(), (8..16).collect::<Vec<u8>>());
    assert_eq!(TwoPoint::from_byte_buffer(&[]).len(), 0);
    assert_eq!(ThreePoint::from_byte_buffer(&buffer[..11]).len(), 0);
}

#[test]
fn from_float_buffer_takes_consecutive_windows() {
    let floats: Vec<F32Bytes> = [0.0f32, 1.0, 2.0, 3.0, 4.0, 5.0].iter().map(|x| fb(*x)).collect();
    let points = ThreePoint::from_float_buffer(&floats);
    assert_eq!(points.len(), 2);
    assert_eq!(points[0].data, [fb(0.0), fb(1.0), fb(2.0)]);
    assert_eq!(points[1].data, [fb(1.0), fb(2.0), fb(3.0)]);
    assert_eq!(ThreePoint::from_float_buffer(&[]).len(), 0);
}

#[test]
fn geometry_holds_copies_and_serialises_vertices() {
    let a = TexPoint { location: [fb(1.0), fb(2.0), fb(0.0)], tex_coord: [fb(0.0), fb(1.0)] };
    let b = TexPoint { location: [fb(3.0), fb(4.0), fb(0.0)], tex_coord: [fb(1.0), fb(0.0)] };
    let g = Geometry::from_verts_and_indices(7, 8, 9, 0x88E4, &[a, b], &[0, 1, 2, 3]);
    assert_eq!((g.VAO, g.VBO, g.EBO, g.usage), (7, 8, 9, 0x88E4));
    assert_eq!(g.indices, vec![0, 1, 2, 3]);
    assert_eq!(g.vertices.len(), 2);
    let bytes = g.vertex_bytes();
    assert_eq!(bytes.len(), 40);
    let mut expected = a.to_bytes();
    expected.extend(b.to_bytes());
    assert_eq!(bytes, expected);
    let back = TexPoint::from_byte_buffer(&bytes);
    assert_eq!(back.len(), 2);
    assert_eq!(back[0].to_bytes(), a.to_bytes());
    assert_eq!(back[1].to_bytes(), b.to_bytes());
    assert_eq!(f32::from_ne_bytes(back[1].location[0]), 3.0);
}

#[test]
fn new_geometry_is_empty() {
    let g: Geometry<TwoPoint> = Geometry::new(1, 2, 3, 4);
    assert!(g.vertices.is_empty());
    assert!(g.indices.is_empty());
    assert!(g.vertex_bytes().is_empty());
}

#[test]
fn texture_flips_rows() {
    // a 2 x 3 image, each pixel's bytes holding its row number
    let pixels: Vec<u8> = (0..3u8).flat_map(|r| std::iter::repeat(r).take(8)).collect();
    let (texture, flipped) = Texture::new(11, 2, 3, pixels.clone());
    assert_eq!(texture, Texture { id: 11, width: 2, height: 3 });
    let expected: Vec<u8> = (0..3u8).rev().flat_map(|r| std::iter::repeat(r).take(8)).collect();
    assert_eq!(flipped, expected);
    let (_, twice) = Texture::new(11, 2, 3, flipped);
    assert_eq!(twice, pixels);
}

#[test]
fn texture_flip_keeps_columns() {
    let pixels: Vec<u8> = (0..16).collect();
    let (_, flipped) = Texture::new(5, 2, 2, pixels);
    assert_eq!(flipped, vec![8, 9, 10, 11, 12, 13, 14, 15, 0, 1, 2, 3, 4, 5, 6, 7]);
    let (t, empty) = Texture::new(6, 0, 5, Vec::new());
    assert_eq!((t.width, t.height), (0, 5));
    assert!(empty.is_empty());
}

#[test]
fn shader_records() {
    let s = ShaderSource::new(String::from("void main() {}"), 0x8B31);
    assert_eq!(s.source, "void main() {}");
    assert_eq!(s.shader_type, 0x8B31);
    assert_eq!(Shader { id: 3 }.id, 3);
}

#[test]
fn whole_vertex_buffers() {
    assert!(is_whole_vertex_buffer::<TwoPoint>(16));
    assert!(!is_whole_vertex_buffer::<TwoPoint>(20));
    assert!(is_whole_vertex_buffer::<TexPoint>(0));
    assert!(!is_whole_vertex_buffer::<ThreePoint>(8));
    assert!(is_whole_vertex_buffer::<ThreePoint>(24));
}
