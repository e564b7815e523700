use starstruck::shapes::vertex::{vertices_to_bytes, Vertex};
use starstruck::shapes::{Cube, Rectangle, Triangle};

fn bits4(p: (f32, f32, f32, f32)) -> (u32, u32, u32, u32) {
    (p.0.to_bits(), p.1.to_bits(), p.2.to_bits(), p.3.to_bits())
}

fn bits3(p: (f32, f32, f32)) -> (u32, u32, u32) {
    (p.0.to_bits(), p.1.to_bits(), p.2.to_bits())
}

fn floats(p: (u32, u32, u32, u32)) -> (f32, f32, f32, f32) {
    (
        f32::from_bits(p.0),
        f32::from_bits(p.1),
        f32::from_bits(p.2),
        f32::from_bits(p.3),
    )
}

#[test]
fn triangle_into_raw_yields_three() {
    let t = Triangle::new((1, 2, 3, 4), (5, 6, 7, 8), (9, 10, 11, 12), (13, 14, 15, 16));
    let (vs, n) = t.into_raw();
    assert_eq!(vs.len(), 3);
    assert_eq!(n, 3);
}

#[test]
fn rectangle_into_raw_yields_six() {
    let r = Rectangle::new((1, 2, 3), (4, 5, 6), 7, (8, 8, 8, 8), (9, 9, 9, 9));
    let (vs, n) = r.into_raw();
    assert_eq!(vs.len(), 6);
    assert_eq!(n, 6);
}

#[test]
fn cube_into_raw_yields_thirty_six_vertices_and_six_faces() {
    let c = Cube::new((1, 2, 3), (4, 5, 6), 7, (8, 8, 8, 8), (9, 9, 9, 9));
    let (vs, n) = c.into_raw();
    assert_eq!(vs.len(), 36);
    assert_eq!(n, 6);
}

#[test]
fn triangle_new_places_corners_and_shares_color() {
    let color = (100, 101, 102, 103);
    let t = Triangle::new((1, 2, 3, 4), (5, 6, 7, 8), (9, 10, 11, 12), color);
    let (vs, _) = t.into_raw();
    assert_eq!(vs[0].position, (1, 2, 3, 4));
    assert_eq!(vs[1].position, (5, 6, 7, 8));
    assert_eq!(vs[2].position, (9, 10, 11, 12));
    for v in vs {
        assert_eq!(v.color, color);
    }
}

#[test]
fn rectangle_is_two_tone() {
    let color1 = (1, 0, 0, 1);
    let color2 = (0, 0, 1, 1);
    assert_ne!(color1, color2);
    let r = Rectangle::new((0, 0, 0), (1, 1, 0), 1, color1, color2);
    let (vs, _) = r.into_raw();
    for v in &vs[0..3] {
        assert_eq!(v.color, color1);
    }
    for v in &vs[3..6] {
        assert_eq!(v.color, color2);
    }
}

#[test]
fn rectangle_unit_square_scenario() {
    let red = bits4((1.0, 0.0, 0.0, 1.0));
    let blue = bits4((0.0, 0.0, 1.0, 1.0));
    let r = Rectangle::new(
        bits3((0.0, 0.0, 0.0)),
        bits3((1.0, 1.0, 0.0)),
        1.0f32.to_bits(),
        red,
        blue,
    );
    let (vs, n) = r.into_raw();
    assert_eq!(n, 6);
    assert_eq!(vs.len(), 6);
    // The union of the positions spans the unit square at z = 0.
    let mut corners: Vec<(f32, f32)> = Vec::new();
    for v in &vs {
        let (x, y, z, w) = floats(v.position);
        assert_eq!(z, 0.0);
        assert_eq!(w, 1.0);
        if !corners.contains(&(x, y)) {
            corners.push((x, y));
        }
    }
    corners.sort_by(|a, b| a.partial_cmp(b).unwrap());
    assert_eq!(corners, vec![(0.0, 0.0), (0.0, 1.0), (1.0, 0.0), (1.0, 1.0)]);
    // First triangle red, second blue.
    for v in &vs[0..3] {
        assert_eq!(v.color, red);
    }
    for v in &vs[3..6] {
        assert_eq!(v.color, blue);
    }
}

#[test]
fn rectangle_halves_share_a_diagonal() {
    // Opposite corners differing in every component: the quad is the
    // parallelogram with the mixed points (c1x, c2y, c2z) and
    // (c2x, c1y, c1z) as the shared diagonal.
    let r = Rectangle::new((1, 2, 3), (4, 5, 6), 7, (8, 8, 8, 8), (9, 9, 9, 9));
    let (vs, _) = r.into_raw();
    assert_eq!(vs[0].position, (1, 5, 6, 7));
    assert_eq!(vs[3].position, (1, 5, 6, 7));
    assert_eq!(vs[2].position, (4, 2, 3, 7));
    assert_eq!(vs[5].position, (4, 2, 3, 7));
    assert_eq!(vs[1].position, (1, 2, 3, 7));
    assert_eq!(vs[4].position, (4, 5, 6, 7));
}

#[test]
fn rectangle_spans_y_and_z_when_corners_share_x() {
    let r = Rectangle::new((5, 0, 0), (5, 2, 3), 7, (8, 8, 8, 8), (9, 9, 9, 9));
    let (vs, _) = r.into_raw();
    let mut corners: Vec<(u32, u32)> = Vec::new();
    for v in &vs {
        assert_eq!(v.position.0, 5);
        assert_eq!(v.position.3, 7);
        if !corners.contains(&(v.position.1, v.position.2)) {
            corners.push((v.position.1, v.position.2));
        }
    }
    corners.sort();
    assert_eq!(corners, vec![(0, 0), (0, 3), (2, 0), (2, 3)]);
}

#[test]
fn cube_vertices_lie_on_the_eight_box_corners() {
    let (c1, c2, w) = ((1, 2, 3), (4, 5, 6), 7);
    let c = Cube::new(c1, c2, w, (8, 8, 8, 8), (9, 9, 9, 9));
    let (vs, _) = c.into_raw();
    let mut corners: Vec<(u32, u32, u32, u32)> = Vec::new();
    for v in &vs {
        if !corners.contains(&v.position) {
            corners.push(v.position);
        }
    }
    corners.sort();
    let mut expected: Vec<(u32, u32, u32, u32)> = Vec::new();
    for x in [c1.0, c2.0] {
        for y in [c1.1, c2.1] {
            for z in [c1.2, c2.2] {
                expected.push((x, y, z, w));
            }
        }
    }
    expected.sort();
    assert_eq!(corners, expected);
    // No triangle is degenerate.
    for t in vs.chunks(3) {
        assert_ne!(t[0].position, t[1].position);
        assert_ne!(t[0].position, t[2].position);
        assert_ne!(t[1].position, t[2].position);
    }
}

#[test]
fn cube_first_face_matches_its_rectangle() {
    let c1 = (1, 2, 3);
    let c2 = (4, 5, 6);
    let c = Cube::new(c1, c2, 7, (8, 8, 8, 8), (9, 9, 9, 9));
    let (vs, _) = c.into_raw();
    // The first face spans (c2x, c1y, c2z) to (c1x, c2y, c2z).
    let expected = Rectangle::new((c2.0, c1.1, c2.2), (c1.0, c2.1, c2.2), 7, (8, 8, 8, 8), (9, 9, 9, 9));
    let (evs, _) = expected.into_raw();
    assert_eq!(&vs[0..6], &evs[0..6]);
}

#[test]
fn with_spatial_keeps_w_and_color() {
    let v = Vertex { position: (1, 2, 3, 4), color: (5, 6, 7, 8) };
    let r = v.with_spatial((9, 10, 11));
    assert_eq!(r.position, (9, 10, 11, 4));
    assert_eq!(r.color, (5, 6, 7, 8));
}

#[test]
fn with_positions_keeps_colors_and_order() {
    let t = Triangle::new((1, 2, 3, 4), (5, 6, 7, 8), (9, 10, 11, 12), (13, 14, 15, 16));
    let ps = vec![(21, 22, 23), (24, 25, 26), (27, 28, 29)];
    let r = t.with_positions(&ps);
    let (vs, _) = r.into_raw();
    assert_eq!(vs[0].position, (21, 22, 23, 4));
    assert_eq!(vs[1].position, (24, 25, 26, 8));
    assert_eq!(vs[2].position, (27, 28, 29, 12));
    for v in vs {
        assert_eq!(v.color, (13, 14, 15, 16));
    }
}

#[test]
fn rectangle_with_positions_keeps_colors_and_w() {
    let r = Rectangle::new((1, 2, 3), (4, 5, 6), 7, (100, 0, 0, 1), (0, 0, 100, 1));
    let ps: Vec<(u32, u32, u32)> = (0..6).map(|i| (10 + i, 20 + i, 30 + i)).collect();
    let moved = r.with_positions(&ps);
    let (vs, _) = moved.into_raw();
    for (i, v) in vs.iter().enumerate() {
        let i = i as u32;
        assert_eq!(v.position, (10 + i, 20 + i, 30 + i, 7));
    }
    for v in &vs[0..3] {
        assert_eq!(v.color, (100, 0, 0, 1));
    }
    for v in &vs[3..6] {
        assert_eq!(v.color, (0, 0, 100, 1));
    }
}

#[test]
fn cube_with_positions_keeps_colors_and_w() {
    let c = Cube::new((1, 2, 3), (4, 5, 6), 7, (8, 8, 8, 8), (9, 9, 9, 9));
    let ps: Vec<(u32, u32, u32)> = (0..36).map(|i| (100 + i, 200 + i, 300 + i)).collect();
    let moved = c.with_positions(&ps);
    let (vs, n) = moved.into_raw();
    assert_eq!(n, 6);
    for (i, v) in vs.iter().enumerate() {
        let i = i as u32;
        assert_eq!(v.position, (100 + i, 200 + i, 300 + i, 7));
        assert!(v.color == (8, 8, 8, 8) || v.color == (9, 9, 9, 9));
    }
    // Each face keeps its two-tone halves.
    for f in 0..6 {
        for v in &vs[f * 6..f * 6 + 3] {
            assert_eq!(v.color, (8, 8, 8, 8));
        }
        for v in &vs[f * 6 + 3..f * 6 + 6] {
            assert_eq!(v.color, (9, 9, 9, 9));
        }
    }
}

#[test]
fn vertex_bytes_little_endian_layout() {
    let v = Vertex {
        position: (0x0403_0201, 0x0807_0605, 0x0c0b_0a09, 0x100f_0e0d),
        color: (0x1413_1211, 0x1817_1615, 0x1c1b_1a19, 0x201f_1e1d),
    };
    let bytes = vertices_to_bytes(&vec![v]);
    let expected: Vec<u8> = (1..=32).collect();
    assert_eq!(bytes, expected);
}

#[test]
fn vertex_bytes_match_float_layout() {
    // 1.0f32 is the pattern 0x3f80_0000: bytes 00 00 80 3f little endian.
    let v = Vertex {
        position: (1.0f32.to_bits(), 0, 0, 0),
        color: (0, 0, 0, 0),
    };
    let bytes = vertices_to_bytes(&vec![v]);
    assert_eq!(bytes.len(), 32);
    assert_eq!(&bytes[0..4], &[0x00, 0x00, 0x80, 0x3f]);
}

#[test]
fn mesh_bytes_are_32_per_vertex_in_order() {
    let t = Triangle::new((1, 0, 0, 0), (2, 0, 0, 0), (3, 0, 0, 0), (0, 0, 0, 0));
    let (vs, _) = t.into_raw();
    let bytes = vertices_to_bytes(&vs);
    assert_eq!(bytes.len(), 96);
    assert_eq!(bytes[0], 1);
    assert_eq!(bytes[32], 2);
    assert_eq!(bytes[64], 3);
}
