use zxpresent::geometry::{compute_quad, initial_vertices, quad_indices};

fn half_extents(q: &zxpresent::geometry::Quad) -> (f32, f32) {
    (
        q.scaled_width as f32 / q.window_width as f32,
        q.scaled_height as f32 / q.window_height as f32,
    )
}

#[test]
fn full_bleed_scenario() {
    // bitmap 320x240 in a 640x480 window: zoom 2, no letterbox.
    let q = compute_quad(320, 240, 640, 480);
    assert_eq!(q.zoom, 2);
    assert_eq!(q.scaled_width, 640);
    assert_eq!(q.scaled_height, 480);
    let (hx, hy) = half_extents(&q);
    assert_eq!(hx, 1.0);
    assert_eq!(hy, 1.0);
}

#[test]
fn horizontal_letterbox_scenario() {
    // bitmap 320x240 in a 800x480 window: ratios 2.5 and 2.0, zoom 2,
    // horizontal letterbox bars.
    let q = compute_quad(320, 240, 800, 480);
    assert_eq!(q.zoom, 2);
    assert_eq!(q.scaled_width, 640);
    assert_eq!(q.scaled_height, 480);
    let (hx, hy) = half_extents(&q);
    assert_eq!(hx, 0.8);
    assert_eq!(hy, 1.0);
}

#[test]
fn window_smaller_than_bitmap_degenerates() {
    // A window smaller than the bitmap in both directions collapses the quad
    // to a point without any failure.
    let q = compute_quad(320, 240, 200, 100);
    assert_eq!(q.zoom, 0);
    assert_eq!(q.scaled_width, 0);
    assert_eq!(q.scaled_height, 0);
    let (hx, hy) = half_extents(&q);
    assert_eq!(hx, 0.0);
    assert_eq!(hy, 0.0);
}

#[test]
fn geometry_is_idempotent() {
    // Identical inputs give bit-identical quads and vertices.
    let q1 = compute_quad(123, 457, 1920, 1080);
    let q2 = compute_quad(123, 457, 1920, 1080);
    assert_eq!(q1, q2);
    let v1 = q1.vertices();
    let v2 = q2.vertices();
    assert_eq!(v1, v2);
    for (a, b) in v1.iter().zip(v2.iter()) {
        let ax = a.x.num as f32 / a.x.den as f32;
        let bx = b.x.num as f32 / b.x.den as f32;
        assert_eq!(ax.to_bits(), bx.to_bits());
    }
}

#[test]
fn zoom_is_floor_of_smaller_ratio() {
    assert_eq!(compute_quad(320, 240, 640, 480).zoom, 2);
    assert_eq!(compute_quad(320, 240, 800, 480).zoom, 2);
    assert_eq!(compute_quad(320, 240, 799, 479).zoom, 1);
    assert_eq!(compute_quad(320, 240, 320, 240).zoom, 1);
    assert_eq!(compute_quad(320, 240, 319, 240).zoom, 0);
    assert_eq!(compute_quad(1, 1, 4096, 4096).zoom, 4096);
}

#[test]
fn vertices_are_centered_with_flipped_texture_y() {
    let q = compute_quad(320, 240, 800, 480);
    let v = q.vertices();
    assert_eq!(v.len(), 4);
    // Corners: (-hx,-hy) uv (0,1); (hx,-hy) uv (1,1); (hx,hy) uv (1,0);
    // (-hx,hy) uv (0,0).
    assert_eq!(v[0].x.num, -640);
    assert_eq!(v[0].y.num, -480);
    assert_eq!((v[0].u, v[0].v), (0, 1));
    assert_eq!(v[1].x.num, 640);
    assert_eq!(v[1].y.num, -480);
    assert_eq!((v[1].u, v[1].v), (1, 1));
    assert_eq!(v[2].x.num, 640);
    assert_eq!(v[2].y.num, 480);
    assert_eq!((v[2].u, v[2].v), (1, 0));
    assert_eq!(v[3].x.num, -640);
    assert_eq!(v[3].y.num, 480);
    assert_eq!((v[3].u, v[3].v), (0, 0));
    for vert in v.iter() {
        assert_eq!(vert.x.den, 800);
        assert_eq!(vert.y.den, 480);
    }
}

#[test]
fn initial_vertices_are_full_bleed() {
    let v = initial_vertices();
    assert_eq!(v.len(), 4);
    assert_eq!(v[0].x.num as f32 / v[0].x.den as f32, -1.0);
    assert_eq!(v[2].x.num as f32 / v[2].x.den as f32, 1.0);
    assert_eq!(v[2].y.num as f32 / v[2].y.den as f32, 1.0);
}

#[test]
fn index_list_describes_two_triangles() {
    assert_eq!(quad_indices(), vec![0u16, 1, 2, 2, 3, 0]);
}

#[test]
fn half_extents_never_exceed_one() {
    for (bw, bh, ww, wh) in [
        (1u32, 1u32, 1u32, 1u32),
        (320, 240, 641, 481),
        (17, 31, 1000, 1000),
        (640, 480, 320, 240),
        (3, 7, 4096, 13),
    ] {
        let q = compute_quad(bw, bh, ww, wh);
        let (hx, hy) = half_extents(&q);
        assert!(hx <= 1.0);
        assert!(hy <= 1.0);
    }
}
