//! Aspect-preserving integer-zoom geometry: given the bitmap size and the
//! window size, compute the centered quad that presents the bitmap scaled by
//! the largest whole factor that still fits, letterboxed by the unrendered
//! margin outside it.

use vstd::prelude::*;
use vstd::arithmetic::div_mod::lemma_basic_div;
use vstd::arithmetic::div_mod::lemma_fundamental_div_mod;
use vstd::arithmetic::mul::lemma_mul_inequality;

verus! {

/// The integer zoom factor: the floor of the smaller of the two
/// window-to-bitmap size ratios.
pub open spec fn spec_zoom(bitmap_w: int, bitmap_h: int, window_w: int, window_h: int) -> int
    recommends
        bitmap_w > 0,
        bitmap_h > 0,
{
    let wr = window_w / bitmap_w;
    let hr = window_h / bitmap_h;
    if wr <= hr {
        wr
    } else {
        hr
    }
}

/// A signed coordinate in normalized device space, held exactly as the
/// fraction `num / den`. The window edges sit at -1 and 1.
#[derive(Clone, Copy, Debug, PartialEq, Eq, Structural)]
pub struct NdcCoord {
    pub num: i64,
    pub den: u32,
}

/// One corner of the presented quad: a position in normalized device
/// coordinates and a texture coordinate whose components are 0 or 1.
#[derive(Clone, Copy, Debug, PartialEq, Eq, Structural)]
pub struct QuadVertex {
    pub x: NdcCoord,
    pub y: NdcCoord,
    pub u: u8,
    pub v: u8,
}

/// The centered quad that presents the bitmap: the bitmap size scaled by the
/// zoom factor, framed in the window it was computed for.
#[derive(Clone, Copy, Debug, PartialEq, Eq, Structural)]
pub struct Quad {
    pub zoom: u32,
    pub scaled_width: u32,
    pub scaled_height: u32,
    pub window_width: u32,
    pub window_height: u32,
}

impl Quad {
    /// The quad `compute_quad` returns for these sizes.
    pub open spec fn spec_of(bitmap_w: int, bitmap_h: int, window_w: int, window_h: int) -> Quad
        recommends
            bitmap_w > 0,
            bitmap_h > 0,
    {
        let z = spec_zoom(bitmap_w, bitmap_h, window_w, window_h);
        Quad {
            zoom: z as u32,
            scaled_width: (bitmap_w * z) as u32,
            scaled_height: (bitmap_h * z) as u32,
            window_width: window_w as u32,
            window_height: window_h as u32,
        }
    }

    /// A quad never reaches past the window edge: each half-extent, as the
    /// fraction scaled size over window size, is at most one.
    pub open spec fn within_window(self) -> bool {
        self.scaled_width <= self.window_width && self.scaled_height <= self.window_height
    }
}

/// The scaled size never exceeds the window size: `z * b <= w` for the floor
/// ratio `z = w / b`, and likewise any smaller factor.
pub proof fn lemma_scaled_fits(b: int, w: int, z: int)
    requires
        b > 0,
        w >= 0,
        0 <= z <= w / b,
    ensures
        b * z <= w,
{
    lemma_fundamental_div_mod(w, b);
    lemma_mul_inequality(z, w / b, b);
}

/// Compute the centered integer-zoom quad for a bitmap presented in a window.
///
/// The zoom is the floor of the smaller window-to-bitmap ratio; a window
/// smaller than the bitmap in both directions yields zoom 0 and a quad of
/// zero size, which is degenerate but not an error.
pub fn compute_quad(bitmap_w: u32, bitmap_h: u32, window_w: u32, window_h: u32) -> (q: Quad)
    requires
        bitmap_w > 0,
        bitmap_h > 0,
        window_w > 0,
        window_h > 0,
    ensures
        q == Quad::spec_of(bitmap_w as int, bitmap_h as int, window_w as int, window_h as int),
        q.within_window(),
{
    let wr = window_w / bitmap_w;
    let hr = window_h / bitmap_h;
    let z = if wr <= hr {
        wr
    } else {
        hr
    };
    proof {
        lemma_scaled_fits(bitmap_w as int, window_w as int, z as int);
        lemma_scaled_fits(bitmap_h as int, window_h as int, z as int);
    }
    Quad {
        zoom: z,
        scaled_width: bitmap_w * z,
        scaled_height: bitmap_h * z,
        window_width: window_w,
        window_height: window_h,
    }
}

/// The four corners a quad presents, in draw order: the half-extents are the
/// fractions scaled size over window size, and the texture coordinates flip
/// vertically so that bitmap row 0 is the visual top.
pub open spec fn spec_vertices(q: Quad) -> Seq<QuadVertex> {
    let hx = q.scaled_width as i64;
    let hy = q.scaled_height as i64;
    seq![
        QuadVertex {
            x: NdcCoord { num: (-hx) as i64, den: q.window_width },
            y: NdcCoord { num: (-hy) as i64, den: q.window_height },
            u: 0,
            v: 1,
        },
        QuadVertex {
            x: NdcCoord { num: hx, den: q.window_width },
            y: NdcCoord { num: (-hy) as i64, den: q.window_height },
            u: 1,
            v: 1,
        },
        QuadVertex {
            x: NdcCoord { num: hx, den: q.window_width },
            y: NdcCoord { num: hy, den: q.window_height },
            u: 1,
            v: 0,
        },
        QuadVertex {
            x: NdcCoord { num: (-hx) as i64, den: q.window_width },
            y: NdcCoord { num: hy, den: q.window_height },
            u: 0,
            v: 0,
        },
    ]
}

impl Quad {
    /// The four vertices that present this quad, in draw order.
    pub fn vertices(&self) -> (v: Vec<QuadVertex>)
        ensures
            v@ == spec_vertices(*self),
    {
        let hx = self.scaled_width as i64;
        let hy = self.scaled_height as i64;
        let ww = self.window_width;
        let wh = self.window_height;
        let mut v: Vec<QuadVertex> = Vec::new();
        v.push(
            QuadVertex {
                x: NdcCoord { num: -hx, den: ww },
                y: NdcCoord { num: -hy, den: wh },
                u: 0,
                v: 1,
            },
        );
        v.push(
            QuadVertex {
                x: NdcCoord { num: hx, den: ww },
                y: NdcCoord { num: -hy, den: wh },
                u: 1,
                v: 1,
            },
        );
        v.push(
            QuadVertex { x: NdcCoord { num: hx, den: ww }, y: NdcCoord { num: hy, den: wh }, u: 1, v: 0 },
        );
        v.push(
            QuadVertex {
                x: NdcCoord { num: -hx, den: ww },
                y: NdcCoord { num: hy, den: wh },
                u: 0,
                v: 0,
            },
        );
        proof {
            assert(v@ =~= spec_vertices(*self));
        }
        v
    }
}

/// The vertices in use before the first resize: the full-bleed quad whose
/// corners sit exactly on the window edges.
pub open spec fn spec_initial_vertices() -> Seq<QuadVertex> {
    spec_vertices(
        Quad { zoom: 1, scaled_width: 1, scaled_height: 1, window_width: 1, window_height: 1 },
    )
}

/// The vertex list a surface starts with: the full-bleed quad, corners at
/// positions of magnitude one.
pub fn initial_vertices() -> (v: Vec<QuadVertex>)
    ensures
        v@ == spec_initial_vertices(),
{
    let q = Quad { zoom: 1, scaled_width: 1, scaled_height: 1, window_width: 1, window_height: 1 };
    q.vertices()
}

/// The fixed index list describing the quad's two triangles.
pub fn quad_indices() -> (idx: Vec<u16>)
    ensures
        idx@ == seq![0u16, 1u16, 2u16, 2u16, 3u16, 0u16],
{
    let mut idx: Vec<u16> = Vec::new();
    idx.push(0);
    idx.push(1);
    idx.push(2);
    idx.push(2);
    idx.push(3);
    idx.push(0);
    proof {
        assert(idx@ =~= seq![0u16, 1u16, 2u16, 2u16, 3u16, 0u16]);
    }
    idx
}

/// For positive bitmap and window sizes the zoom factor is a non-negative
/// integer and each half-extent is at most one: the scaled size never
/// exceeds the window size.
pub proof fn lemma_half_extents_bounded(bitmap_w: int, bitmap_h: int, window_w: int, window_h: int)
    requires
        0 < bitmap_w <= u32::MAX,
        0 < bitmap_h <= u32::MAX,
        0 < window_w <= u32::MAX,
        0 < window_h <= u32::MAX,
    ensures
        spec_zoom(bitmap_w, bitmap_h, window_w, window_h) >= 0,
        Quad::spec_of(bitmap_w, bitmap_h, window_w, window_h).within_window(),
{
    let z = spec_zoom(bitmap_w, bitmap_h, window_w, window_h);
    lemma_div_bounds(window_w, bitmap_w);
    lemma_div_bounds(window_h, bitmap_h);
    lemma_scaled_fits(bitmap_w, window_w, z);
    lemma_scaled_fits(bitmap_h, window_h, z);
}

/// A non-negative numerator divided by a positive denominator lies between
/// zero and the numerator.
proof fn lemma_div_bounds(w: int, b: int)
    by (nonlinear_arith)
    requires
        b > 0,
        w >= 0,
    ensures
        0 <= w / b <= w,
{
}

/// The geometry computation is deterministic: identical inputs yield
/// identical quads, and with them identical vertices.
pub proof fn lemma_geometry_idempotent(
    bw1: int,
    bh1: int,
    ww1: int,
    wh1: int,
    bw2: int,
    bh2: int,
    ww2: int,
    wh2: int,
)
    requires
        bw1 == bw2,
        bh1 == bh2,
        ww1 == ww2,
        wh1 == wh2,
    ensures
        Quad::spec_of(bw1, bh1, ww1, wh1) == Quad::spec_of(bw2, bh2, ww2, wh2),
        spec_vertices(Quad::spec_of(bw1, bh1, ww1, wh1)) == spec_vertices(
            Quad::spec_of(bw2, bh2, ww2, wh2),
        ),
{
}

/// A window strictly smaller than the bitmap in both directions yields zoom
/// zero: the quad degenerates to a point, with no division by zero and no
/// failure.
pub proof fn lemma_small_window_degenerates(
    bitmap_w: int,
    bitmap_h: int,
    window_w: int,
    window_h: int,
)
    requires
        0 < window_w < bitmap_w,
        0 < window_h < bitmap_h,
    ensures
        spec_zoom(bitmap_w, bitmap_h, window_w, window_h) == 0,
        Quad::spec_of(bitmap_w, bitmap_h, window_w, window_h).scaled_width == 0,
        Quad::spec_of(bitmap_w, bitmap_h, window_w, window_h).scaled_height == 0,
{
    lemma_basic_div(window_w, bitmap_w);
    lemma_basic_div(window_h, bitmap_h);
}

} // verus!
