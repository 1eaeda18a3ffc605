//! Stride-aligned texture upload staging: the bitmap's rows are copied into a
//! buffer whose row stride is rounded up to the backend's alignment quantum,
//! with the pad bytes at the end of each row left zero.

use vstd::prelude::*;

verus! {

/// The backend's minimum row-stride alignment in bytes.
pub const ROW_ALIGNMENT: u32 = 256;

/// `width` rounded up to the next multiple of the alignment quantum.
pub open spec fn spec_padded_stride(width: int) -> int {
    ((width + 255) / 256) * 256
}

/// Round a row width up to the alignment quantum, as the backend requires of
/// the bytes-per-row of a linear copy buffer.
pub fn padded_stride(width: u32) -> (s: u32)
    requires
        width + 255 <= u32::MAX,
    ensures
        s == spec_padded_stride(width as int),
        s % 256 == 0,
        width <= s < width + 256,
{
    ((width + 255) / 256) * 256
}

/// The padded staging buffer holds each source row at its stride offset and
/// nothing else: the pad bytes at the end of each row are zero.
pub open spec fn padded_rows_ok(
    pixels: Seq<u8>,
    width: int,
    height: int,
    stride: int,
    buf: Seq<u8>,
) -> bool {
    &&& buf.len() == stride * height
    &&& forall|y: int, x: int|
        0 <= y < height && 0 <= x < width ==> #[trigger] buf[y * stride + x] == pixels[y * width
            + x]
    &&& forall|y: int, x: int|
        0 <= y < height && width <= x < stride ==> #[trigger] buf[y * stride + x] == 0
}

/// An offset within an earlier row lies below the current row's start.
proof fn lemma_prior_row_index(r: int, c: int, y: int, stride: int)
    by (nonlinear_arith)
    requires
        0 <= r < y,
        0 <= c < stride,
    ensures
        0 <= r * stride + c < y * stride,
{
}

/// Build the stride-aligned staging buffer for a `width` x `height` bitmap:
/// row `y` of `pixels` is copied to offset `y * stride`, and the pad bytes at
/// the end of each row are zero.
pub fn pad_rows(pixels: &Vec<u8>, width: u32, height: u32) -> (buf: Vec<u8>)
    requires
        pixels@.len() == width * height,
        width * height <= usize::MAX,
        width + 255 <= u32::MAX,
        spec_padded_stride(width as int) * height <= usize::MAX,
    ensures
        padded_rows_ok(
            pixels@,
            width as int,
            height as int,
            spec_padded_stride(width as int),
            buf@,
        ),
{
    let stride = padded_stride(width);
    let mut buf: Vec<u8> = Vec::new();
    let mut y: u32 = 0;
    while y < height
        invariant
            pixels@.len() == width * height,
            width * height <= usize::MAX,
            width <= stride < width + 256,
            stride == spec_padded_stride(width as int),
            stride * height <= usize::MAX,
            y <= height,
            buf@.len() == y * stride,
            forall|r: int, c: int|
                0 <= r < y && 0 <= c < width ==> #[trigger] buf@[r * stride + c] == pixels@[r
                    * width + c],
            forall|r: int, c: int|
                0 <= r < y && width <= c < stride ==> #[trigger] buf@[r * stride + c] == 0,
        decreases height - y,
    {
        proof {
            lemma_row_spans(y as int, width as int, height as int, stride as int);
        }
        let src: usize = (y as usize) * (width as usize);
        let mut x: u32 = 0;
        while x < width
            invariant
                pixels@.len() == width * height,
                width * height <= usize::MAX,
                width <= stride,
                y < height,
                src == y * width,
                y * width + width <= pixels@.len(),
                y * stride + stride <= stride * height <= usize::MAX,
                x <= width,
                buf@.len() == y * stride + x,
                forall|c: int| 0 <= c < x ==> #[trigger] buf@[y * stride + c] == pixels@[y * width + c],
                forall|r: int, c: int|
                    0 <= r < y && 0 <= c < width ==> #[trigger] buf@[r * stride + c] == pixels@[r
                        * width + c],
                forall|r: int, c: int|
                    0 <= r < y && width <= c < stride ==> #[trigger] buf@[r * stride + c] == 0,
            decreases width - x,
        {
            let b = pixels[src + (x as usize)];
            buf.push(b);
            x = x + 1;
            proof {
                assert forall|r: int, c: int|
                    0 <= r < y && 0 <= c < width implies #[trigger] buf@[r * stride + c]
                    == pixels@[r * width + c] by {
                    lemma_prior_row_index(r, c, y as int, stride as int);
                }
                assert forall|r: int, c: int|
                    0 <= r < y && width <= c < stride implies #[trigger] buf@[r * stride + c]
                    == 0 by {
                    lemma_prior_row_index(r, c, y as int, stride as int);
                }
            }
        }
        while x < stride
            invariant
                width <= stride,
                y < height,
                y * stride + stride <= stride * height <= usize::MAX,
                width <= x <= stride,
                buf@.len() == y * stride + x,
                forall|c: int| 0 <= c < width ==> #[trigger] buf@[y * stride + c] == pixels@[y * width + c],
                forall|c: int| width <= c < x ==> #[trigger] buf@[y * stride + c] == 0,
                forall|r: int, c: int|
                    0 <= r < y && 0 <= c < width ==> #[trigger] buf@[r * stride + c] == pixels@[r
                        * width + c],
                forall|r: int, c: int|
                    0 <= r < y && width <= c < stride ==> #[trigger] buf@[r * stride + c] == 0,
            decreases stride - x,
        {
            buf.push(0);
            x = x + 1;
            proof {
                assert forall|r: int, c: int|
                    0 <= r < y && 0 <= c < width implies #[trigger] buf@[r * stride + c]
                    == pixels@[r * width + c] by {
                    lemma_prior_row_index(r, c, y as int, stride as int);
                }
                assert forall|r: int, c: int|
                    0 <= r < y && width <= c < stride implies #[trigger] buf@[r * stride + c]
                    == 0 by {
                    lemma_prior_row_index(r, c, y as int, stride as int);
                }
            }
        }
        proof {
            assert((y + 1) * stride == y * stride + stride) by (nonlinear_arith);
        }
        y = y + 1;
    }
    proof {
        assert(buf@.len() == stride * height) by (nonlinear_arith)
            requires
                buf@.len() == y * stride && y == height,
        ;
    }
    buf
}

/// Row `y`'s spans lie inside the source and destination buffers.
proof fn lemma_row_spans(y: int, width: int, height: int, stride: int)
    by (nonlinear_arith)
    requires
        0 <= y < height,
        0 <= width <= stride,
    ensures
        y * width + width <= width * height,
        y * stride + stride <= stride * height,
        y * width >= 0,
        y * stride >= 0,
{
}

} // verus!
