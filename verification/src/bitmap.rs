//! The indexed bitmap, and the palettization that turns a direct-color image
//! into one: each pixel becomes the index of its color in a palette built on
//! first encounter, in pixel order.

use vstd::prelude::*;
use crate::palette::Rgba;
use crate::palette::spec_entries_of;

verus! {

/// An image whose pixels are palette indices: one byte per pixel, row-major.
pub struct IndexedBitmap {
    /// Width in pixels.
    pub width: u32,
    /// Height in pixels.
    pub height: u32,
    /// The pixel bytes, row-major, one palette index each.
    pub pixels: Vec<u8>,
}

impl IndexedBitmap {
    /// A bitmap holds exactly one byte per pixel and has no zero side.
    pub open spec fn wf(self) -> bool {
        &&& self.width > 0
        &&& self.height > 0
        &&& self.pixels@.len() == self.width * self.height
    }

    /// Wrap loaded pixel data; a zero-sided image is rejected before the
    /// render loop is entered.
    pub fn new(width: u32, height: u32, pixels: Vec<u8>) -> (b: IndexedBitmap)
        requires
            width > 0,
            height > 0,
            pixels@.len() == width * height,
        ensures
            b.wf(),
            b.width == width,
            b.height == height,
            b.pixels == pixels,
    {
        IndexedBitmap { width, height, pixels }
    }
}

/// The index of the first occurrence of `c` in `pal`, or -1 when absent.
pub open spec fn first_index(pal: Seq<Rgba>, c: Rgba) -> int
    decreases pal.len(),
{
    if pal.len() == 0 {
        -1
    } else if pal[0] == c {
        0
    } else if first_index(pal.drop_first(), c) == -1 {
        -1
    } else {
        1 + first_index(pal.drop_first(), c)
    }
}

/// Palettize a pixel sequence: each pixel maps to the index of its color in
/// the palette at that moment, truncated to a byte; an unseen color is
/// appended to the palette first.
pub open spec fn spec_palettize(pixels: Seq<Rgba>) -> (Seq<u8>, Seq<Rgba>)
    decreases pixels.len(),
{
    if pixels.len() == 0 {
        (Seq::<u8>::empty(), Seq::<Rgba>::empty())
    } else {
        let prev = spec_palettize(pixels.drop_last());
        let c = pixels.last();
        let idx = first_index(prev.1, c);
        if idx >= 0 {
            (prev.0.push((idx % 256) as u8), prev.1)
        } else {
            (prev.0.push((prev.1.len() % 256) as u8), prev.1.push(c))
        }
    }
}

/// When `c` first occurs at `j`, `first_index` says so.
proof fn lemma_first_index_found(pal: Seq<Rgba>, c: Rgba, j: int)
    requires
        0 <= j < pal.len(),
        pal[j] == c,
        forall|m: int| 0 <= m < j ==> pal[m] != c,
    ensures
        first_index(pal, c) == j,
    decreases pal.len(),
{
    if j > 0 {
        lemma_first_index_found(pal.drop_first(), c, j - 1);
    }
}

/// A found first index lies in the palette and names the color.
proof fn lemma_first_index_valid(pal: Seq<Rgba>, c: Rgba)
    requires
        first_index(pal, c) >= 0,
    ensures
        0 <= first_index(pal, c) < pal.len(),
        pal[first_index(pal, c)] == c,
    decreases pal.len(),
{
    if pal.len() > 0 && pal[0] != c {
        lemma_first_index_valid(pal.drop_first(), c);
    }
}

/// While at most 256 distinct colors have been seen, palettization is
/// lossless: there is one index byte per pixel, and each resolves through
/// the palette to exactly the pixel's color.
pub proof fn lemma_palettize_resolves(pixels: Seq<Rgba>)
    requires
        spec_palettize(pixels).1.len() <= 256,
    ensures
        spec_palettize(pixels).0.len() == pixels.len(),
        forall|i: int|
            0 <= i < pixels.len() ==> #[trigger] spec_palettize(pixels).0[i] < spec_palettize(
                pixels,
            ).1.len() && spec_palettize(pixels).1[spec_palettize(pixels).0[i] as int] == pixels[i],
    decreases pixels.len(),
{
    if pixels.len() > 0 {
        let prev = spec_palettize(pixels.drop_last());
        let c = pixels.last();
        let idx = first_index(prev.1, c);
        lemma_palettize_resolves(pixels.drop_last());
        if idx >= 0 {
            lemma_first_index_valid(prev.1, c);
        }
    }
}

/// When `c` occurs nowhere in `pal`, `first_index` is -1.
proof fn lemma_first_index_absent(pal: Seq<Rgba>, c: Rgba)
    requires
        forall|m: int| 0 <= m < pal.len() ==> pal[m] != c,
    ensures
        first_index(pal, c) == -1,
    decreases pal.len(),
{
    if pal.len() > 0 {
        lemma_first_index_absent(pal.drop_first(), c);
    }
}

/// Find the first occurrence of `c` in the palette built so far.
fn find_color(pal: &Vec<Rgba>, c: Rgba) -> (r: Option<usize>)
    ensures
        match r {
            Some(j) => 0 <= j < pal@.len() && first_index(pal@, c) == j,
            None => first_index(pal@, c) == -1,
        },
{
    let n = pal.len();
    let mut j: usize = 0;
    while j < n
        invariant
            n == pal@.len(),
            j <= n,
            forall|m: int| 0 <= m < j ==> pal@[m] != c,
        decreases n - j,
    {
        if pal[j] == c {
            proof {
                lemma_first_index_found(pal@, c, j as int);
            }
            return Some(j);
        }
        j = j + 1;
    }
    proof {
        lemma_first_index_absent(pal@, c);
    }
    None
}

/// Palettize a direct-color pixel sequence: returns one index byte per pixel
/// and the palette of distinct colors in order of first appearance. An image
/// of more than 256 distinct colors wraps its indices modulo 256, as the
/// byte-sized pixels force.
pub fn index_pixels(colors: &Vec<Rgba>) -> (r: (Vec<u8>, Vec<Rgba>))
    ensures
        r.0@ == spec_palettize(colors@).0,
        r.1@ == spec_palettize(colors@).1,
        r.0@.len() == colors@.len(),
{
    let mut indices: Vec<u8> = Vec::new();
    let mut pal: Vec<Rgba> = Vec::new();
    let n = colors.len();
    let mut i: usize = 0;
    proof {
        assert(colors@.take(0) =~= Seq::<Rgba>::empty());
    }
    while i < n
        invariant
            n == colors@.len(),
            i <= n,
            indices@ == spec_palettize(colors@.take(i as int)).0,
            pal@ == spec_palettize(colors@.take(i as int)).1,
            indices@.len() == i,
        decreases n - i,
    {
        proof {
            assert(colors@.take(i + 1).drop_last() =~= colors@.take(i as int));
            assert(colors@.take(i + 1).last() == colors@[i as int]);
        }
        let c = colors[i];
        match find_color(&pal, c) {
            Some(j) => {
                indices.push((j % 256) as u8);
            },
            None => {
                indices.push((pal.len() % 256) as u8);
                pal.push(c);
            },
        }
        i = i + 1;
    }
    proof {
        assert(colors@.take(n as int) =~= colors@);
    }
    (indices, pal)
}

/// Read a raw byte buffer of four-byte RGBA pixels as a color sequence, red
/// first within each pixel.
pub fn colors_of_bytes(bytes: &Vec<u8>) -> (colors: Vec<Rgba>)
    requires
        bytes@.len() % 4 == 0,
    ensures
        colors@ == spec_entries_of(bytes@),
        colors@.len() == bytes@.len() / 4,
{
    let n = bytes.len() / 4;
    let mut colors: Vec<Rgba> = Vec::new();
    let mut i: usize = 0;
    while i < n
        invariant
            bytes@.len() == 4 * n,
            4 * n <= usize::MAX,
            i <= n,
            colors@.len() == i,
            forall|k: int| 0 <= k < i ==> colors@[k] == spec_entries_of(bytes@)[k],
        decreases n - i,
    {
        colors.push(Rgba(bytes[4 * i], bytes[4 * i + 1], bytes[4 * i + 2], bytes[4 * i + 3]));
        i = i + 1;
    }
    proof {
        assert(colors@ =~= spec_entries_of(bytes@));
    }
    colors
}

} // verus!
