use zxpresent::bitmap::{colors_of_bytes, index_pixels, IndexedBitmap};
use zxpresent::palette::Rgba;

#[test]
fn index_pixels_assigns_first_seen_indices() {
    let red = Rgba(255, 0, 0, 255);
    let green = Rgba(0, 255, 0, 255);
    let blue = Rgba(0, 0, 255, 255);
    let colors = vec![red, green, red, blue, green, red];
    let (indices, palette) = index_pixels(&colors);
    assert_eq!(indices, vec![0, 1, 0, 2, 1, 0]);
    assert_eq!(palette, vec![red, green, blue]);
}

#[test]
fn index_pixels_of_uniform_image_uses_one_entry() {
    let c = Rgba(1, 2, 3, 4);
    let colors = vec![c; 100];
    let (indices, palette) = index_pixels(&colors);
    assert_eq!(indices, vec![0u8; 100]);
    assert_eq!(palette, vec![c]);
}

#[test]
fn index_pixels_wraps_beyond_256_distinct_colors() {
    // 300 distinct colors: the 257th distinct color lands on index 0 again,
    // as the byte-sized pixel forces.
    let mut colors = Vec::new();
    for i in 0..300u32 {
        colors.push(Rgba((i % 256) as u8, (i / 256) as u8, 0, 255));
    }
    let (indices, palette) = index_pixels(&colors);
    assert_eq!(palette.len(), 300);
    assert_eq!(indices[0], 0);
    assert_eq!(indices[255], 255);
    assert_eq!(indices[256], 0);
    assert_eq!(indices[299], 43);
}

#[test]
fn colors_of_bytes_reads_rgba_in_order() {
    let bytes = vec![1, 2, 3, 4, 5, 6, 7, 8];
    let colors = colors_of_bytes(&bytes);
    assert_eq!(colors, vec![Rgba(1, 2, 3, 4), Rgba(5, 6, 7, 8)]);
}

#[test]
fn palettizing_a_decoded_image_round_trips_through_the_palette() {
    // Decode-like input: raw RGBA bytes of a 2x2 image with two colors.
    let bytes = vec![
        9, 9, 9, 255, 0, 0, 0, 255, //
        9, 9, 9, 255, 9, 9, 9, 255,
    ];
    let colors = colors_of_bytes(&bytes);
    let (indices, palette) = index_pixels(&colors);
    let bitmap = IndexedBitmap::new(2, 2, indices);
    assert_eq!(bitmap.width, 2);
    assert_eq!(bitmap.height, 2);
    assert_eq!(bitmap.pixels, vec![0, 1, 0, 0]);
    // Resolving each index through the palette gives back the source pixels.
    for (i, &idx) in bitmap.pixels.iter().enumerate() {
        assert_eq!(palette[idx as usize], colors[i]);
    }
}
