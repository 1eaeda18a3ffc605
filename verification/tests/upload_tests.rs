use zxpresent::upload::{pad_rows, padded_stride};

#[test]
fn stride_rounds_up_to_the_alignment_quantum() {
    assert_eq!(padded_stride(1), 256);
    assert_eq!(padded_stride(255), 256);
    assert_eq!(padded_stride(256), 256);
    assert_eq!(padded_stride(257), 512);
    assert_eq!(padded_stride(320), 512);
    assert_eq!(padded_stride(512), 512);
    assert_eq!(padded_stride(1024), 1024);
}

#[test]
fn padded_rows_copy_each_source_row_exactly() {
    // A 5x3 bitmap whose width is no multiple of the alignment quantum.
    let width = 5u32;
    let height = 3u32;
    let mut pixels = Vec::new();
    for y in 0..height {
        for x in 0..width {
            pixels.push((10 * y + x) as u8);
        }
    }
    let buf = pad_rows(&pixels, width, height);
    let stride = padded_stride(width) as usize;
    assert_eq!(stride, 256);
    assert_eq!(buf.len(), stride * height as usize);
    for y in 0..height as usize {
        let row = &buf[y * stride..(y + 1) * stride];
        assert_eq!(&row[..width as usize], &pixels[y * width as usize..(y + 1) * width as usize]);
        assert!(row[width as usize..].iter().all(|&b| b == 0));
    }
}

#[test]
fn aligned_width_needs_no_padding() {
    let width = 256u32;
    let height = 2u32;
    let pixels: Vec<u8> = (0..width * height).map(|i| (i % 251) as u8).collect();
    let buf = pad_rows(&pixels, width, height);
    assert_eq!(buf, pixels);
}
