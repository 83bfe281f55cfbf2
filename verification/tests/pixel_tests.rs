use gifcap::pixel::{bgra_to_rgba, PixelBuffer};

#[test]
fn from_raw_checks_byte_count() {
    assert!(PixelBuffer::from_raw(2, 2, vec![0u8; 16]).is_some());
    assert!(PixelBuffer::from_raw(2, 2, vec![0u8; 15]).is_none());
    assert!(PixelBuffer::from_raw(2, 2, vec![0u8; 17]).is_none());
    let b = PixelBuffer::from_raw(3, 1, vec![7u8; 12]).unwrap();
    assert_eq!(b.width(), 3);
    assert_eq!(b.height(), 1);
}

#[test]
fn bgra_swizzle_swaps_red_and_blue() {
    let mut data = vec![1u8, 2, 3, 4, 5, 6, 7, 8];
    bgra_to_rgba(&mut data);
    assert_eq!(data, vec![3u8, 2, 1, 255, 7, 6, 5, 255]);
}

#[test]
fn bgra_swizzle_forces_alpha_opaque() {
    let mut data = vec![0u8, 0, 0, 0, 10, 20, 30, 0, 1, 1, 1, 128];
    bgra_to_rgba(&mut data);
    assert_eq!(data[3], 255);
    assert_eq!(data[7], 255);
    assert_eq!(data[11], 255);
}

#[test]
fn bgra_swizzle_leaves_trailing_partial_pixel() {
    let mut data = vec![1u8, 2, 3, 4, 9, 8];
    bgra_to_rgba(&mut data);
    assert_eq!(data, vec![3u8, 2, 1, 255, 9, 8]);
}

#[test]
fn crop_copies_the_subrectangle() {
    // 3 wide, 2 high; pixel (x, y) holds bytes (10x + y) .. +3.
    let mut data = Vec::new();
    for y in 0..2u8 {
        for x in 0..3u8 {
            let v = 10 * x + y;
            data.extend_from_slice(&[v, v + 1, v + 2, 255]);
        }
    }
    let buf = PixelBuffer::from_raw(3, 2, data).unwrap();
    let out = buf.crop(1, 0, 2, 2);
    assert_eq!(out.width(), 2);
    assert_eq!(out.height(), 2);
    assert_eq!(out.get_pixel(0, 0), (10, 11, 12, 255));
    assert_eq!(out.get_pixel(1, 0), (20, 21, 22, 255));
    assert_eq!(out.get_pixel(0, 1), (11, 12, 13, 255));
    assert_eq!(out.get_pixel(1, 1), (21, 22, 23, 255));
}

#[test]
fn put_and_get_pixel() {
    let mut buf = PixelBuffer::from_raw(2, 2, vec![0u8; 16]).unwrap();
    buf.put_pixel(1, 0, (9, 8, 7, 6));
    assert_eq!(buf.get_pixel(1, 0), (9, 8, 7, 6));
    assert_eq!(buf.get_pixel(0, 0), (0, 0, 0, 0));
    assert_eq!(buf.get_pixel(1, 1), (0, 0, 0, 0));
}

#[test]
fn to_bytes_round_trips() {
    let data = vec![1u8, 2, 3, 4];
    let buf = PixelBuffer::from_raw(1, 1, data.clone()).unwrap();
    assert_eq!(buf.to_bytes(), data);
}
