use custom_cursor::pixel::{pack_argb, rgba_to_bgra, Pixel};

#[test]
fn pixel_exchanges_red_and_blue() {
    let mut pixel = Pixel { r: 1, g: 2, b: 3, a: 4 };
    pixel.convert_to_bgra();
    assert_eq!(pixel, Pixel { r: 3, g: 2, b: 1, a: 4 });
    pixel.convert_to_bgra();
    assert_eq!(pixel, Pixel { r: 1, g: 2, b: 3, a: 4 });
}

#[test]
fn buffer_exchanges_red_and_blue_of_every_pixel() {
    let mut bytes = vec![1, 2, 3, 4, 5, 6, 7, 8, 9, 10, 11, 12];
    rgba_to_bgra(&mut bytes);
    assert_eq!(bytes, vec![3, 2, 1, 4, 7, 6, 5, 8, 11, 10, 9, 12]);
}

#[test]
fn red_pixels_become_blue_first() {
    let mut bytes = Vec::new();
    for _ in 0..4 {
        bytes.extend_from_slice(&[0xFF, 0, 0, 0xFF]);
    }
    rgba_to_bgra(&mut bytes);
    let mut expected = Vec::new();
    for _ in 0..4 {
        expected.extend_from_slice(&[0, 0, 0xFF, 0xFF]);
    }
    assert_eq!(bytes, expected);
}

#[test]
fn bytes_after_the_last_whole_pixel_stay() {
    let mut bytes = vec![1, 2, 3, 4, 5, 6, 7];
    rgba_to_bgra(&mut bytes);
    assert_eq!(bytes, vec![3, 2, 1, 4, 5, 6, 7]);
    let mut short = vec![1, 2, 3];
    rgba_to_bgra(&mut short);
    assert_eq!(short, vec![1, 2, 3]);
    let mut empty: Vec<u8> = Vec::new();
    rgba_to_bgra(&mut empty);
    assert!(empty.is_empty());
}

#[test]
fn exchanging_twice_gives_the_buffer_back() {
    let original: Vec<u8> = (0u8..=254).collect();
    let mut bytes = original.clone();
    rgba_to_bgra(&mut bytes);
    assert_ne!(bytes, original);
    rgba_to_bgra(&mut bytes);
    assert_eq!(bytes, original);
}

#[test]
fn bgra_bytes_pack_into_argb_words() {
    // blue 0x11, green 0x22, red 0x33, alpha 0x44
    assert_eq!(pack_argb(&[0x11, 0x22, 0x33, 0x44]), vec![0x4433_2211]);
    assert_eq!(pack_argb(&[0, 0, 0xFF, 0xFF]), vec![0xFFFF_0000]);
    assert_eq!(pack_argb(&[0xFF, 0, 0, 0]), vec![0x0000_00FF]);
    assert_eq!(pack_argb(&[0, 0, 0, 0xFF]), vec![0xFF00_0000]);
    assert_eq!(pack_argb(&[0xFF, 0xFF, 0xFF, 0xFF]), vec![0xFFFF_FFFF]);
    assert_eq!(
        pack_argb(&[1, 2, 3, 4, 5, 6, 7, 8]),
        vec![0x0403_0201, 0x0807_0605]
    );
}

#[test]
fn packing_ignores_an_unfinished_pixel() {
    assert_eq!(pack_argb(&[1, 2, 3, 4, 5, 6]), vec![0x0403_0201]);
    assert!(pack_argb(&[1, 2, 3]).is_empty());
    assert!(pack_argb(&[]).is_empty());
}

#[test]
fn packed_words_are_the_little_endian_words_of_the_bytes() {
    let bytes: Vec<u8> = (0u8..64).map(|i| i.wrapping_mul(37)).collect();
    let words = pack_argb(&bytes);
    assert_eq!(words.len(), 16);
    for (i, word) in words.iter().enumerate() {
        let chunk = [bytes[4 * i], bytes[4 * i + 1], bytes[4 * i + 2], bytes[4 * i + 3]];
        assert_eq!(*word, u32::from_le_bytes(chunk));
    }
}
