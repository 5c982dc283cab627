use nztool_oar::icon::load_icon;

/// A 2x1 icon file with one 24-bit BMP entry: the left pixel red, the right pixel blue,
/// and `mask` as the first byte of its AND mask (a set bit makes a pixel transparent).
fn tiny_ico(mask: u8) -> Vec<u8> {
    let pixels: Vec<u8> = vec![0, 0, 255, 255, 0, 0, 0, 0]; // B G R, B G R, padding to 8 bytes
    let and_mask: Vec<u8> = vec![mask, 0, 0, 0]; // one row, padded to 32 bits
    let mut bmp: Vec<u8> = Vec::new();
    bmp.extend_from_slice(&40u32.to_le_bytes());
    bmp.extend_from_slice(&2i32.to_le_bytes());
    bmp.extend_from_slice(&2i32.to_le_bytes()); // twice the height: image and mask
    bmp.extend_from_slice(&1u16.to_le_bytes());
    bmp.extend_from_slice(&24u16.to_le_bytes());
    bmp.extend_from_slice(&[0u8; 24]);
    bmp.extend_from_slice(&pixels);
    bmp.extend_from_slice(&and_mask);

    let mut ico: Vec<u8> = Vec::new();
    ico.extend_from_slice(&0u16.to_le_bytes());
    ico.extend_from_slice(&1u16.to_le_bytes());
    ico.extend_from_slice(&1u16.to_le_bytes());
    ico.extend_from_slice(&[2, 1, 0, 0]);
    ico.extend_from_slice(&1u16.to_le_bytes());
    ico.extend_from_slice(&24u16.to_le_bytes());
    ico.extend_from_slice(&(bmp.len() as u32).to_le_bytes());
    ico.extend_from_slice(&22u32.to_le_bytes());
    ico.extend_from_slice(&bmp);
    ico
}

#[test]
fn icon_pixels_are_decoded_to_rgba() {
    let icon = load_icon(&tiny_ico(0)).expect("a valid icon");
    assert_eq!(icon.width, 2);
    assert_eq!(icon.height, 1);
    assert_eq!(icon.rgba, vec![255, 0, 0, 255, 0, 0, 255, 255]);
}

#[test]
fn icon_mask_makes_pixels_transparent() {
    let icon = load_icon(&tiny_ico(0b0100_0000)).expect("a valid icon");
    assert_eq!(icon.rgba, vec![255, 0, 0, 255, 0, 0, 255, 0]);
}

#[test]
fn bytes_that_are_no_icon_give_no_icon() {
    assert!(load_icon(b"not an image at all").is_none());
    assert!(load_icon(&[]).is_none());
    // A plain BMP file is no icon file.
    let mut bmp: Vec<u8> = b"BM".to_vec();
    bmp.extend_from_slice(&[0u8; 52]);
    assert!(load_icon(&bmp).is_none());
}
