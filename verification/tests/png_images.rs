use libghostty_vt::ghostling::setup::PngDecoder;
use libghostty_vt::kitty::graphics::{
    decode_for_engine, set_png_decoder, DecodePng, InstalledDecoder, RustPngDecoder,
};
use libghostty_vt::png_image::{decode, to_rgba8, ALPHA, RGBA8, STRIP_16};
use libghostty_vt::sys::{decode_with_png_crate, SysImage};
use png::{BitDepth, ColorType, Transformations};

fn encoded(width: u32, height: u32, color: ColorType, depth: BitDepth, data: &[u8]) -> Vec<u8> {
    let mut out = Vec::new();
    let mut encoder = png::Encoder::new(&mut out, width, height);
    encoder.set_color(color);
    encoder.set_depth(depth);
    if color == ColorType::Indexed {
        encoder.set_palette(vec![10, 20, 30, 40, 50, 60]);
    }
    let mut writer = encoder.write_header().unwrap();
    writer.write_image_data(data).unwrap();
    writer.finish().unwrap();
    out
}

fn pixels(png: &[u8]) -> (u32, u32, Vec<u8>) {
    let image = decode_with_png_crate(png).unwrap();
    (image.width, image.height, image.data)
}

#[test]
fn the_transformations_are_those_of_the_png_crate() {
    assert_eq!(ALPHA, Transformations::ALPHA.bits());
    assert_eq!(STRIP_16, Transformations::STRIP_16.bits());
    assert_eq!(RGBA8, ALPHA | STRIP_16);
}

#[test]
fn rgba_images_come_out_as_they_are() {
    let data = [1, 2, 3, 4, 5, 6, 7, 8];
    let png = encoded(2, 1, ColorType::Rgba, BitDepth::Eight, &data);
    assert_eq!(pixels(&png), (2, 1, data.to_vec()));
}

#[test]
fn rgb_images_become_opaque() {
    let png = encoded(1, 2, ColorType::Rgb, BitDepth::Eight, &[1, 2, 3, 4, 5, 6]);
    assert_eq!(pixels(&png), (1, 2, vec![1, 2, 3, 255, 4, 5, 6, 255]));
}

#[test]
fn gray_images_are_expanded() {
    let png = encoded(2, 1, ColorType::Grayscale, BitDepth::Eight, &[7, 9]);
    assert_eq!(pixels(&png), (2, 1, vec![7, 7, 7, 255, 9, 9, 9, 255]));
    let png = encoded(1, 1, ColorType::GrayscaleAlpha, BitDepth::Eight, &[7, 100]);
    assert_eq!(pixels(&png), (1, 1, vec![7, 7, 7, 100]));
    let png = encoded(8, 1, ColorType::Grayscale, BitDepth::One, &[0b1000_0001]);
    let (width, height, data) = pixels(&png);
    assert_eq!((width, height, data.len()), (8, 1, 32));
    assert_eq!(&data[..8], &[255, 255, 255, 255, 0, 0, 0, 255]);
    assert_eq!(&data[28..], &[255, 255, 255, 255]);
}

#[test]
fn palettes_are_expanded() {
    let png = encoded(2, 1, ColorType::Indexed, BitDepth::Eight, &[1, 0]);
    assert_eq!(pixels(&png), (2, 1, vec![40, 50, 60, 255, 10, 20, 30, 255]));
}

#[test]
fn sixteen_bits_are_stripped() {
    let data = [0x12, 0x34, 0x56, 0x78, 0x9a, 0xbc, 0xde, 0xf0];
    let png = encoded(1, 1, ColorType::Rgba, BitDepth::Sixteen, &data);
    assert_eq!(pixels(&png), (1, 1, vec![0x12, 0x56, 0x9a, 0xde]));
}

#[test]
fn broken_images_are_refused() {
    assert!(decode_with_png_crate(b"").is_none());
    assert!(decode_with_png_crate(b"not a png at all").is_none());
    let png = encoded(2, 1, ColorType::Rgba, BitDepth::Eight, &[1; 8]);
    for len in 0..png.len() - 12 {
        assert!(decode_with_png_crate(&png[..len]).is_none(), "{len}");
    }
    let mut broken = png.clone();
    broken[20] ^= 1;
    assert!(decode_with_png_crate(&broken).is_none());
}

#[test]
fn the_working_space_does_not_show() {
    let large = encoded(2, 2, ColorType::Rgba, BitDepth::Eight, &[9; 16]);
    let small = encoded(1, 1, ColorType::Grayscale, BitDepth::Eight, &[3]);
    let mut buf = vec![77; 5];
    assert_eq!(decode(&large, &mut buf).unwrap().data, [9; 16]);
    assert_eq!(decode(&small, &mut buf).unwrap().data, [3, 3, 3, 255]);
    assert!(decode(b"", &mut buf).is_none());
    assert_eq!(decode(&large, &mut buf).unwrap().data, [9; 16]);
}

#[test]
fn a_decoder_can_be_used_again() {
    let mut decoder = RustPngDecoder::new();
    for side in [1u32, 3, 2] {
        let data = vec![side as u8; (side * side * 3) as usize];
        let png = encoded(side, side, ColorType::Rgb, BitDepth::Eight, &data);
        let image = decoder.decode_png(&png).unwrap();
        assert_eq!((image.width, image.height), (side, side));
        assert_eq!(image.data.len(), (side * side * 4) as usize);
        assert_eq!(&image.data[..4], &[side as u8, side as u8, side as u8, 255]);
    }
    assert!(decoder.decode_png(b"nothing").is_none());
}

#[test]
fn the_engine_gets_rgba_pixels() {
    let png = encoded(1, 1, ColorType::Grayscale, BitDepth::Eight, &[8]);
    let mut installed = InstalledDecoder::new();
    let decoder = RustPngDecoder::new();
    assert_eq!(set_png_decoder(&mut installed, Some(decoder), |_, _| 0), Ok(()));
    let out = decode_for_engine(&mut installed, &png, |pixels| {
        assert_eq!(pixels, &[8, 8, 8, 255]);
        0x40
    });
    assert_eq!(out, Some(SysImage { width: 1, height: 1, data: 0x40, data_len: 4 }));
}

#[test]
fn gray_pixels_stand_for_three_colors() {
    assert_eq!(to_rgba8(&[5, 6, 7, 8], 2), [5, 5, 5, 6, 7, 7, 7, 8]);
    assert_eq!(to_rgba8(&[5, 6, 7, 8], 4), [5, 6, 7, 8]);
    assert!(to_rgba8(&[], 2).is_empty());
}

#[test]
fn macroquad_decodes_to_rgba() {
    let mut decoder = PngDecoder;
    let png = encoded(1, 2, ColorType::Rgb, BitDepth::Eight, &[1, 2, 3, 4, 5, 6]);
    let image = decoder.decode_png(&png).unwrap();
    assert_eq!((image.width, image.height), (1, 2));
    assert_eq!(image.data, [1, 2, 3, 255, 4, 5, 6, 255]);
    assert!(decoder.decode_png(b"not a png").is_none());
}
