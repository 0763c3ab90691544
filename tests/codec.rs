use clip_tray::image::{
    decode_png_to_rgba, encode_rgba_to_png, png_dimensions, rgba_from_frame, CodecError, PngFrame,
    COLOR_GRAY, COLOR_GRAY_ALPHA, COLOR_INDEXED, COLOR_RGB, COLOR_RGBA,
};

fn png_of(samples: &[u8], width: u32, height: u32, color: png::ColorType, depth: png::BitDepth) -> Vec<u8> {
    let mut out = Vec::new();
    {
        let mut encoder = png::Encoder::new(&mut out, width, height);
        encoder.set_color(color);
        encoder.set_depth(depth);
        if color == png::ColorType::Indexed {
            encoder.set_palette(vec![255u8, 0, 0, 0, 255, 0]);
        }
        let mut writer = encoder.write_header().unwrap();
        writer.write_image_data(samples).unwrap();
    }
    out
}

#[test]
fn rgba_round_trip_is_exact() {
    let rgba: Vec<u8> = (0u8..24).collect();
    let png = encode_rgba_to_png(&rgba, 3, 2).ok().unwrap();
    let img = decode_png_to_rgba(&png).ok().unwrap();
    assert_eq!(img.bytes, rgba);
    assert_eq!((img.width, img.height), (3, 2));
}

#[test]
fn encoding_is_deterministic() {
    let rgba = vec![9u8, 8, 7, 6, 5, 4, 3, 2];
    let a = encode_rgba_to_png(&rgba, 2, 1).ok().unwrap();
    let b = encode_rgba_to_png(&rgba, 2, 1).ok().unwrap();
    assert_eq!(a, b);
    assert_eq!(&a[..8], &[137u8, 80, 78, 71, 13, 10, 26, 10]);
}

#[test]
fn encode_rejects_wrong_length() {
    assert!(matches!(encode_rgba_to_png(&[1, 2, 3], 1, 1), Err(CodecError::SizeMismatch)));
    assert!(matches!(encode_rgba_to_png(&[0; 8], 1, 1), Err(CodecError::SizeMismatch)));
}

#[test]
fn encode_rejects_zero_size() {
    assert!(matches!(encode_rgba_to_png(&[], 0, 5), Err(CodecError::Png(_))));
    assert!(matches!(encode_rgba_to_png(&[], 5, 0), Err(CodecError::Png(_))));
}

#[test]
fn gray_pixel_becomes_opaque_gray() {
    let png = png_of(&[77], 1, 1, png::ColorType::Grayscale, png::BitDepth::Eight);
    let img = decode_png_to_rgba(&png).ok().unwrap();
    assert_eq!(img.bytes, vec![77, 77, 77, 255]);
    assert_eq!((img.width, img.height), (1, 1));
}

#[test]
fn rgb_pixels_gain_opaque_alpha() {
    let png = png_of(&[10, 20, 30, 40, 50, 60], 2, 1, png::ColorType::Rgb, png::BitDepth::Eight);
    let img = decode_png_to_rgba(&png).ok().unwrap();
    assert_eq!(img.bytes, vec![10, 20, 30, 255, 40, 50, 60, 255]);
}

#[test]
fn gray_alpha_keeps_alpha() {
    let png = png_of(&[5, 6, 200, 0], 1, 2, png::ColorType::GrayscaleAlpha, png::BitDepth::Eight);
    let img = decode_png_to_rgba(&png).ok().unwrap();
    assert_eq!(img.bytes, vec![5, 5, 5, 6, 200, 200, 200, 0]);
    assert_eq!((img.width, img.height), (1, 2));
}

#[test]
fn indexed_png_is_refused() {
    let png = png_of(&[0, 1], 2, 1, png::ColorType::Indexed, png::BitDepth::Eight);
    let err = decode_png_to_rgba(&png).err().unwrap();
    assert!(matches!(err, CodecError::UnsupportedColor(3)));
    assert_eq!(err.message(), "Indexed PNG not supported");
}

#[test]
fn sixteen_bit_png_is_refused() {
    let png = png_of(&[0; 8], 1, 1, png::ColorType::Rgba, png::BitDepth::Sixteen);
    assert!(matches!(decode_png_to_rgba(&png), Err(CodecError::UnsupportedDepth(16))));
}

#[test]
fn garbage_is_a_png_error() {
    assert!(matches!(decode_png_to_rgba(b"not a png"), Err(CodecError::Png(_))));
    assert!(matches!(decode_png_to_rgba(&[]), Err(CodecError::Png(_))));
}

#[test]
fn dimensions_come_from_the_header() {
    let png = encode_rgba_to_png(&[0; 4 * 6], 2, 3).ok().unwrap();
    assert_eq!(png_dimensions(&png).ok().unwrap(), (2, 3));
    assert!(png_dimensions(b"xyz").is_err());
}

#[test]
fn frame_conversion_checks_in_order() {
    let frame = |samples: Vec<u8>, color: u8, depth: u8| PngFrame { samples, width: 1, height: 1, color, depth };
    assert!(matches!(rgba_from_frame(frame(vec![1], COLOR_INDEXED, 16)), Err(CodecError::UnsupportedColor(3))));
    assert!(matches!(rgba_from_frame(frame(vec![1], 5, 8)), Err(CodecError::UnsupportedColor(5))));
    assert!(matches!(rgba_from_frame(frame(vec![1, 2], COLOR_GRAY, 16)), Err(CodecError::UnsupportedDepth(16))));
    assert!(matches!(rgba_from_frame(frame(vec![1, 2], COLOR_GRAY, 8)), Err(CodecError::SizeMismatch)));
    let img = rgba_from_frame(frame(vec![1, 2, 3], COLOR_RGB, 8)).ok().unwrap();
    assert_eq!(img.bytes, vec![1, 2, 3, 255]);
    let img = rgba_from_frame(frame(vec![4, 3, 2, 1], COLOR_RGBA, 8)).ok().unwrap();
    assert_eq!(img.bytes, vec![4, 3, 2, 1]);
    let img = rgba_from_frame(frame(vec![9, 8], COLOR_GRAY_ALPHA, 8)).ok().unwrap();
    assert_eq!(img.bytes, vec![9, 9, 9, 8]);
}

#[test]
fn empty_image_frame_converts_to_nothing() {
    let f = PngFrame { samples: vec![], width: 0, height: 7, color: COLOR_GRAY, depth: 8 };
    let img = rgba_from_frame(f).ok().unwrap();
    assert!(img.bytes.is_empty());
    assert_eq!((img.width, img.height), (0, 7));
}
