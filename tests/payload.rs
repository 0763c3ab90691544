use clip_tray::image::encode_rgba_to_png;
use clip_tray::payload::{payload_from_png, payload_from_rgba, png_from_payload, rgba_from_payload};

#[test]
fn base64_decodes_exactly() {
    assert_eq!(png_from_payload("aGVsbG8=").ok().unwrap(), b"hello".to_vec());
    assert_eq!(png_from_payload("").ok().unwrap(), Vec::<u8>::new());
}

#[test]
fn invalid_base64_is_reported() {
    let err = png_from_payload("###").unwrap_err();
    assert!(err.starts_with("Failed to decode base64 image: "));
}

#[test]
fn rgba_payload_round_trip() {
    let rgba: Vec<u8> = (100u8..116).collect();
    let p = payload_from_rgba(&rgba, 2, 2).ok().unwrap();
    assert_eq!((p.width, p.height), (2, 2));
    assert!(p.data.starts_with("iVBORw0KGgo"));
    let img = rgba_from_payload(&p.data).ok().unwrap();
    assert_eq!(img.bytes, rgba);
    assert_eq!((img.width, img.height), (2, 2));
}

#[test]
fn png_payload_keeps_the_bytes() {
    let png = encode_rgba_to_png(&[1, 2, 3, 4], 1, 1).ok().unwrap();
    let p = payload_from_png(&png).ok().unwrap();
    assert_eq!((p.width, p.height), (1, 1));
    assert_eq!(png_from_payload(&p.data).ok().unwrap(), png);
}

#[test]
fn payload_errors() {
    assert!(payload_from_png(b"nope").unwrap_err().starts_with("Failed to decode PNG: "));
    assert_eq!(
        payload_from_rgba(&[1, 2], 1, 1).err().unwrap(),
        "Failed to encode image as PNG: Pixel data does not match the image size"
    );
    assert!(rgba_from_payload("aGVsbG8=").unwrap_err().starts_with("Failed to decode PNG: "));
}
