//! Images as the application layer exchanges them: a base64 PNG string with
//! the image's width and height.

use crate::image::{
    decode_png_to_rgba, decode_result, encode_rgba_to_png, png_dimensions, png_rgba8_of,
    png_size_of, CodecError, RgbaImage,
};
use crate::text::join;
use vstd::prelude::*;
use vstd::string::*;

verus! {

/// The standard base64 encoding (with padding) of some bytes.
pub uninterp spec fn base64_of(bytes: Seq<u8>) -> Seq<char>;

/// The bytes that a standard base64 text decodes to; `None` when it is not
/// valid base64.
pub uninterp spec fn base64_bytes_of(text: Seq<char>) -> Option<Seq<u8>>;

/// Relies on base64 0.22's `STANDARD.encode`, which panics only when the
/// length of its output overflows `usize`.
#[verifier::external_body]
fn base64_encode(bytes: &[u8]) -> (r: String)
    requires
        bytes@.len() / 3 * 4 + 4 <= usize::MAX,
    ensures
        r@ == base64_of(bytes@),
{
    base64::Engine::encode(&base64::engine::general_purpose::STANDARD, bytes)
}

/// Relies on base64 0.22's `STANDARD.decode`: the decoded bytes, or its
/// error's description when the text is not valid base64.
#[verifier::external_body]
fn base64_decode(text: &str) -> (r: Result<Vec<u8>, String>)
    ensures
        r matches Ok(b) ==> base64_bytes_of(text@) == Some(b@),
        r is Err ==> base64_bytes_of(text@) is None,
{
    base64::Engine::decode(&base64::engine::general_purpose::STANDARD, text).map_err(
        |e| e.to_string(),
    )
}

/// A PNG image as base64 text, with its width and height.
#[derive(Debug)]
pub struct ImagePayload {
    pub data: String,
    pub width: u32,
    pub height: u32,
}

/// The largest input that base64 can encode here.
pub open spec fn encodable(len: nat) -> bool {
    len / 3 * 4 + 4 <= usize::MAX
}

/// The base64 text of `bytes`, or an error when it would not fit in memory.
fn encode_payload(bytes: &[u8]) -> (r: Result<String, String>)
    ensures
        encodable(bytes@.len()) ==> (r matches Ok(s) && s@ == base64_of(bytes@)),
        !encodable(bytes@.len()) ==> (r matches Err(e) && e@ == "Image too large to encode"@),
{
    if bytes.len() / 3 > (usize::MAX - 4) / 4 {
        return Err(String::from_str("Image too large to encode"));
    }
    Ok(base64_encode(bytes))
}

/// The payload for PNG bytes read from the clipboard: their base64 text and
/// the size that their header gives.
pub fn payload_from_png(png: &[u8]) -> (r: Result<ImagePayload, String>)
    ensures
        match png_size_of(png@) {
            None => r is Err,
            Some(s) => encodable(png@.len()) ==> (r matches Ok(p) && p.data@ == base64_of(png@)
                && p.width == s.0 && p.height == s.1),
        },
{
    let (width, height) = match png_dimensions(png) {
        Ok(s) => s,
        Err(e) => {
            let m = e.message();
            return Err(join("Failed to decode PNG: ", m.as_str()));
        },
    };
    let data = encode_payload(png)?;
    Ok(ImagePayload { data, width, height })
}

/// The payload for RGBA samples read from the clipboard: the base64 text of
/// their PNG encoding, and their size.
pub fn payload_from_rgba(rgba: &[u8], width: u32, height: u32) -> (r: Result<ImagePayload, String>)
    ensures
        !(width > 0 && height > 0 && rgba@.len() == width * height * 4) ==> r is Err,
        width > 0 && height > 0 && rgba@.len() == width * height * 4 && encodable(
            png_rgba8_of(rgba@, width, height).len(),
        ) ==> (r matches Ok(p) && p.data@ == base64_of(png_rgba8_of(rgba@, width, height))
            && p.width == width && p.height == height),
{
    let png = match encode_rgba_to_png(rgba, width, height) {
        Ok(p) => p,
        Err(e) => {
            let m = e.message();
            return Err(join("Failed to encode image as PNG: ", m.as_str()));
        },
    };
    let data = encode_payload(png.as_slice())?;
    Ok(ImagePayload { data, width, height })
}

/// The PNG bytes of a payload's base64 text.
pub fn png_from_payload(data: &str) -> (r: Result<Vec<u8>, String>)
    ensures
        match base64_bytes_of(data@) {
            Some(b) => r matches Ok(v) && v@ == b,
            None => r matches Err(e) && e@.len() >= "Failed to decode base64 image: "@.len()
                && e@.subrange(0, "Failed to decode base64 image: "@.len() as int)
                == "Failed to decode base64 image: "@,
        },
{
    match base64_decode(data) {
        Ok(b) => Ok(b),
        Err(d) => {
            let e = join("Failed to decode base64 image: ", d.as_str());
            assert(e@.subrange(0, "Failed to decode base64 image: "@.len() as int)
                =~= "Failed to decode base64 image: "@);
            Err(e)
        },
    }
}

/// The RGBA samples of a payload: its base64 text decoded, then its PNG.
pub fn rgba_from_payload(data: &str) -> (r: Result<RgbaImage, String>)
    ensures
        match base64_bytes_of(data@) {
            None => r is Err,
            Some(png) => match r {
                Ok(img) => img.wf() && decode_result(png, Ok::<RgbaImage, CodecError>(img)),
                Err(m) => exists|e: CodecError| #[trigger]
                    decode_result(png, Err::<RgbaImage, CodecError>(e)) && m@ == "Failed to decode PNG: "@
                        + e.describe(),
            },
        },
{
    let png = png_from_payload(data)?;
    match decode_png_to_rgba(png.as_slice()) {
        Ok(img) => Ok(img),
        Err(e) => {
            let m = e.message();
            Err(join("Failed to decode PNG: ", m.as_str()))
        },
    }
}

} // verus!
