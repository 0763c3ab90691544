//! RGBA pixel buffers and their PNG encoding.
//!
//! The PNG codec itself is the `png` crate's; this module states what it is
//! relied on for and turns any 8-bit frame it decodes into RGBA samples.

use vstd::prelude::*;
use vstd::string::*;

verus! {

/// PNG colour type of a grayscale image (one sample per pixel).
pub const COLOR_GRAY: u8 = 0;

/// PNG colour type of an RGB image (three samples per pixel).
pub const COLOR_RGB: u8 = 2;

/// PNG colour type of a palette image (one palette index per pixel).
pub const COLOR_INDEXED: u8 = 3;

/// PNG colour type of a grayscale image with alpha (two samples per pixel).
pub const COLOR_GRAY_ALPHA: u8 = 4;

/// PNG colour type of an RGBA image (four samples per pixel).
pub const COLOR_RGBA: u8 = 6;

/// What the PNG decoder reads from a byte stream: the samples of its first
/// frame, its width, height, colour type and bit depth; `None` when the
/// decoder rejects the stream.
pub uninterp spec fn png_frame_of(png: Seq<u8>) -> Option<(Seq<u8>, u32, u32, u8, u8)>;

/// What the PNG decoder reads from the header of a byte stream: its width
/// and height; `None` when the decoder rejects the header.
pub uninterp spec fn png_size_of(png: Seq<u8>) -> Option<(u32, u32)>;

/// The byte stream that the PNG encoder writes for 8-bit RGBA samples of the
/// given size.
pub uninterp spec fn png_rgba8_of(rgba: Seq<u8>, width: u32, height: u32) -> Seq<u8>;

/// One decoded PNG frame, as the decoder hands it out.
#[derive(Debug)]
pub struct PngFrame {
    pub samples: Vec<u8>,
    pub width: u32,
    pub height: u32,
    pub color: u8,
    pub depth: u8,
}

impl PngFrame {
    pub open spec fn view_tuple(&self) -> (Seq<u8>, u32, u32, u8, u8) {
        (self.samples@, self.width, self.height, self.color, self.depth)
    }
}

/// An image as 8-bit RGBA samples, row by row.
#[derive(Debug)]
pub struct RgbaImage {
    pub bytes: Vec<u8>,
    pub width: u32,
    pub height: u32,
}

impl RgbaImage {
    /// Four samples for each pixel.
    pub open spec fn wf(&self) -> bool {
        self.bytes@.len() == self.width * self.height * 4
    }
}

/// Why an image could not be converted.
#[derive(Debug)]
pub enum CodecError {
    /// The PNG codec rejected the data; its own description.
    Png(String),
    /// The colour type (palette, or no known PNG type) has no RGBA conversion here.
    UnsupportedColor(u8),
    /// Only 8-bit samples are converted.
    UnsupportedDepth(u8),
    /// The number of samples does not match the width and height.
    SizeMismatch,
}

impl CodecError {
    /// A description of the error for the user.
    pub open spec fn describe(&self) -> Seq<char> {
        match self {
            CodecError::Png(m) => m@,
            CodecError::UnsupportedColor(c) => if *c == COLOR_INDEXED {
                "Indexed PNG not supported"@
            } else {
                "PNG colour type not supported"@
            },
            CodecError::UnsupportedDepth(_) => "Only 8-bit PNG samples are supported"@,
            CodecError::SizeMismatch => "Pixel data does not match the image size"@,
        }
    }

    /// A description of the error for the user.
    pub fn message(&self) -> (r: String)
        ensures
            r@ == self.describe(),
    {
        match self {
            CodecError::Png(m) => m.clone(),
            CodecError::UnsupportedColor(c) => if *c == COLOR_INDEXED {
                String::from_str("Indexed PNG not supported")
            } else {
                String::from_str("PNG colour type not supported")
            },
            CodecError::UnsupportedDepth(_) => String::from_str(
                "Only 8-bit PNG samples are supported",
            ),
            CodecError::SizeMismatch => String::from_str("Pixel data does not match the image size"),
        }
    }
}

/// Relies on png 0.17's `Decoder::new`, `read_info` and `next_frame`, with no
/// transformation: the first frame's samples (the `buffer_size()` bytes that
/// `next_frame` fills), its width, height, colour type and bit depth, as a
/// function of the input bytes. Any error of the decoder is handed back as
/// its description.
#[verifier::external_body]
fn png_read_frame(png: &[u8]) -> (r: Result<PngFrame, String>)
    ensures
        r matches Ok(f) ==> png_frame_of(png@) == Some(f.view_tuple()),
        r is Err ==> png_frame_of(png@) is None,
{
    let decoder = png::Decoder::new(std::io::Cursor::new(png));
    let mut reader = decoder.read_info().map_err(|e| e.to_string())?;
    let mut buf = vec![0; reader.output_buffer_size()];
    let info = reader.next_frame(&mut buf).map_err(|e| e.to_string())?;
    buf.truncate(info.buffer_size());
    Ok(
        PngFrame {
            samples: buf,
            width: info.width,
            height: info.height,
            color: info.color_type as u8,
            depth: info.bit_depth as u8,
        },
    )
}

/// Relies on png 0.17's `Decoder::new` and `read_info`: the width and height
/// that the header gives, as a function of the input bytes.
#[verifier::external_body]
fn png_read_size(png: &[u8]) -> (r: Result<(u32, u32), String>)
    ensures
        r matches Ok(s) ==> png_size_of(png@) == Some(s),
        r is Err ==> png_size_of(png@) is None,
{
    let reader = png::Decoder::new(std::io::Cursor::new(png)).read_info().map_err(
        |e| e.to_string(),
    )?;
    Ok((reader.info().width, reader.info().height))
}

/// Relies on png 0.17's `Encoder` set to `ColorType::Rgba` and
/// `BitDepth::Eight`: `write_header` fails only on a zero width or height,
/// `write_image_data` only when the samples are not `width * height * 4`
/// bytes, and writing into a `Vec` does not fail. The stream is a function of
/// the samples and the size.
#[verifier::external_body]
fn png_write_rgba8(rgba: &[u8], width: u32, height: u32) -> (r: Result<Vec<u8>, String>)
    requires
        width * height * 4 <= usize::MAX,
    ensures
        r is Ok <==> (width > 0 && height > 0 && rgba@.len() == width * height * 4),
        r matches Ok(p) ==> p@ == png_rgba8_of(rgba@, width, height),
{
    let mut out = Vec::new();
    {
        let mut encoder = png::Encoder::new(&mut out, width, height);
        encoder.set_color(png::ColorType::Rgba);
        encoder.set_depth(png::BitDepth::Eight);
        let mut writer = encoder.write_header().map_err(|e| e.to_string())?;
        writer.write_image_data(rgba).map_err(|e| e.to_string())?;
    }
    Ok(out)
}

/// Samples per pixel of a colour type that has an RGBA conversion, else 0.
pub open spec fn channels(color: u8) -> nat {
    if color == COLOR_GRAY {
        1
    } else if color == COLOR_RGB {
        3
    } else if color == COLOR_GRAY_ALPHA {
        2
    } else if color == COLOR_RGBA {
        4
    } else {
        0
    }
}

/// The RGBA samples of pixel `p` of 8-bit `samples` of colour type `color`:
/// gray is copied into red, green and blue, a missing alpha is 255.
pub open spec fn rgba_pixel(samples: Seq<u8>, color: u8, p: int) -> Seq<u8> {
    if color == COLOR_GRAY {
        seq![samples[p], samples[p], samples[p], 255u8]
    } else if color == COLOR_RGB {
        seq![samples[3 * p], samples[3 * p + 1], samples[3 * p + 2], 255u8]
    } else if color == COLOR_GRAY_ALPHA {
        seq![samples[2 * p], samples[2 * p], samples[2 * p], samples[2 * p + 1]]
    } else {
        seq![samples[4 * p], samples[4 * p + 1], samples[4 * p + 2], samples[4 * p + 3]]
    }
}

/// The RGBA samples of the first `n` pixels.
pub open spec fn rgba_pixels(samples: Seq<u8>, color: u8, n: nat) -> Seq<u8>
    decreases n,
{
    if n == 0 {
        seq![]
    } else {
        rgba_pixels(samples, color, (n - 1) as nat) + rgba_pixel(samples, color, n - 1)
    }
}

/// 8-bit samples of colour type `color` as RGBA samples: RGBA is passed
/// through unchanged, the other types pixel by pixel.
pub open spec fn to_rgba(samples: Seq<u8>, color: u8) -> Seq<u8> {
    if color == COLOR_RGBA {
        samples
    } else {
        rgba_pixels(samples, color, samples.len() / channels(color))
    }
}

/// Why a decoded frame has no RGBA conversion, checked in this order:
/// colour type, bit depth, number of samples.
pub open spec fn frame_error(frame: (Seq<u8>, u32, u32, u8, u8)) -> Option<CodecError> {
    let (samples, width, height, color, depth) = frame;
    if channels(color) == 0 {
        Some(CodecError::UnsupportedColor(color))
    } else if depth != 8 {
        Some(CodecError::UnsupportedDepth(depth))
    } else if samples.len() != width * height * channels(color) {
        Some(CodecError::SizeMismatch)
    } else {
        None
    }
}

/// What converting a decoded frame gives: the error of `frame_error`, or the
/// RGBA samples with the frame's size.
pub open spec fn frame_result(frame: (Seq<u8>, u32, u32, u8, u8), r: Result<RgbaImage, CodecError>) -> bool {
    match frame_error(frame) {
        Some(e) => r == Err::<RgbaImage, CodecError>(e),
        None => r matches Ok(img) && img.bytes@ == to_rgba(frame.0, frame.3)
            && img.width == frame.1 && img.height == frame.2,
    }
}

/// What decoding `png` gives: a PNG error where the decoder rejects it, else
/// the conversion of its frame.
pub open spec fn decode_result(png: Seq<u8>, r: Result<RgbaImage, CodecError>) -> bool {
    match png_frame_of(png) {
        None => r matches Err(CodecError::Png(_)),
        Some(frame) => frame_result(frame, r),
    }
}

proof fn lemma_rgba_pixels_len(samples: Seq<u8>, color: u8, n: nat)
    ensures
        rgba_pixels(samples, color, n).len() == 4 * n,
    decreases n,
{
    if n > 0 {
        lemma_rgba_pixels_len(samples, color, (n - 1) as nat);
    }
}

/// Expands 8-bit gray, RGB or gray-alpha samples to RGBA, pixel by pixel.
fn expand_pixels(samples: &Vec<u8>, color: u8) -> (r: Vec<u8>)
    requires
        color == COLOR_GRAY || color == COLOR_RGB || color == COLOR_GRAY_ALPHA,
    ensures
        r@ == rgba_pixels(samples@, color, samples@.len() / channels(color)),
{
    let ch: usize = if color == COLOR_GRAY {
        1
    } else if color == COLOR_RGB {
        3
    } else {
        2
    };
    let len = samples.len();
    let n = len / ch;
    let mut out: Vec<u8> = Vec::new();
    let mut p: usize = 0;
    let mut k: usize = 0;
    while p < n
        invariant
            ch == channels(color),
            color == COLOR_GRAY || color == COLOR_RGB || color == COLOR_GRAY_ALPHA,
            len == samples@.len(),
            n == samples@.len() / (ch as nat),
            p <= n,
            k == p * ch,
            out@ == rgba_pixels(samples@, color, p as nat),
        decreases n - p,
    {
        assert(k + ch <= samples@.len()) by (nonlinear_arith)
            requires
                k == p * ch,
                p < n,
                n == samples@.len() / (ch as nat),
                ch >= 1,
        {
        }
        if color == COLOR_GRAY {
            let g = samples[k];
            out.push(g);
            out.push(g);
            out.push(g);
            out.push(255);
        } else if color == COLOR_RGB {
            out.push(samples[k]);
            out.push(samples[k + 1]);
            out.push(samples[k + 2]);
            out.push(255);
        } else {
            let g = samples[k];
            out.push(g);
            out.push(g);
            out.push(g);
            out.push(samples[k + 1]);
        }
        assert(out@ =~= rgba_pixels(samples@, color, (p + 1) as nat));
        p = p + 1;
        k = k + ch;
    }
    out
}

/// Converts a decoded frame to RGBA samples of the same size.
pub fn rgba_from_frame(frame: PngFrame) -> (r: Result<RgbaImage, CodecError>)
    ensures
        frame_result(frame.view_tuple(), r),
        r matches Ok(img) ==> img.wf(),
{
    let ch: u128 = if frame.color == COLOR_GRAY {
        1
    } else if frame.color == COLOR_RGB {
        3
    } else if frame.color == COLOR_GRAY_ALPHA {
        2
    } else if frame.color == COLOR_RGBA {
        4
    } else {
        return Err(CodecError::UnsupportedColor(frame.color));
    };
    if frame.depth != 8 {
        return Err(CodecError::UnsupportedDepth(frame.depth));
    }
    let w = frame.width as u128;
    let h = frame.height as u128;
    assert(w * h * ch <= 0xffff_ffff_ffff_ffff_ffff_ffff) by (nonlinear_arith)
        requires
            w <= 0xffff_ffff,
            h <= 0xffff_ffff,
            ch <= 4,
    {
    }
    let expected: u128 = w * h * ch;
    if frame.samples.len() as u128 != expected {
        return Err(CodecError::SizeMismatch);
    }
    let width = frame.width;
    let height = frame.height;
    let bytes = if frame.color == COLOR_RGBA {
        frame.samples
    } else {
        let out = expand_pixels(&frame.samples, frame.color);
        proof {
            let n = frame.samples@.len() / channels(frame.color);
            lemma_rgba_pixels_len(frame.samples@, frame.color, n);
            assert(n == width * height) by (nonlinear_arith)
                requires
                    n == frame.samples@.len() / channels(frame.color),
                    frame.samples@.len() == width * height * channels(frame.color),
                    channels(frame.color) >= 1,
            {
            }
        }
        out
    };
    Ok(RgbaImage { bytes, width, height })
}

/// Decodes a PNG stream of any colour type but palette, at 8 bits per
/// sample, to RGBA samples.
pub fn decode_png_to_rgba(png: &[u8]) -> (r: Result<RgbaImage, CodecError>)
    ensures
        decode_result(png@, r),
        r matches Ok(img) ==> img.wf(),
{
    match png_read_frame(png) {
        Ok(frame) => rgba_from_frame(frame),
        Err(m) => Err(CodecError::Png(m)),
    }
}

/// The width and height that a PNG stream's header gives.
pub fn png_dimensions(png: &[u8]) -> (r: Result<(u32, u32), CodecError>)
    ensures
        match png_size_of(png@) {
            Some(s) => r == Ok::<(u32, u32), CodecError>(s),
            None => r matches Err(CodecError::Png(_)),
        },
{
    match png_read_size(png) {
        Ok(s) => Ok(s),
        Err(m) => Err(CodecError::Png(m)),
    }
}

/// Encodes RGBA samples as an 8-bit RGBA PNG stream; the same samples and
/// size always give the same stream.
pub fn encode_rgba_to_png(rgba: &[u8], width: u32, height: u32) -> (r: Result<Vec<u8>, CodecError>)
    ensures
        r is Ok <==> (width > 0 && height > 0 && rgba@.len() == width * height * 4),
        r matches Ok(p) ==> p@ == png_rgba8_of(rgba@, width, height),
        rgba@.len() != width * height * 4 ==> r matches Err(CodecError::SizeMismatch),
        rgba@.len() == width * height * 4 && (width == 0 || height == 0) ==> r matches Err(
            CodecError::Png(_),
        ),
{
    let w = width as u128;
    let h = height as u128;
    assert(w * h * 4 <= 0xffff_ffff_ffff_ffff_ffff_ffff) by (nonlinear_arith)
        requires
            w <= 0xffff_ffff,
            h <= 0xffff_ffff,
    {
    }
    if rgba.len() as u128 != w * h * 4 {
        return Err(CodecError::SizeMismatch);
    }
    match png_write_rgba8(rgba, width, height) {
        Ok(p) => Ok(p),
        Err(m) => Err(CodecError::Png(m)),
    }
}

proof fn lemma_pixel_at(samples: Seq<u8>, color: u8, n: nat, p: int)
    requires
        0 <= p < n,
    ensures
        rgba_pixels(samples, color, n).subrange(4 * p, 4 * p + 4) == rgba_pixel(samples, color, p),
    decreases n,
{
    lemma_rgba_pixels_len(samples, color, (n - 1) as nat);
    let prev = rgba_pixels(samples, color, (n - 1) as nat);
    let all = rgba_pixels(samples, color, n);
    if p == n - 1 {
        assert(all.subrange(4 * p, 4 * p + 4) =~= rgba_pixel(samples, color, p));
    } else {
        lemma_pixel_at(samples, color, (n - 1) as nat, p);
        assert(all.subrange(4 * p, 4 * p + 4) =~= prev.subrange(4 * p, 4 * p + 4));
    }
}

/// A frame of 8-bit RGBA samples whose length matches its size decodes to
/// exactly those samples and that size: RGBA passes through unchanged.
pub proof fn lemma_rgba_frame_decodes_unchanged(png: Seq<u8>, rgba: Seq<u8>, width: u32, height: u32)
    requires
        png_frame_of(png) == Some((rgba, width, height, COLOR_RGBA, 8u8)),
        rgba.len() == width * height * 4,
    ensures
        forall|r: Result<RgbaImage, CodecError>| #[trigger]
            decode_result(png, r) ==> (r matches Ok(img) && img.bytes@ == rgba && img.width == width
                && img.height == height),
{
}

/// An 8-bit grayscale PNG of one pixel of gray value `g` decodes to the RGBA
/// pixel `(g, g, g, 255)`.
pub proof fn lemma_gray_pixel_decodes_opaque(png: Seq<u8>, g: u8)
    requires
        png_frame_of(png) == Some((seq![g], 1u32, 1u32, COLOR_GRAY, 8u8)),
    ensures
        forall|r: Result<RgbaImage, CodecError>| #[trigger]
            decode_result(png, r) ==> (r matches Ok(img) && img.bytes@ == seq![g, g, g, 255u8]
                && img.width == 1 && img.height == 1),
{
    let s: Seq<u8> = seq![g];
    assert(s[0] == g);
    assert(rgba_pixels(s, COLOR_GRAY, 0) =~= Seq::<u8>::empty());
    assert(rgba_pixels(s, COLOR_GRAY, 1) =~= seq![g, g, g, 255u8]);
    assert(s.len() == 1u32 * 1u32 * channels(COLOR_GRAY));
}

/// Each pixel `(r, g, b)` of an 8-bit RGB PNG decodes to the RGBA pixel
/// `(r, g, b, 255)` at the same position.
pub proof fn lemma_rgb_pixels_decode_opaque(png: Seq<u8>, p: int)
    requires
        png_frame_of(png) matches Some(f) && f.3 == COLOR_RGB && f.4 == 8 && f.0.len() == f.1 * f.2 * 3,
        0 <= p < png_frame_of(png).unwrap().1 * png_frame_of(png).unwrap().2,
    ensures
        forall|r: Result<RgbaImage, CodecError>| #[trigger]
            decode_result(png, r) ==> (r matches Ok(img) && {
                let s = png_frame_of(png).unwrap().0;
                img.bytes@.subrange(4 * p, 4 * p + 4) == seq![s[3 * p], s[3 * p + 1], s[3 * p + 2], 255u8]
            }),
{
    let f = png_frame_of(png).unwrap();
    let n = f.0.len() / 3;
    assert(p < n) by (nonlinear_arith)
        requires
            0 <= p < f.1 * f.2,
            f.0.len() == f.1 * f.2 * 3,
            n == f.0.len() / 3,
    {
    }
    lemma_pixel_at(f.0, COLOR_RGB, n, p);
}

/// A palette PNG is never converted: decoding it fails with the error that
/// names palette images.
pub proof fn lemma_indexed_png_refused(png: Seq<u8>)
    requires
        png_frame_of(png) matches Some(f) && f.3 == COLOR_INDEXED,
    ensures
        forall|r: Result<RgbaImage, CodecError>| #[trigger]
            decode_result(png, r) ==> r == Err::<RgbaImage, CodecError>(
                CodecError::UnsupportedColor(COLOR_INDEXED),
            ),
        CodecError::UnsupportedColor(COLOR_INDEXED).describe() == "Indexed PNG not supported"@,
{
}

} // verus!
