//! Per-format encoder dispatch.
//!
//! PNG stays lossless at the container level, with an optional verified
//! pre-quantization pass when the lossy mode is chosen; JPEG receives
//! the quality directly and flattens any alpha to RGB, a deliberate and
//! irreversible step; static WebP is quality-adjustable and alpha-aware;
//! the remaining containers re-encode generically with quality a no-op.

use std::io::Cursor;
use image::DynamicImage;

use vstd::prelude::*;
use crate::errors::PipelineError;
use crate::format::DetectedKind;
use crate::format::ImageFormatKind;
use crate::format::classify;
use crate::format::is_gif_sig;
use crate::format::is_jpeg_sig;
use crate::format::is_png_sig;
use crate::format::is_webp_sig;
use crate::format::spec_classify;
use crate::format::spec_detect_format;
use crate::pixels::PixelKind;
use crate::pixels::RawImage;
use crate::pixels::has_alpha;
use crate::pixels::pixel_has_alpha;
use crate::pixels::quantize_rgba;
use crate::pixels::spec_quantize_rgba;
use crate::pixels::spec_step_for_quality;
use crate::pixels::spec_to_rgb;
use crate::pixels::spec_to_rgba;
use crate::pixels::step_for_quality;
use crate::pixels::to_rgb8_data;
use crate::pixels::to_rgba8_data;

verus! {

/// The target mode of one batch: re-encode in the detected container,
/// or produce WebP.
#[derive(Debug, Clone, Copy, PartialEq, Eq, Structural)]
#[allow(non_camel_case_types)]
pub enum Mode {
    original_format,
    webp,
}

/// Whether the PNG encoder may coarsen colour channels first.
#[derive(Debug, Clone, Copy, PartialEq, Eq, Structural)]
pub enum PngCompressionMode {
    Lossy,
    Lossless,
}

impl Default for PngCompressionMode {
    fn default() -> (r: Self)
        ensures
            r == PngCompressionMode::Lossless,
    {
        PngCompressionMode::Lossless
    }
}

/// The compression-effort level handed to the PNG encoder.
#[derive(Debug, Clone, Copy, PartialEq, Eq, Structural)]
pub enum PngOptimizationLevel {
    Best,
    Default,
    Fast,
}

impl Default for PngOptimizationLevel {
    fn default() -> (r: Self)
        ensures
            r == PngOptimizationLevel::Default,
    {
        PngOptimizationLevel::Default
    }
}

/// Quality limited to the valid range: values above 100 become 100.
pub open spec fn spec_clamp_quality(q: u8) -> u8 {
    if q > 100 {
        100u8
    } else {
        q
    }
}

/// Clamp a requested quality into 0..=100 before it reaches an encoder.
pub fn clamp_quality(q: u8) -> (r: u8)
    ensures
        r == spec_clamp_quality(q),
{
    if q > 100 {
        100
    } else {
        q
    }
}

/// Out-of-range qualities behave as their clamp: everything at or above
/// 100 encodes exactly as 100 does, and in-range values pass unchanged.
pub proof fn lemma_quality_clamped(q: u8)
    ensures
        q >= 100 ==> spec_clamp_quality(q) == spec_clamp_quality(100),
        q <= 100 ==> spec_clamp_quality(q) == q,
{
}

/// What decoding a byte stream yields: `None` when the bytes do not
/// decode, otherwise width, height, pixel layout and raw channel data.
/// Decoding depends on the bytes alone.
pub uninterp spec fn image_decoded(b: Seq<u8>) -> Option<(u32, u32, PixelKind, Seq<u8>)>;

/// Relies on image's ImageReader: decoding is a pure function of the
/// byte content; a decoded buffer holds exactly width x height pixels
/// in the returned layout (layouts beyond the four modelled ones are
/// converted to RGBA by the same crate).
#[verifier::external_body]
pub(crate) fn decode_image(bytes: &Vec<u8>) -> (r: Result<RawImage, String>)
    ensures
        r matches Ok(img) ==> img.wf() && img.fits() && image_decoded(bytes@) == Some(
            (img.width, img.height, img.color, img.data@),
        ),
        r matches Err(_) ==> image_decoded(bytes@) is None,
{
    let img = image::ImageReader::new(Cursor::new(bytes.as_slice())).with_guessed_format().map_err(
        |e| e.to_string(),
    )?.decode().map_err(|e| e.to_string())?;
    let (width, height) = (img.width(), img.height());
    let (color, data) = match img {
        DynamicImage::ImageLuma8(b) => (PixelKind::L8, b.into_raw()),
        DynamicImage::ImageLumaA8(b) => (PixelKind::La8, b.into_raw()),
        DynamicImage::ImageRgb8(b) => (PixelKind::Rgb8, b.into_raw()),
        DynamicImage::ImageRgba8(b) => (PixelKind::Rgba8, b.into_raw()),
        other => (PixelKind::Rgba8, other.to_rgba8().into_raw()),
    };
    Ok(RawImage { width, height, color, data })
}

/// What the PNG encoder produces for an RGBA buffer, its dimensions and
/// an effort level; a pure function of its arguments.
pub uninterp spec fn png_encoded(
    data: Seq<u8>,
    width: u32,
    height: u32,
    level: PngOptimizationLevel,
) -> Seq<u8>;

/// Whether the PNG encoder accepts an RGBA buffer of the given
/// dimensions at the given effort level; the encoder is deterministic,
/// so success is a pure function of its arguments.
pub uninterp spec fn png_encode_ok(
    data: Seq<u8>,
    width: u32,
    height: u32,
    level: PngOptimizationLevel,
) -> bool;

/// Relies on image's PngEncoder: the output is a function of buffer,
/// dimensions and effort level, success included, and a PNG stream
/// begins with the fixed eight-byte PNG signature.
#[verifier::external_body]
fn png_encode_rgba(data: &Vec<u8>, width: u32, height: u32, level: PngOptimizationLevel) -> (r:
    Result<Vec<u8>, String>)
    requires
        data@.len() == width as int * height as int * 4,
    ensures
        (r is Ok) == png_encode_ok(data@, width, height, level),
        r matches Ok(v) ==> v@ == png_encoded(data@, width, height, level) && is_png_sig(v@),
{
    let mut cursor = Cursor::new(Vec::new());
    let compression = match level {
        PngOptimizationLevel::Best => image::codecs::png::CompressionType::Best,
        PngOptimizationLevel::Default => image::codecs::png::CompressionType::Default,
        PngOptimizationLevel::Fast => image::codecs::png::CompressionType::Fast,
    };
    let filter = image::codecs::png::FilterType::Sub;
    let enc = image::codecs::png::PngEncoder::new_with_quality(&mut cursor, compression, filter);
    image::ImageEncoder::write_image(enc, data.as_slice(), width, height, image::ExtendedColorType::Rgba8).map_err(|e| e.to_string())?;
    Ok(cursor.into_inner())
}

/// What the JPEG encoder produces for a buffer (grayscale or RGB), its
/// dimensions and a quality; a pure function of its arguments.
pub uninterp spec fn jpeg_encoded(
    data: Seq<u8>,
    width: u32,
    height: u32,
    gray: bool,
    quality: u8,
) -> Seq<u8>;

/// Whether the JPEG encoder accepts a buffer of the given layout,
/// dimensions and quality; deterministic, so a pure function of the
/// arguments.
pub uninterp spec fn jpeg_encode_ok(
    data: Seq<u8>,
    width: u32,
    height: u32,
    gray: bool,
    quality: u8,
) -> bool;

/// Relies on image's JpegEncoder: the output is a function of buffer,
/// dimensions, layout and quality (clamped to 1..=100 inside the
/// encoder), success included, and a JPEG stream begins with the
/// marker bytes FF D8 FF.
#[verifier::external_body]
fn jpeg_encode_raw(data: &Vec<u8>, width: u32, height: u32, gray: bool, quality: u8) -> (r: Result<
    Vec<u8>,
    String,
>)
    requires
        data@.len() == width as int * height as int * (if gray {
            1int
        } else {
            3int
        }),
    ensures
        (r is Ok) == jpeg_encode_ok(data@, width, height, gray, quality),
        r matches Ok(v) ==> v@ == jpeg_encoded(data@, width, height, gray, quality) && is_jpeg_sig(
            v@,
        ),
{
    let mut cursor = Cursor::new(Vec::new());
    let enc = image::codecs::jpeg::JpegEncoder::new_with_quality(&mut cursor, quality);
    let color = if gray {
        image::ExtendedColorType::L8
    } else {
        image::ExtendedColorType::Rgb8
    };
    match image::ImageEncoder::write_image(enc, data.as_slice(), width, height, color) {
        Ok(()) => Ok(cursor.into_inner()),
        Err(e) => Err(e.to_string()),
    }
}

/// What the WebP encoder produces for a buffer (RGB or RGBA), its
/// dimensions and a quality; a pure function of its arguments.
pub uninterp spec fn webp_encoded(
    data: Seq<u8>,
    width: u32,
    height: u32,
    alpha: bool,
    quality: u8,
) -> Seq<u8>;

/// Whether the WebP encoder accepts a buffer of the given layout,
/// dimensions and quality; deterministic, so a pure function of the
/// arguments.
pub uninterp spec fn webp_encode_ok(
    data: Seq<u8>,
    width: u32,
    height: u32,
    alpha: bool,
    quality: u8,
) -> bool;

/// Relies on the webp crate's Encoder: the output is a function of
/// buffer, layout, dimensions and quality, success included, and a
/// WebP stream is a RIFF container beginning "RIFF" with "WEBP" at
/// offset eight. The buffer length must match the layout: the encoder
/// checks it and panics on a shortfall.
#[verifier::external_body]
fn webp_encode_raw(data: &Vec<u8>, width: u32, height: u32, alpha: bool, quality: u8) -> (r:
    Result<Vec<u8>, String>)
    requires
        data@.len() == width as int * height as int * (if alpha {
            4int
        } else {
            3int
        }),
        quality <= 100,
    ensures
        (r is Ok) == webp_encode_ok(data@, width, height, alpha, quality),
        r matches Ok(v) ==> v@ == webp_encoded(data@, width, height, alpha, quality) && is_webp_sig(
            v@,
        ),
{
    let layout = if alpha {
        webp::PixelLayout::Rgba
    } else {
        webp::PixelLayout::Rgb
    };
    let encoder = webp::Encoder::new(data.as_slice(), layout, width, height);
    match encoder.encode_simple(false, quality.into()) {
        Ok(mem) => Ok(mem.to_vec()),
        Err(_) => Err(String::from("webp encoding rejected the picture")),
    }
}

/// What the generic re-encoder produces for an RGBA buffer, dimensions
/// and a fallback container; a pure function of its arguments.
pub uninterp spec fn generic_encoded(
    data: Seq<u8>,
    width: u32,
    height: u32,
    format: ImageFormatKind,
) -> Seq<u8>;

/// Whether the generic re-encoder accepts an RGBA buffer of the given
/// dimensions for the named container; deterministic, so a pure
/// function of the arguments.
pub uninterp spec fn generic_encode_ok(
    data: Seq<u8>,
    width: u32,
    height: u32,
    format: ImageFormatKind,
) -> bool;

/// Relies on image's DynamicImage::write_to: re-encoding an RGBA buffer
/// into the named container is a function of buffer, dimensions and
/// container choice alone, success included.
#[verifier::external_body]
fn generic_encode_rgba(data: &Vec<u8>, width: u32, height: u32, format: ImageFormatKind) -> (r:
    Result<Vec<u8>, String>)
    requires
        data@.len() == width as int * height as int * 4,
        format != ImageFormatKind::Png,
        format != ImageFormatKind::Jpeg,
        format != ImageFormatKind::WebP,
    ensures
        (r is Ok) == generic_encode_ok(data@, width, height, format),
        r matches Ok(v) ==> v@ == generic_encoded(data@, width, height, format),
{
    let buf = image::RgbaImage::from_raw(width, height, data.clone()).ok_or_else(|| String::from("buffer size mismatch"))?;
    let fmt = match format {
        ImageFormatKind::Tiff => image::ImageFormat::Tiff,
        ImageFormatKind::Pnm => image::ImageFormat::Pnm,
        ImageFormatKind::Tga => image::ImageFormat::Tga,
        ImageFormatKind::Ico => image::ImageFormat::Ico,
        ImageFormatKind::Gif => image::ImageFormat::Gif,
        _ => image::ImageFormat::Bmp,
    };
    let mut cursor = Cursor::new(Vec::new());
    DynamicImage::ImageRgba8(buf).write_to(&mut cursor, fmt).map_err(|e| e.to_string())?;
    Ok(cursor.into_inner())
}

/// What the all-frames GIF re-encode produces for a GIF byte stream:
/// every frame decoded and re-encoded with infinite repeat; a pure
/// function of the bytes. Frame timing and palette fidelity may differ
/// from the source: this is a genuine re-encode, not a passthrough.
pub uninterp spec fn gif_reencoded(b: Seq<u8>) -> Seq<u8>;

/// Whether the all-frames GIF re-encode succeeds on a byte stream;
/// deterministic, so a pure function of the bytes.
pub uninterp spec fn gif_reencode_ok(b: Seq<u8>) -> bool;

/// Relies on image's GifDecoder and GifEncoder: decoding all frames
/// and re-encoding them with infinite repeat is a function of the
/// bytes alone, success included. The stream must hold a second frame
/// (which classification established): with at least one frame to
/// write, the encoder puts the "GIF89a" header first; a frameless GIF
/// would come back as an empty byte string instead.
#[verifier::external_body]
fn reencode_gif(bytes: &Vec<u8>) -> (r: Result<Vec<u8>, String>)
    requires
        crate::format::gif_probe(bytes@) == Some(true),
    ensures
        (r is Ok) == gif_reencode_ok(bytes@),
        r matches Ok(v) ==> v@ == gif_reencoded(bytes@) && is_gif_sig(v@),
{
    let decoder = image::codecs::gif::GifDecoder::new(Cursor::new(bytes.as_slice())).map_err(
        |e| e.to_string(),
    )?;
    let frames = image::AnimationDecoder::into_frames(decoder).collect_frames().map_err(
        |e| e.to_string(),
    )?;
    let mut out = Vec::new();
    let mut enc = image::codecs::gif::GifEncoder::new(&mut out);
    enc.set_repeat(image::codecs::gif::Repeat::Infinite).map_err(|e| e.to_string())?;
    enc.encode_frames(frames.into_iter()).map_err(|e| e.to_string())?;
    drop(enc);
    Ok(out)
}

/// The buffer the PNG encoder receives: the RGBA rendering, coarsened
/// first when the lossy mode selected a step above one.
pub open spec fn spec_png_input(
    color: PixelKind,
    data: Seq<u8>,
    pixels: int,
    quality: u8,
    mode: PngCompressionMode,
) -> Seq<u8> {
    let rgba = spec_to_rgba(color, data, pixels);
    if mode == PngCompressionMode::Lossy && spec_step_for_quality(quality) > 1 {
        spec_quantize_rgba(rgba, spec_step_for_quality(quality))
    } else {
        rgba
    }
}

/// The buffer and layout flag the JPEG encoder receives: grayscale and
/// RGB pass through, anything else is flattened to RGB.
pub open spec fn spec_jpeg_input(color: PixelKind, data: Seq<u8>, pixels: int) -> (bool, Seq<
    u8,
>) {
    if color == PixelKind::L8 {
        (true, data)
    } else if color == PixelKind::Rgb8 {
        (false, data)
    } else {
        (false, spec_to_rgb(color, data, pixels))
    }
}

/// The buffer the WebP encoder receives: RGBA when the source carries
/// alpha, RGB otherwise.
pub open spec fn spec_webp_input(color: PixelKind, data: Seq<u8>, pixels: int) -> Seq<u8> {
    if has_alpha(color) {
        spec_to_rgba(color, data, pixels)
    } else {
        spec_to_rgb(color, data, pixels)
    }
}

/// The bytes a successful encode of the given image into the given
/// container yields.
pub open spec fn spec_encode_output(
    width: u32,
    height: u32,
    color: PixelKind,
    data: Seq<u8>,
    format: ImageFormatKind,
    quality: u8,
    png_mode: PngCompressionMode,
    png_opt: PngOptimizationLevel,
) -> Seq<u8> {
    let px = width as int * height as int;
    match format {
        ImageFormatKind::Png => png_encoded(
            spec_png_input(color, data, px, quality, png_mode),
            width,
            height,
            png_opt,
        ),
        ImageFormatKind::Jpeg => jpeg_encoded(
            spec_jpeg_input(color, data, px).1,
            width,
            height,
            spec_jpeg_input(color, data, px).0,
            quality,
        ),
        ImageFormatKind::WebP => webp_encoded(
            spec_webp_input(color, data, px),
            width,
            height,
            has_alpha(color),
            quality,
        ),
        _ => generic_encoded(spec_to_rgba(color, data, px), width, height, format),
    }
}

/// Whether a successful encode of the given image into the given
/// container is owed: the selected encoder accepts exactly these
/// arguments.
pub open spec fn spec_encode_ok(
    width: u32,
    height: u32,
    color: PixelKind,
    data: Seq<u8>,
    format: ImageFormatKind,
    quality: u8,
    png_mode: PngCompressionMode,
    png_opt: PngOptimizationLevel,
) -> bool {
    let px = width as int * height as int;
    match format {
        ImageFormatKind::Png => png_encode_ok(
            spec_png_input(color, data, px, quality, png_mode),
            width,
            height,
            png_opt,
        ),
        ImageFormatKind::Jpeg => jpeg_encode_ok(
            spec_jpeg_input(color, data, px).1,
            width,
            height,
            spec_jpeg_input(color, data, px).0,
            quality,
        ),
        ImageFormatKind::WebP => webp_encode_ok(
            spec_webp_input(color, data, px),
            width,
            height,
            has_alpha(color),
            quality,
        ),
        _ => generic_encode_ok(spec_to_rgba(color, data, px), width, height, format),
    }
}

/// Lossless-container PNG encoding, with the optional lossy
/// pre-quantization pass when the mode asks for it.
pub fn encode_png(img: &RawImage, quality: u8, mode: PngCompressionMode, optimization:
    PngOptimizationLevel) -> (r: Result<Vec<u8>, PipelineError>)
    requires
        img.wf(),
        img.fits(),
    ensures
        (r is Ok) == png_encode_ok(
            spec_png_input(img.color, img.data@, img.pixel_count(), quality, mode),
            img.width,
            img.height,
            optimization,
        ),
        r matches Ok(v) ==> v@ == png_encoded(
            spec_png_input(img.color, img.data@, img.pixel_count(), quality, mode),
            img.width,
            img.height,
            optimization,
        ) && is_png_sig(v@),
        r matches Err(e) ==> e is Encode,
{
    let mut rgba = to_rgba8_data(img);
    if mode == PngCompressionMode::Lossy {
        let step = step_for_quality(quality);
        if step > 1 {
            quantize_rgba(&mut rgba, step);
        }
    }
    match png_encode_rgba(&rgba, img.width, img.height, optimization) {
        Ok(v) => Ok(v),
        Err(m) => Err(PipelineError::Encode(m)),
    }
}

/// Lossy JPEG encoding; alpha layouts are flattened to RGB first, a
/// deliberate, irreversible loss.
pub fn encode_jpeg(img: &RawImage, quality: u8) -> (r: Result<Vec<u8>, PipelineError>)
    requires
        img.wf(),
        img.fits(),
    ensures
        (r is Ok) == jpeg_encode_ok(
            spec_jpeg_input(img.color, img.data@, img.pixel_count()).1,
            img.width,
            img.height,
            spec_jpeg_input(img.color, img.data@, img.pixel_count()).0,
            quality,
        ),
        r matches Ok(v) ==> v@ == jpeg_encoded(
            spec_jpeg_input(img.color, img.data@, img.pixel_count()).1,
            img.width,
            img.height,
            spec_jpeg_input(img.color, img.data@, img.pixel_count()).0,
            quality,
        ) && is_jpeg_sig(v@),
        r matches Err(e) ==> e is Encode,
{
    let result = match img.color {
        PixelKind::L8 => jpeg_encode_raw(&img.data, img.width, img.height, true, quality),
        PixelKind::Rgb8 => jpeg_encode_raw(&img.data, img.width, img.height, false, quality),
        _ => {
            let rgb = to_rgb8_data(img);
            jpeg_encode_raw(&rgb, img.width, img.height, false, quality)
        },
    };
    match result {
        Ok(v) => Ok(v),
        Err(m) => Err(PipelineError::Encode(m)),
    }
}

/// Quality-adjustable static WebP encoding, alpha-aware.
pub fn encode_webp_static(img: &RawImage, quality: u8) -> (r: Result<Vec<u8>, PipelineError>)
    requires
        img.wf(),
        img.fits(),
        quality <= 100,
    ensures
        (r is Ok) == webp_encode_ok(
            spec_webp_input(img.color, img.data@, img.pixel_count()),
            img.width,
            img.height,
            has_alpha(img.color),
            quality,
        ),
        r matches Ok(v) ==> v@ == webp_encoded(
            spec_webp_input(img.color, img.data@, img.pixel_count()),
            img.width,
            img.height,
            has_alpha(img.color),
            quality,
        ) && is_webp_sig(v@),
        r matches Err(e) ==> e is Encode,
{
    let result = if pixel_has_alpha(img.color) {
        let rgba = to_rgba8_data(img);
        webp_encode_raw(&rgba, img.width, img.height, true, quality)
    } else {
        let rgb = to_rgb8_data(img);
        webp_encode_raw(&rgb, img.width, img.height, false, quality)
    };
    match result {
        Ok(v) => Ok(v),
        Err(m) => Err(PipelineError::Encode(m)),
    }
}

/// Encode a decoded image into the named container. PNG, JPEG and WebP
/// take their dedicated paths; every other container re-encodes
/// generically, with quality a no-op.
pub fn encode_to_format(img: &RawImage, format: ImageFormatKind, quality: u8, png_mode:
    PngCompressionMode, png_optimization: PngOptimizationLevel) -> (r: Result<
    Vec<u8>,
    PipelineError,
>)
    requires
        img.wf(),
        img.fits(),
        quality <= 100,
    ensures
        (r is Ok) == spec_encode_ok(
            img.width,
            img.height,
            img.color,
            img.data@,
            format,
            quality,
            png_mode,
            png_optimization,
        ),
        r matches Ok(v) ==> v@ == spec_encode_output(
            img.width,
            img.height,
            img.color,
            img.data@,
            format,
            quality,
            png_mode,
            png_optimization,
        ),
        r matches Ok(v) ==> ((format == ImageFormatKind::Png || format == ImageFormatKind::Jpeg
            || format == ImageFormatKind::WebP) ==> spec_detect_format(v@) == Some(format)),
        r matches Err(e) ==> e is Encode,
{
    match format {
        ImageFormatKind::Png => encode_png(img, quality, png_mode, png_optimization),
        ImageFormatKind::Jpeg => encode_jpeg(img, quality),
        ImageFormatKind::WebP => encode_webp_static(img, quality),
        _ => {
            let rgba = to_rgba8_data(img);
            match generic_encode_rgba(&rgba, img.width, img.height, format) {
                Ok(v) => Ok(v),
                Err(m) => Err(PipelineError::Encode(m)),
            }
        },
    }
}

/// What one processed item hands back: the produced bytes, and whether
/// an animated input was degraded to a single static frame, which the
/// caller must surface as a warning.
pub struct ProcessOutput {
    pub bytes: Vec<u8>,
    pub animation_dropped: bool,
}

fn copy_bytes(src: &Vec<u8>) -> (r: Vec<u8>)
    ensures
        r@ == src@,
{
    let n = src.len();
    let mut out: Vec<u8> = Vec::new();
    let mut i: usize = 0;
    while i < n
        invariant
            i <= n,
            n == src@.len(),
            out@ == src@.take(i as int),
        decreases n - i,
    {
        out.push(src[i]);
        proof {
            assert(out@ =~= src@.take(i + 1));
        }
        i = i + 1;
    }
    proof {
        assert(out@ =~= src@);
    }
    out
}

/// Whether processing owes success: classification must name the
/// stream; the animated-WebP passthrough always succeeds; the GIF
/// re-encode, the decode step and the selected encoder succeed exactly
/// when they accept the input.
pub open spec fn spec_process_ok(
    data: Seq<u8>,
    quality: u8,
    mode: Mode,
    png_mode: PngCompressionMode,
    png_opt: PngOptimizationLevel,
) -> bool {
    let q = spec_clamp_quality(quality);
    match spec_classify(data) {
        None => false,
        Some(DetectedKind::Static(f)) => match image_decoded(data) {
            None => false,
            Some(d) => match mode {
                Mode::original_format => spec_encode_ok(
                    d.0,
                    d.1,
                    d.2,
                    d.3,
                    f,
                    q,
                    png_mode,
                    png_opt,
                ),
                Mode::webp => webp_encode_ok(
                    spec_webp_input(d.2, d.3, d.0 as int * d.1 as int),
                    d.0,
                    d.1,
                    has_alpha(d.2),
                    q,
                ),
            },
        },
        Some(DetectedKind::Animated(f)) => match mode {
            Mode::original_format => if f == ImageFormatKind::Gif {
                gif_reencode_ok(data)
            } else {
                true
            },
            Mode::webp => if f == ImageFormatKind::Gif {
                match image_decoded(data) {
                    None => false,
                    Some(d) => webp_encode_ok(
                        spec_webp_input(d.2, d.3, d.0 as int * d.1 as int),
                        d.0,
                        d.1,
                        has_alpha(d.2),
                        q,
                    ),
                }
            } else {
                true
            },
        },
    }
}

/// Classify one byte stream and produce the re-encoded artifact.
///
/// Quality is clamped to 0..=100 before any encoder sees it. Static
/// frames are decoded and re-encoded per the mode. An animated GIF in
/// original-format mode is re-encoded whole, every frame, with
/// infinite repeat — a genuine re-encode, not a passthrough. Animated
/// WebP passes through byte for byte in both modes (no animated WebP
/// encoder exists), and an animated GIF bound for WebP is degraded to
/// its first frame as a static picture, flagged in the output.
pub fn process_image_bytes(
    data: &Vec<u8>,
    quality: u8,
    mode: Mode,
    png_mode: PngCompressionMode,
    png_optimization: PngOptimizationLevel,
) -> (r: Result<ProcessOutput, PipelineError>)
    ensures
        (r is Ok) == spec_process_ok(data@, quality, mode, png_mode, png_optimization),
        r matches Err(e) ==> (e is Decode || e is Encode),
        (spec_classify(data@) is None) ==> (r matches Err(e) && e is Decode),
        r matches Err(e) ==> (e is Decode ==> (spec_classify(data@) is None || image_decoded(
            data@,
        ) is None)),
        spec_classify(data@) matches Some(DetectedKind::Animated(f)) ==> (f
            != ImageFormatKind::Gif ==> (r matches Ok(out) && out.bytes@ == data@
            && !out.animation_dropped)),
        r matches Ok(out) ==> (mode is original_format ==> (spec_classify(data@) == Some(
            DetectedKind::Animated(ImageFormatKind::Gif),
        ) ==> (out.bytes@ == gif_reencoded(data@) && spec_detect_format(out.bytes@) == Some(
            ImageFormatKind::Gif,
        ) && !out.animation_dropped))),
        r matches Ok(out) ==> (mode is original_format ==> (spec_classify(data@) matches Some(
            DetectedKind::Static(f),
        ) ==> (image_decoded(data@) matches Some(d) && out.bytes@ == spec_encode_output(
            d.0,
            d.1,
            d.2,
            d.3,
            f,
            spec_clamp_quality(quality),
            png_mode,
            png_optimization,
        ) && !out.animation_dropped))),
        r matches Ok(out) ==> (mode is webp ==> (spec_classify(data@) matches Some(
            DetectedKind::Static(f),
        ) ==> (image_decoded(data@) matches Some(d) && out.bytes@ == webp_encoded(
            spec_webp_input(d.2, d.3, d.0 as int * d.1 as int),
            d.0,
            d.1,
            has_alpha(d.2),
            spec_clamp_quality(quality),
        ) && !out.animation_dropped))),
        r matches Ok(out) ==> (mode is webp ==> (spec_classify(data@) == Some(
            DetectedKind::Animated(ImageFormatKind::Gif),
        ) ==> (image_decoded(data@) matches Some(d) && out.bytes@ == webp_encoded(
            spec_webp_input(d.2, d.3, d.0 as int * d.1 as int),
            d.0,
            d.1,
            has_alpha(d.2),
            spec_clamp_quality(quality),
        ) && out.animation_dropped))),
        r matches Ok(out) ==> (mode is original_format ==> (spec_classify(data@) matches Some(
            DetectedKind::Static(f),
        ) ==> ((f == ImageFormatKind::Png || f == ImageFormatKind::Jpeg || f
            == ImageFormatKind::WebP) ==> spec_detect_format(out.bytes@) == Some(f)))),
{
    let q = clamp_quality(quality);
    let kind = match classify(data) {
        Ok(k) => k,
        Err(e) => { return Err(e) },
    };
    match (kind, mode) {
        (DetectedKind::Static(fmt), Mode::original_format) => {
            let img = match decode_image(data) {
                Ok(i) => i,
                Err(m) => { return Err(PipelineError::Decode(m)) },
            };
            match encode_to_format(&img, fmt, q, png_mode, png_optimization) {
                Ok(v) => Ok(ProcessOutput { bytes: v, animation_dropped: false }),
                Err(e) => Err(e),
            }
        },
        (DetectedKind::Static(_), Mode::webp) => {
            let img = match decode_image(data) {
                Ok(i) => i,
                Err(m) => { return Err(PipelineError::Decode(m)) },
            };
            match encode_webp_static(&img, q) {
                Ok(v) => Ok(ProcessOutput { bytes: v, animation_dropped: false }),
                Err(e) => Err(e),
            }
        },
        (DetectedKind::Animated(fmt), Mode::original_format) => {
            if fmt == ImageFormatKind::Gif {
                match reencode_gif(data) {
                    Ok(v) => Ok(ProcessOutput { bytes: v, animation_dropped: false }),
                    Err(m) => Err(PipelineError::Encode(m)),
                }
            } else {
                Ok(ProcessOutput { bytes: copy_bytes(data), animation_dropped: false })
            }
        },
        (DetectedKind::Animated(fmt), Mode::webp) => {
            if fmt == ImageFormatKind::Gif {
                let img = match decode_image(data) {
                    Ok(i) => i,
                    Err(m) => { return Err(PipelineError::Decode(m)) },
                };
                match encode_webp_static(&img, q) {
                    Ok(v) => Ok(ProcessOutput { bytes: v, animation_dropped: true }),
                    Err(e) => Err(e),
                }
            } else {
                Ok(ProcessOutput { bytes: copy_bytes(data), animation_dropped: false })
            }
        },
    }
}

} // verus!
