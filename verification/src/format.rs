//! Container-format classification from byte content.
//!
//! The base container is identified by its header signature alone, never
//! by a file name. GIF streams are probed for a second frame to decide
//! whether they are animated; WebP streams are scanned linearly for the
//! animation chunk marker, a deliberate heuristic rather than a full
//! RIFF walk, so false negatives on malformed files are possible.

use vstd::prelude::*;
use crate::errors::PipelineError;

verus! {

/// The closed set of containers the pipeline understands.
#[derive(Debug, Clone, Copy, PartialEq, Eq, Structural)]
pub enum ImageFormatKind {
    Png,
    Jpeg,
    WebP,
    Gif,
    Bmp,
    Tiff,
    Pnm,
    Tga,
    Ico,
}

/// A classified stream: a single frame or a multi-frame animation.
#[derive(Debug, Clone, Copy, PartialEq, Eq, Structural)]
pub enum DetectedKind {
    Static(ImageFormatKind),
    Animated(ImageFormatKind),
}

impl DetectedKind {
    /// The container format, whether static or animated.
    pub open spec fn format(self) -> ImageFormatKind {
        match self {
            DetectedKind::Static(f) => f,
            DetectedKind::Animated(f) => f,
        }
    }
}

pub open spec fn is_png_sig(b: Seq<u8>) -> bool {
    b.len() >= 8 && b[0] == 0x89u8 && b[1] == 0x50u8 && b[2] == 0x4eu8 && b[3] == 0x47u8 && b[4]
        == 0x0du8 && b[5] == 0x0au8 && b[6] == 0x1au8 && b[7] == 0x0au8
}

pub open spec fn is_jpeg_sig(b: Seq<u8>) -> bool {
    b.len() >= 3 && b[0] == 0xffu8 && b[1] == 0xd8u8 && b[2] == 0xffu8
}

pub open spec fn is_gif_sig(b: Seq<u8>) -> bool {
    b.len() >= 6 && b[0] == 0x47u8 && b[1] == 0x49u8 && b[2] == 0x46u8 && b[3] == 0x38u8 && (b[4]
        == 0x37u8 || b[4] == 0x39u8) && b[5] == 0x61u8
}

pub open spec fn is_webp_sig(b: Seq<u8>) -> bool {
    b.len() >= 12 && b[0] == 0x52u8 && b[1] == 0x49u8 && b[2] == 0x46u8 && b[3] == 0x46u8 && b[8]
        == 0x57u8 && b[9] == 0x45u8 && b[10] == 0x42u8 && b[11] == 0x50u8
}

pub open spec fn is_tiff_sig(b: Seq<u8>) -> bool {
    b.len() >= 4 && ((b[0] == 0x4du8 && b[1] == 0x4du8 && b[2] == 0x00u8 && b[3] == 0x2au8) || (
    b[0] == 0x49u8 && b[1] == 0x49u8 && b[2] == 0x2au8 && b[3] == 0x00u8))
}

pub open spec fn is_bmp_sig(b: Seq<u8>) -> bool {
    b.len() >= 2 && b[0] == 0x42u8 && b[1] == 0x4du8
}

pub open spec fn is_ico_sig(b: Seq<u8>) -> bool {
    b.len() >= 4 && b[0] == 0x00u8 && b[1] == 0x00u8 && b[2] == 0x01u8 && b[3] == 0x00u8
}

pub open spec fn is_pnm_sig(b: Seq<u8>) -> bool {
    b.len() >= 2 && b[0] == 0x50u8 && 0x31u8 <= b[1] && b[1] <= 0x37u8
}

/// The base container the header signature names, in the order the
/// signatures are tried. TGA carries no signature and is never detected.
pub open spec fn spec_detect_format(b: Seq<u8>) -> Option<ImageFormatKind> {
    if is_png_sig(b) {
        Some(ImageFormatKind::Png)
    } else if is_jpeg_sig(b) {
        Some(ImageFormatKind::Jpeg)
    } else if is_gif_sig(b) {
        Some(ImageFormatKind::Gif)
    } else if is_webp_sig(b) {
        Some(ImageFormatKind::WebP)
    } else if is_tiff_sig(b) {
        Some(ImageFormatKind::Tiff)
    } else if is_bmp_sig(b) {
        Some(ImageFormatKind::Bmp)
    } else if is_ico_sig(b) {
        Some(ImageFormatKind::Ico)
    } else if is_pnm_sig(b) {
        Some(ImageFormatKind::Pnm)
    } else {
        None
    }
}

/// Identify the base container from the header signature.
pub fn detect_image_format(bytes: &Vec<u8>) -> (r: Option<ImageFormatKind>)
    ensures
        r == spec_detect_format(bytes@),
{
    let n = bytes.len();
    if n >= 8 && bytes[0] == 0x89 && bytes[1] == 0x50 && bytes[2] == 0x4e && bytes[3] == 0x47
        && bytes[4] == 0x0d && bytes[5] == 0x0a && bytes[6] == 0x1a && bytes[7] == 0x0a {
        return Some(ImageFormatKind::Png);
    }
    if n >= 3 && bytes[0] == 0xff && bytes[1] == 0xd8 && bytes[2] == 0xff {
        return Some(ImageFormatKind::Jpeg);
    }
    if n >= 6 && bytes[0] == 0x47 && bytes[1] == 0x49 && bytes[2] == 0x46 && bytes[3] == 0x38 && (
    bytes[4] == 0x37 || bytes[4] == 0x39) && bytes[5] == 0x61 {
        return Some(ImageFormatKind::Gif);
    }
    if n >= 12 && bytes[0] == 0x52 && bytes[1] == 0x49 && bytes[2] == 0x46 && bytes[3] == 0x46
        && bytes[8] == 0x57 && bytes[9] == 0x45 && bytes[10] == 0x42 && bytes[11] == 0x50 {
        return Some(ImageFormatKind::WebP);
    }
    if n >= 4 && ((bytes[0] == 0x4d && bytes[1] == 0x4d && bytes[2] == 0x00 && bytes[3] == 0x2a)
        || (bytes[0] == 0x49 && bytes[1] == 0x49 && bytes[2] == 0x2a && bytes[3] == 0x00)) {
        return Some(ImageFormatKind::Tiff);
    }
    if n >= 2 && bytes[0] == 0x42 && bytes[1] == 0x4d {
        return Some(ImageFormatKind::Bmp);
    }
    if n >= 4 && bytes[0] == 0x00 && bytes[1] == 0x00 && bytes[2] == 0x01 && bytes[3] == 0x00 {
        return Some(ImageFormatKind::Ico);
    }
    if n >= 2 && bytes[0] == 0x50 && 0x31 <= bytes[1] && bytes[1] <= 0x37 {
        return Some(ImageFormatKind::Pnm);
    }
    None
}

/// The four bytes of the WebP animation chunk marker stand at `i`.
pub open spec fn anim_marker_at(b: Seq<u8>, i: int) -> bool {
    b[i] == 0x41u8 && b[i + 1] == 0x4eu8 && b[i + 2] == 0x49u8 && b[i + 3] == 0x4du8
}

/// Somewhere in the stream the animation chunk marker occurs.
pub open spec fn has_anim_marker(b: Seq<u8>) -> bool {
    exists|i: int| 0 <= i && i + 4 <= b.len() && anim_marker_at(b, i)
}

/// Linear scan for the WebP animation chunk marker.
pub fn has_anim_chunk(bytes: &Vec<u8>) -> (r: bool)
    ensures
        r == has_anim_marker(bytes@),
{
    let n = bytes.len();
    if n < 4 {
        return false;
    }
    let mut i: usize = 0;
    while i <= n - 4
        invariant
            4 <= n,
            n == bytes@.len(),
            i <= n - 4 + 1,
            forall|k: int| 0 <= k < i ==> !anim_marker_at(bytes@, k),
        decreases n - i,
    {
        if bytes[i] == 0x41 && bytes[i + 1] == 0x4e && bytes[i + 2] == 0x49 && bytes[i + 3]
            == 0x4d {
            proof {
                assert(anim_marker_at(bytes@, i as int));
            }
            return true;
        }
        i = i + 1;
    }
    false
}

/// What the GIF frame probe finds for a byte stream: `None` when the
/// stream does not open as a GIF, otherwise whether a second frame is
/// present. The probe depends on the bytes alone.
pub uninterp spec fn gif_probe(b: Seq<u8>) -> Option<bool>;

/// Relies on image's GifDecoder and its frame iterator: opening the
/// stream and pulling two frames depends on the byte content alone; the
/// result reports whether a second frame came out.
#[verifier::external_body]
fn probe_gif_animation(bytes: &Vec<u8>) -> (r: Result<bool, String>)
    ensures
        r matches Ok(a) ==> gif_probe(bytes@) == Some(a),
        r matches Err(_) ==> gif_probe(bytes@) is None,
{
    let cursor = std::io::Cursor::new(bytes.as_slice());
    match image::codecs::gif::GifDecoder::new(cursor) {
        Ok(decoder) => {
            let mut frames = image::AnimationDecoder::into_frames(decoder);
            let _ = frames.next();
            Ok(frames.next().is_some())
        }
        Err(e) => Err(e.to_string()),
    }
}

/// Classification of a byte stream: the container named by the header
/// signature, animated for a GIF whose probe found a second frame and
/// for a WebP holding the animation marker, static everywhere else.
pub open spec fn spec_classify(b: Seq<u8>) -> Option<DetectedKind> {
    match spec_detect_format(b) {
        None => None,
        Some(ImageFormatKind::Gif) => match gif_probe(b) {
            Some(true) => Some(DetectedKind::Animated(ImageFormatKind::Gif)),
            Some(false) => Some(DetectedKind::Static(ImageFormatKind::Gif)),
            None => None,
        },
        Some(ImageFormatKind::WebP) => if has_anim_marker(b) {
            Some(DetectedKind::Animated(ImageFormatKind::WebP))
        } else {
            Some(DetectedKind::Static(ImageFormatKind::WebP))
        },
        Some(f) => Some(DetectedKind::Static(f)),
    }
}

/// Determine the true container format and whether the content is a
/// single frame or an animation, from byte content alone.
pub fn classify(bytes: &Vec<u8>) -> (r: Result<DetectedKind, PipelineError>)
    ensures
        (r is Ok) == (spec_classify(bytes@) is Some),
        r matches Ok(k) ==> spec_classify(bytes@) == Some(k),
        r matches Err(e) ==> e is Decode,
{
    match detect_image_format(bytes) {
        None => Err(
            PipelineError::Decode(String::from_str("unrecognized container signature")),
        ),
        Some(ImageFormatKind::Gif) => match probe_gif_animation(bytes) {
            Ok(true) => Ok(DetectedKind::Animated(ImageFormatKind::Gif)),
            Ok(false) => Ok(DetectedKind::Static(ImageFormatKind::Gif)),
            Err(m) => Err(PipelineError::Decode(m)),
        },
        Some(ImageFormatKind::WebP) => {
            if has_anim_chunk(bytes) {
                Ok(DetectedKind::Animated(ImageFormatKind::WebP))
            } else {
                Ok(DetectedKind::Static(ImageFormatKind::WebP))
            }
        },
        Some(f) => Ok(DetectedKind::Static(f)),
    }
}

/// Classification is a pure function of the byte content: identical
/// bytes always yield the identical detected kind.
pub proof fn lemma_classify_deterministic(b1: Seq<u8>, b2: Seq<u8>)
    requires
        b1 == b2,
    ensures
        spec_classify(b1) == spec_classify(b2),
{
}

} // verus!
