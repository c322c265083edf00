//! Thumbnail store: per-URL task state machine and the resize-encode
//! step.
//!
//! A task first probes the cache; a hit returns the entry at once with
//! no network or CPU work. On a miss the downloader runs with bounded
//! retries, then the picture is resized into the thumbnail envelope,
//! aspect preserved, and encoded as WebP into the cache path. The
//! embedding program performs the I/O between steps and reports each
//! outcome back to the task.

use vstd::prelude::*;
use crate::cache::generate_cache_path;
use crate::cache::spec_cache_path;
use crate::cache::spec_extract_file_extension;
use crate::cache::extract_file_extension;
use crate::download::INITIAL_TIMEOUT_SECS;
use crate::download::MAX_RETRIES;
use crate::download::backoff_ms;
use crate::download::should_retry;
use crate::download::spec_backoff_ms;
use crate::download::spec_should_retry;
use crate::download::spec_timeout_secs;
use crate::download::timeout_secs;
use crate::encode::decode_image;
use crate::encode::image_decoded;
use crate::errors::FetchClass;
use crate::errors::PipelineError;
use crate::format::is_webp_sig;
use crate::pixels::PixelKind;
use crate::pixels::RawImage;
use crate::pixels::spec_to_rgba;
use crate::pixels::to_rgba8_data;
use crate::s3util::uuid_v4_hyphenated;
use crate::strutil::idx_after_last;
use crate::strutil::find_after_last;
use crate::strutil::lower_chars;
use crate::strutil::str_eq;
use crate::strutil::to_ascii_lower;

verus! {

/// The thumbnail bounding box, aspect-preserving.
pub const THUMBNAIL_WIDTH: u32 = 320;

pub const THUMBNAIL_HEIGHT: u32 = 225;

/// What the aspect-preserving downscale yields: the new dimensions and
/// RGBA bytes; a pure function of buffer, dimensions and bounds.
pub uninterp spec fn thumb_resized(data: Seq<u8>, width: u32, height: u32, max_w: u32, max_h:
    u32) -> (u32, u32, Seq<u8>);

/// Relies on image's DynamicImage::thumbnail: an aspect-preserving
/// scale into the bounding box, total on every buffer of matching
/// length (zero dimensions included) and a pure function of its
/// inputs; the result comes back as RGBA bytes with its own
/// dimensions, and for a box of at least one pixel each way those
/// dimensions fit the box (small pictures are scaled up to it). The
/// buffer length must match exactly: from_raw rejects anything else.
#[verifier::external_body]
fn resize_rgba(data: &Vec<u8>, width: u32, height: u32, max_w: u32, max_h: u32) -> (img:
    RawImage)
    requires
        data@.len() == width as int * height as int * 4,
    ensures
        img.wf() && img.fits() && img.color == PixelKind::Rgba8 && (
        img.width,
        img.height,
        img.data@,
        ) == thumb_resized(data@, width, height, max_w, max_h),
        (max_w >= 1 && max_h >= 1) ==> (img.width <= max_w && img.height <= max_h),
{
    let buf = image::RgbaImage::from_raw(width, height, data.clone()).expect("length checked");
    let resized = image::DynamicImage::ImageRgba8(buf).thumbnail(max_w, max_h);
    let rgba = resized.to_rgba8();
    let (w, h) = (rgba.width(), rgba.height());
    RawImage { width: w, height: h, color: PixelKind::Rgba8, data: rgba.into_raw() }
}

/// What the lossless WebP encoder produces for an RGBA buffer and its
/// dimensions; a pure function of its arguments.
pub uninterp spec fn webp_lossless_encoded(data: Seq<u8>, width: u32, height: u32) -> Seq<u8>;

/// Whether the lossless WebP encoder accepts an RGBA buffer of the
/// given dimensions; deterministic, so a pure function of the
/// arguments.
pub uninterp spec fn webp_lossless_ok(data: Seq<u8>, width: u32, height: u32) -> bool;

/// Relies on image's WebPEncoder in lossless mode: the output is a
/// function of buffer and dimensions, success included, and is a RIFF
/// container with "WEBP" at offset eight.
#[verifier::external_body]
fn webp_encode_lossless_rgba(data: &Vec<u8>, width: u32, height: u32) -> (r: Result<
    Vec<u8>,
    String,
>)
    requires
        data@.len() == width as int * height as int * 4,
    ensures
        (r is Ok) == webp_lossless_ok(data@, width, height),
        r matches Ok(v) ==> v@ == webp_lossless_encoded(data@, width, height) && is_webp_sig(v@),
{
    let mut cursor = std::io::Cursor::new(Vec::new());
    let enc = image::codecs::webp::WebPEncoder::new_lossless(&mut cursor);
    match image::ImageEncoder::write_image(enc, data.as_slice(), width, height, image::ExtendedColorType::Rgba8) {
        Ok(()) => Ok(cursor.into_inner()),
        Err(e) => Err(e.to_string()),
    }
}

/// Decode a picture, scale it into the thumbnail envelope with aspect
/// preserved, and encode it as WebP. The picture handed to the encoder
/// fits the envelope, and the output is a pure function of the input
/// bytes, which keeps the store's benign write-twice race harmless:
/// both writers produce identical bytes.
pub fn compress_to_thumbnail_bytes(input: &Vec<u8>) -> (r: Result<Vec<u8>, PipelineError>)
    ensures
        r matches Ok(v) ==> (image_decoded(input@) matches Some(d) && thumb_resized(
            spec_to_rgba(d.2, d.3, d.0 as int * d.1 as int),
            d.0,
            d.1,
            THUMBNAIL_WIDTH,
            THUMBNAIL_HEIGHT,
        ).0 <= THUMBNAIL_WIDTH && thumb_resized(
            spec_to_rgba(d.2, d.3, d.0 as int * d.1 as int),
            d.0,
            d.1,
            THUMBNAIL_WIDTH,
            THUMBNAIL_HEIGHT,
        ).1 <= THUMBNAIL_HEIGHT),
        (r is Ok) == match image_decoded(input@) {
            None => false,
            Some(d) => webp_lossless_ok(
                thumb_resized(
                    spec_to_rgba(d.2, d.3, d.0 as int * d.1 as int),
                    d.0,
                    d.1,
                    THUMBNAIL_WIDTH,
                    THUMBNAIL_HEIGHT,
                ).2,
                thumb_resized(
                    spec_to_rgba(d.2, d.3, d.0 as int * d.1 as int),
                    d.0,
                    d.1,
                    THUMBNAIL_WIDTH,
                    THUMBNAIL_HEIGHT,
                ).0,
                thumb_resized(
                    spec_to_rgba(d.2, d.3, d.0 as int * d.1 as int),
                    d.0,
                    d.1,
                    THUMBNAIL_WIDTH,
                    THUMBNAIL_HEIGHT,
                ).1,
            ),
        },
        r matches Err(e) ==> (e is Decode || e is Encode),
        (image_decoded(input@) is None) ==> (r matches Err(e) && e is Decode),
        r matches Ok(v) ==> (image_decoded(input@) matches Some(d) && v@ == webp_lossless_encoded(
            thumb_resized(
                spec_to_rgba(d.2, d.3, d.0 as int * d.1 as int),
                d.0,
                d.1,
                THUMBNAIL_WIDTH,
                THUMBNAIL_HEIGHT,
            ).2,
            thumb_resized(
                spec_to_rgba(d.2, d.3, d.0 as int * d.1 as int),
                d.0,
                d.1,
                THUMBNAIL_WIDTH,
                THUMBNAIL_HEIGHT,
            ).0,
            thumb_resized(
                spec_to_rgba(d.2, d.3, d.0 as int * d.1 as int),
                d.0,
                d.1,
                THUMBNAIL_WIDTH,
                THUMBNAIL_HEIGHT,
            ).1,
        ) && is_webp_sig(v@)),
{
    let img = match decode_image(input) {
        Ok(i) => i,
        Err(m) => { return Err(PipelineError::Decode(m)) },
    };
    let rgba = to_rgba8_data(&img);
    let small = resize_rgba(&rgba, img.width, img.height, THUMBNAIL_WIDTH, THUMBNAIL_HEIGHT);
    match webp_encode_lossless_rgba(&small.data, small.width, small.height) {
        Ok(v) => Ok(v),
        Err(m) => Err(PipelineError::Encode(m)),
    }
}

/// The steps a thumbnail task moves through. Fetch and backoff carry
/// the values the embedding program needs to perform the step.
#[derive(Debug, Clone, Copy, PartialEq, Eq, Structural)]
pub enum ThumbStep {
    ProbeCache,
    Fetch { attempt: u32, timeout_secs: u64 },
    Backoff { delay_ms: u64, next_attempt: u32 },
    Encode,
    Finished { cache_hit: bool },
    Aborted,
}

/// One thumbnail request: its URL, its content-addressed cache path,
/// and where the task stands.
#[derive(Debug, Clone)]
pub struct ThumbTask {
    pub url: String,
    pub cache_path: String,
    pub step: ThumbStep,
}

impl ThumbTask {
    /// Start a task: the cache path is derived from the URL alone, and
    /// the first step is always the cache probe.
    pub fn new(url: String, cache_dir: &str) -> (r: ThumbTask)
        ensures
            r.url == url,
            r.cache_path@ == spec_cache_path(cache_dir@, url@),
            r.step == ThumbStep::ProbeCache,
    {
        let cache_path = generate_cache_path(cache_dir, url.as_str());
        ThumbTask { url, cache_path, step: ThumbStep::ProbeCache }
    }

    /// Report the cache probe. A hit finishes the task on the spot —
    /// no fetch step is ever issued for it; a miss starts the first
    /// download attempt at the initial timeout.
    pub fn note_cache(&mut self, exists: bool)
        requires
            old(self).step == ThumbStep::ProbeCache,
        ensures
            final(self).url == old(self).url,
            final(self).cache_path == old(self).cache_path,
            exists ==> final(self).step == (ThumbStep::Finished { cache_hit: true }),
            !exists ==> final(self).step == (ThumbStep::Fetch {
                attempt: 1u32,
                timeout_secs: INITIAL_TIMEOUT_SECS,
            }),
    {
        if exists {
            self.step = ThumbStep::Finished { cache_hit: true };
        } else {
            self.step = ThumbStep::Fetch { attempt: 1, timeout_secs: INITIAL_TIMEOUT_SECS };
        }
    }

    /// Report one download attempt. Success moves to the encode step.
    /// A failure is retried only while attempts remain and the error is
    /// not permanent-class, with an exponentially growing delay;
    /// otherwise the task aborts.
    pub fn note_download(&mut self, outcome: &Result<(), String>)
        requires
            old(self).step matches ThumbStep::Fetch { attempt, .. } && 1 <= attempt
                <= MAX_RETRIES,
        ensures
            final(self).url == old(self).url,
            final(self).cache_path == old(self).cache_path,
            outcome is Ok ==> final(self).step == ThumbStep::Encode,
            old(self).step matches ThumbStep::Fetch { attempt, .. } ==> (outcome matches Err(m)
                ==> (spec_should_retry(m@, attempt, MAX_RETRIES) ==> (final(self).step matches
                ThumbStep::Backoff { delay_ms, next_attempt } && delay_ms as int
                == spec_backoff_ms(attempt) && next_attempt == attempt + 1))),
            old(self).step matches ThumbStep::Fetch { attempt, .. } ==> (outcome matches Err(m)
                ==> (!spec_should_retry(m@, attempt, MAX_RETRIES) ==> final(self).step
                == ThumbStep::Aborted)),
    {
        let attempt: u32 = match self.step {
            ThumbStep::Fetch { attempt, .. } => attempt,
            _ => 1,
        };
        match outcome {
            Ok(_) => {
                self.step = ThumbStep::Encode;
            },
            Err(m) => {
                if should_retry(m.as_str(), attempt, MAX_RETRIES) {
                    let delay = backoff_ms(attempt);
                    self.step = ThumbStep::Backoff { delay_ms: delay, next_attempt: attempt + 1 };
                } else {
                    self.step = ThumbStep::Aborted;
                }
            },
        }
    }

    /// Report that the backoff delay has elapsed: the next attempt
    /// starts, with its timeout grown by ten seconds per retry.
    pub fn note_backoff_done(&mut self)
        requires
            old(self).step matches ThumbStep::Backoff { next_attempt, .. } && 1 <= next_attempt
                <= MAX_RETRIES,
        ensures
            final(self).url == old(self).url,
            final(self).cache_path == old(self).cache_path,
            old(self).step matches ThumbStep::Backoff { next_attempt, .. } ==> (final(self).step
                matches ThumbStep::Fetch { attempt, timeout_secs } && attempt == next_attempt
                && timeout_secs as int == spec_timeout_secs(next_attempt)),
    {
        let next: u32 = match self.step {
            ThumbStep::Backoff { next_attempt, .. } => next_attempt,
            _ => 1,
        };
        let t = timeout_secs(next);
        self.step = ThumbStep::Fetch { attempt: next, timeout_secs: t };
    }

    /// Report the resize-encode outcome: the cache entry now exists, or
    /// the task aborts; the degradation never goes further silently.
    pub fn note_encode(&mut self, ok: bool)
        requires
            old(self).step == ThumbStep::Encode,
        ensures
            final(self).url == old(self).url,
            final(self).cache_path == old(self).cache_path,
            ok ==> final(self).step == (ThumbStep::Finished { cache_hit: false }),
            !ok ==> final(self).step == ThumbStep::Aborted,
    {
        if ok {
            self.step = ThumbStep::Finished { cache_hit: false };
        } else {
            self.step = ThumbStep::Aborted;
        }
    }
}

/// Thumbnail idempotence: the cache path is a pure function of the URL
/// string, so two requests for the same URL address the same cache
/// entry — and a task that finds the entry present finishes as a cache
/// hit without ever issuing a fetch step.
pub proof fn lemma_thumbnail_idempotent(t1: ThumbTask, t2: ThumbTask, dir: Seq<char>)
    requires
        t1.url@ == t2.url@,
        t1.cache_path@ == spec_cache_path(dir, t1.url@),
        t2.cache_path@ == spec_cache_path(dir, t2.url@),
    ensures
        t1.cache_path@ == t2.cache_path@,
{
}

/// The ordered successes among per-item outcomes.
pub open spec fn spec_successes(s: Seq<Option<String>>) -> Seq<String>
    decreases s.len(),
{
    if s.len() == 0 {
        Seq::empty()
    } else {
        let rest = spec_successes(s.drop_last());
        match s.last() {
            Some(x) => rest.push(x),
            None => rest,
        }
    }
}

/// Collect a thumbnail batch: the successfully produced paths, in
/// completion order. The whole call fails only when every item failed;
/// partial success is returned, with the failures counted by the
/// caller.
pub fn collect_thumbnail_results(results: &Vec<Option<String>>) -> (r: Result<
    Vec<String>,
    PipelineError,
>)
    ensures
        r matches Ok(v) ==> v@ == spec_successes(results@),
        (r is Ok) == (results@.len() == 0 || spec_successes(results@).len() > 0),
        r matches Err(e) ==> e is Fetch,
{
    let n = results.len();
    let mut out: Vec<String> = Vec::new();
    let mut i: usize = 0;
    while i < n
        invariant
            i <= n,
            n == results@.len(),
            out@ == spec_successes(results@.take(i as int)),
        decreases n - i,
    {
        proof {
            assert(results@.take(i + 1).drop_last() =~= results@.take(i as int));
            assert(results@.take(i + 1).last() == results@[i as int]);
        }
        match &results[i] {
            Some(s) => {
                out.push(s.clone());
            },
            None => {},
        }
        i = i + 1;
    }
    proof {
        assert(results@.take(n as int) =~= results@);
    }
    if out.len() == 0 && n > 0 {
        return Err(
            PipelineError::Fetch(
                FetchClass::Permanent,
                String::from_str("failed to generate all thumbnails"),
            ),
        );
    }
    Ok(out)
}

/// The known image file extensions, lowercased and without their dot.
pub open spec fn spec_known_image_ext(e: Seq<char>) -> bool {
    e == "jpg"@ || e == "jpeg"@ || e == "png"@ || e == "webp"@ || e == "gif"@ || e == "bmp"@ || e
        == "tiff"@ || e == "tif"@ || e == "svg"@
}

/// A local file needs a temporary copy under a recognized name before
/// the decoder sees it: its name has no extension, or one the decoder
/// would not recognize.
pub open spec fn spec_local_needs_temp_copy(path: Seq<char>) -> bool {
    let name = path.skip(idx_after_last(path, '/'));
    let d = idx_after_last(name, '.');
    d == 0 || !spec_known_image_ext(lower_chars(name.skip(d)))
}

/// Decide whether a local source file must be copied to a temporary
/// file with a recognized extension before decoding.
pub fn local_needs_temp_copy(path: &str) -> (r: bool)
    ensures
        r == spec_local_needs_temp_copy(path@),
{
    let len = path.unicode_len();
    let spos = find_after_last(path, '/');
    let name = path.substring_char(spos, len);
    proof {
        assert(name@ =~= path@.skip(idx_after_last(path@, '/')));
    }
    let nlen = name.unicode_len();
    let d = find_after_last(name, '.');
    if d == 0 {
        return true;
    }
    let ext = name.substring_char(d, nlen);
    let low = to_ascii_lower(ext);
    proof {
        assert(ext@ =~= name@.skip(idx_after_last(name@, '.')));
    }
    let known = str_eq(low.as_str(), "jpg") || str_eq(low.as_str(), "jpeg") || str_eq(
        low.as_str(),
        "png",
    ) || str_eq(low.as_str(), "webp") || str_eq(low.as_str(), "gif") || str_eq(
        low.as_str(),
        "bmp",
    ) || str_eq(low.as_str(), "tiff") || str_eq(low.as_str(), "tif") || str_eq(
        low.as_str(),
        "svg",
    );
    !known
}

/// The file name for a temporary download: a `thumb_` prefix, a fresh
/// UUID, and the extension the URL suggests.
pub fn temp_download_name(url: &str) -> (r: String)
    ensures
        exists|u: Seq<char>|
            u.len() == 36 && r@ == "thumb_"@ + u + spec_extract_file_extension(url@),
{
    let ext = extract_file_extension(url);
    let u = uuid_v4_hyphenated();
    let r = String::from_str("thumb_").concat(u.as_str()).concat(ext.as_str());
    proof {
        assert(u@.len() == 36 && r@ == "thumb_"@ + u@ + spec_extract_file_extension(url@));
    }
    r
}

} // verus!
