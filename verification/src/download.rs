//! Resilient-downloader policy: validation and retry classification.
//!
//! Failures are classified by substring match against a curated
//! taxonomy: authentication and not-found responses, empty bodies,
//! oversize payloads and broken images are permanent and never retried;
//! everything else is optimistically treated as transient. Attempts are
//! bounded, with a per-attempt timeout that grows linearly and an
//! exponential backoff between attempts.

use vstd::prelude::*;
use crate::errors::FetchClass;
use crate::errors::PipelineError;
use crate::strutil::contains_seq;
use crate::strutil::str_contains;

verus! {

/// How many times one download may be attempted.
pub const MAX_RETRIES: u32 = 3;

/// The timeout of the first attempt, in seconds.
pub const INITIAL_TIMEOUT_SECS: u64 = 30;

/// The byte budget a download must stay under.
pub const MAX_DOWNLOAD_BYTES: u64 = 52428800;

/// An error message names a permanent failure: one of the curated
/// patterns for denied, missing, empty, oversize or undecodable
/// content occurs in it.
pub open spec fn spec_is_permanent(e: Seq<char>) -> bool {
    contains_seq(e, "HTTP error 404"@) || contains_seq(e, "HTTP error 403"@) || contains_seq(
        e,
        "HTTP error 401"@,
    ) || contains_seq(e, "Downloaded image is empty"@) || contains_seq(e, "Image too large"@)
        || contains_seq(e, "Failed to open image"@) || contains_seq(
        e,
        "Failed to save thumbnail"@,
    )
}

/// Whether a failed attempt is followed by another: only while attempts
/// remain and the failure is not permanent-class; unrecognized errors
/// retry optimistically.
pub open spec fn spec_should_retry(e: Seq<char>, attempt: u32, max_retries: u32) -> bool {
    attempt < max_retries && !spec_is_permanent(e)
}

/// Classify an error message against the permanent taxonomy.
pub fn classify_fetch_error(error: &str) -> (r: FetchClass)
    ensures
        (r == FetchClass::Permanent) == spec_is_permanent(error@),
{
    if str_contains(error, "HTTP error 404") || str_contains(error, "HTTP error 403")
        || str_contains(error, "HTTP error 401") || str_contains(
        error,
        "Downloaded image is empty",
    ) || str_contains(error, "Image too large") || str_contains(error, "Failed to open image")
        || str_contains(error, "Failed to save thumbnail") {
        FetchClass::Permanent
    } else {
        FetchClass::Transient
    }
}

/// Decide whether a failed attempt is retried.
pub fn should_retry(error: &str, attempt: u32, max_retries: u32) -> (r: bool)
    ensures
        r == spec_should_retry(error@, attempt, max_retries),
{
    if attempt >= max_retries {
        return false;
    }
    match classify_fetch_error(error) {
        FetchClass::Permanent => false,
        FetchClass::Transient => true,
    }
}

/// The wait before retrying after a failed attempt, in milliseconds:
/// one second doubled per completed attempt.
pub open spec fn spec_backoff_ms(attempt: u32) -> int {
    1000 * (vstd::arithmetic::power2::pow2((attempt - 1) as nat) as int)
}

/// The timeout of an attempt, in seconds: ten more per retry.
pub open spec fn spec_timeout_secs(attempt: u32) -> int {
    INITIAL_TIMEOUT_SECS + (attempt - 1) * 10
}

/// Executable backoff computation.
pub fn backoff_ms(attempt: u32) -> (r: u64)
    requires
        1 <= attempt <= 32,
    ensures
        r as int == spec_backoff_ms(attempt),
{
    let mut pow: u64 = 1;
    let mut i: u32 = 1;
    proof {
        vstd::arithmetic::power2::lemma2_to64();
    }
    while i < attempt
        invariant
            1 <= i <= attempt <= 32,
            pow as int == vstd::arithmetic::power2::pow2((i - 1) as nat),
        decreases attempt - i,
    {
        proof {
            vstd::arithmetic::power2::lemma2_to64();
            if i < 32 {
                vstd::arithmetic::power2::lemma_pow2_strictly_increases((i - 1) as nat, 31);
            }
        }
        pow = pow * 2;
        i = i + 1;
    }
    proof {
        vstd::arithmetic::power2::lemma2_to64();
        if attempt < 32 {
            vstd::arithmetic::power2::lemma_pow2_strictly_increases((attempt - 1) as nat, 31);
        }
    }
    pow * 1000
}

/// Executable timeout computation.
pub fn timeout_secs(attempt: u32) -> (r: u64)
    requires
        1 <= attempt,
    ensures
        r as int == spec_timeout_secs(attempt),
{
    INITIAL_TIMEOUT_SECS + (attempt as u64 - 1) * 10
}

/// Retry boundary, permanent half: a permanent-class failure is never
/// retried, whatever the attempt number — such a download is attempted
/// exactly once.
pub proof fn lemma_permanent_never_retried(e: Seq<char>, attempt: u32, max_retries: u32)
    requires
        spec_is_permanent(e),
    ensures
        !spec_should_retry(e, attempt, max_retries),
{
}

/// Retry boundary, transient half: attempts never pass the configured
/// maximum, and both the delay between attempts and the per-attempt
/// timeout strictly increase from each attempt to the next.
pub proof fn lemma_retry_schedule(e: Seq<char>, a: u32, b: u32, max_retries: u32)
    requires
        1 <= a < b,
    ensures
        a >= max_retries ==> !spec_should_retry(e, a, max_retries),
        spec_backoff_ms(a) < spec_backoff_ms(b),
        spec_timeout_secs(a) < spec_timeout_secs(b),
{
    vstd::arithmetic::power2::lemma_pow2_strictly_increases((a - 1) as nat, (b - 1) as nat);
}

/// A body (with the advisory Content-Length, when the server sent one)
/// passes validation: within the byte budget both as announced and as
/// received, not empty, and opening with a recognized image signature.
pub open spec fn spec_download_ok(cl: Option<u64>, body: Seq<u8>, max_bytes: u64) -> bool {
    (cl matches Some(n) ==> n <= max_bytes) && 0 < body.len() && body.len() <= max_bytes
        && spec_is_valid_image_magic(body)
}

/// A byte stream opens with one of the recognized image signatures
/// (JPEG, PNG, GIF, BMP, RIFF, TIFF in either byte order, or SVG text).
pub open spec fn spec_is_valid_image_magic(b: Seq<u8>) -> bool {
    b.len() >= 4 && ((b[0] == 0xffu8 && b[1] == 0xd8u8 && b[2] == 0xffu8) || (b[0] == 0x89u8
        && b[1] == 0x50u8 && b[2] == 0x4eu8 && b[3] == 0x47u8) || (b[0] == 0x47u8 && b[1]
        == 0x49u8 && b[2] == 0x46u8) || (b[0] == 0x42u8 && b[1] == 0x4du8) || (b[0] == 0x52u8
        && b[1] == 0x49u8 && b[2] == 0x46u8 && b[3] == 0x46u8) || (b[0] == 0x49u8 && b[1]
        == 0x49u8 && b[2] == 0x2au8 && b[3] == 0x00u8) || (b[0] == 0x4du8 && b[1] == 0x4du8
        && b[2] == 0x00u8 && b[3] == 0x2au8) || (b[0] == 0x3cu8 && b[1] == 0x73u8 && b[2]
        == 0x76u8 && b[3] == 0x67u8))
}

/// Check a byte stream against the recognized image signatures.
pub fn is_valid_image_magic(data: &Vec<u8>) -> (r: bool)
    ensures
        r == spec_is_valid_image_magic(data@),
{
    if data.len() < 4 {
        return false;
    }
    (data[0] == 0xff && data[1] == 0xd8 && data[2] == 0xff) || (data[0] == 0x89 && data[1] == 0x50
        && data[2] == 0x4e && data[3] == 0x47) || (data[0] == 0x47 && data[1] == 0x49 && data[2]
        == 0x46) || (data[0] == 0x42 && data[1] == 0x4d) || (data[0] == 0x52 && data[1] == 0x49
        && data[2] == 0x46 && data[3] == 0x46) || (data[0] == 0x49 && data[1] == 0x49 && data[2]
        == 0x2a && data[3] == 0x00) || (data[0] == 0x4d && data[1] == 0x4d && data[2] == 0x00
        && data[3] == 0x2a) || (data[0] == 0x3c && data[1] == 0x73 && data[2] == 0x76 && data[3]
        == 0x67)
}

/// A Content-Type header names image content, or is absent or an
/// opaque octet stream, which some servers send for images.
pub open spec fn spec_is_valid_image_content_type(s: Seq<char>) -> bool {
    contains_seq(s, "image/jpeg"@) || contains_seq(s, "image/png"@) || contains_seq(
        s,
        "image/webp"@,
    ) || contains_seq(s, "image/gif"@) || contains_seq(s, "image/bmp"@) || contains_seq(
        s,
        "image/tiff"@,
    ) || contains_seq(s, "image/svg+xml"@) || s.len() == 0 || contains_seq(
        s,
        "application/octet-stream"@,
    )
}

/// Advisory check of the Content-Type header; a failure is logged by
/// the caller, never authoritative.
pub fn is_valid_image_content_type(content_type: &str) -> (r: bool)
    ensures
        r == spec_is_valid_image_content_type(content_type@),
{
    str_contains(content_type, "image/jpeg") || str_contains(content_type, "image/png")
        || str_contains(content_type, "image/webp") || str_contains(content_type, "image/gif")
        || str_contains(content_type, "image/bmp") || str_contains(content_type, "image/tiff")
        || str_contains(content_type, "image/svg+xml") || content_type.unicode_len() == 0
        || str_contains(content_type, "application/octet-stream")
}

/// Validate a downloaded body against the byte budget, the empty-body
/// rule and the image signature; every rejection is permanent-class.
pub fn validate_download(content_length: Option<u64>, body: &Vec<u8>, max_bytes: u64) -> (r:
    Result<(), PipelineError>)
    ensures
        (r is Ok) == spec_download_ok(content_length, body@, max_bytes),
        r matches Err(e) ==> e matches PipelineError::Fetch(FetchClass::Permanent, _),
{
    match content_length {
        Some(n) => {
            if n > max_bytes {
                return Err(
                    PipelineError::Fetch(
                        FetchClass::Permanent,
                        String::from_str("Image too large: announced length over budget"),
                    ),
                );
            }
        },
        None => {},
    }
    if body.len() == 0 {
        return Err(
            PipelineError::Fetch(
                FetchClass::Permanent,
                String::from_str("Downloaded image is empty"),
            ),
        );
    }
    if body.len() as u64 > max_bytes {
        return Err(
            PipelineError::Fetch(
                FetchClass::Permanent,
                String::from_str("Image too large: body over budget"),
            ),
        );
    }
    if !is_valid_image_magic(body) {
        return Err(
            PipelineError::Fetch(
                FetchClass::Permanent,
                String::from_str("Failed to open image: no recognized image signature"),
            ),
        );
    }
    Ok(())
}

} // verus!
