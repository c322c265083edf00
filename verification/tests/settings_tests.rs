use yana_media::encode::{PngCompressionMode, PngOptimizationLevel};
use yana_media::errors::{FetchClass, PipelineError};
use yana_media::settings::{default_max_concurrent_uploads, SettingsPayload};
use yana_media::upload_util::{base64_body_field, default_field_name, effective_file_name};

#[test]
fn defaults_match_the_documented_values() {
    let s = SettingsPayload::default();
    assert_eq!(s.quality, 80);
    assert!(!s.convert_to_webp);
    assert!(!s.force_animated_webp);
    assert_eq!(s.png_compression_mode, PngCompressionMode::Lossless);
    assert_eq!(s.png_optimization, PngOptimizationLevel::Default);
    assert!(!s.enable_upload_compression);
    assert_eq!(s.max_concurrent_uploads, 5);
    assert_eq!(default_max_concurrent_uploads(), 5);
}

#[test]
fn clamping_forces_numeric_ranges() {
    let s = SettingsPayload {
        quality: 255,
        convert_to_webp: true,
        force_animated_webp: true,
        png_compression_mode: PngCompressionMode::Lossy,
        png_optimization: PngOptimizationLevel::Best,
        enable_upload_compression: true,
        max_concurrent_uploads: 0,
    };
    let c = s.clamped();
    assert_eq!(c.quality, 100);
    assert!(c.convert_to_webp);
    assert!(c.force_animated_webp);
    assert_eq!(c.png_compression_mode, PngCompressionMode::Lossy);
    assert_eq!(c.png_optimization, PngOptimizationLevel::Best);
    assert!(c.enable_upload_compression);
    assert_eq!(c.max_concurrent_uploads, 1);

    let s2 = SettingsPayload {
        quality: 75,
        convert_to_webp: false,
        force_animated_webp: false,
        png_compression_mode: PngCompressionMode::Lossless,
        png_optimization: PngOptimizationLevel::Default,
        enable_upload_compression: false,
        max_concurrent_uploads: 200,
    };
    let c2 = s2.clamped();
    assert_eq!(c2.quality, 75);
    assert_eq!(c2.max_concurrent_uploads, 5);
}

#[test]
fn error_messages_name_their_class() {
    assert_eq!(
        PipelineError::Decode(String::from("bad stream")).message(),
        "decode error: bad stream"
    );
    assert_eq!(
        PipelineError::Encode(String::from("bad pixels")).message(),
        "encode error: bad pixels"
    );
    assert_eq!(
        PipelineError::Fetch(FetchClass::Permanent, String::from("404")).message(),
        "permanent fetch error: 404"
    );
    assert_eq!(
        PipelineError::Fetch(FetchClass::Transient, String::from("reset")).message(),
        "transient fetch error: reset"
    );
    assert_eq!(
        PipelineError::Resource(String::from("no tmp")).message(),
        "resource error: no tmp"
    );
    assert_eq!(
        PipelineError::Busy.message(),
        "thumbnail generation is already in progress"
    );
}

#[test]
fn upload_helpers_pick_names_and_encode_base64() {
    assert_eq!(default_field_name(), "file");

    let (key, body) = base64_body_field(&b"hello".to_vec(), None);
    assert_eq!(key, "image");
    assert_eq!(body, "aGVsbG8=");

    let (key2, body2) = base64_body_field(&Vec::new(), Some(String::from("payload")));
    assert_eq!(key2, "payload");
    assert_eq!(body2, "");

    assert_eq!(
        effective_file_name(Some(String::from("renamed.png")), "orig.png"),
        "renamed.png"
    );
    assert_eq!(effective_file_name(None, "orig.png"), "orig.png");
}
