use yana_media::download::{
    backoff_ms, classify_fetch_error, is_valid_image_content_type, is_valid_image_magic,
    should_retry, timeout_secs, validate_download, MAX_DOWNLOAD_BYTES, MAX_RETRIES,
};
use yana_media::errors::{FetchClass, PipelineError};

#[test]
fn permanent_errors_are_never_retried() {
    let permanents = [
        "HTTP error 404 when downloading from https://x",
        "HTTP error 403 when downloading from https://x",
        "HTTP error 401 when downloading from https://x",
        "Downloaded image is empty from https://x",
        "Image too large (99 bytes) from https://x",
        "Failed to open image /tmp/t: bad data",
        "Failed to save thumbnail to /tmp/t: disk full",
    ];
    for e in permanents {
        assert_eq!(classify_fetch_error(e), FetchClass::Permanent);
        assert!(!should_retry(e, 1, MAX_RETRIES));
        assert!(!should_retry(e, 2, MAX_RETRIES));
    }
}

#[test]
fn transient_errors_retry_until_the_limit() {
    let transients = [
        "Failed to read response body from https://x: connection reset",
        "timed out waiting for the server",
        "some entirely unrecognized failure",
    ];
    for e in transients {
        assert_eq!(classify_fetch_error(e), FetchClass::Transient);
        assert!(should_retry(e, 1, MAX_RETRIES));
        assert!(should_retry(e, 2, MAX_RETRIES));
        assert!(!should_retry(e, 3, MAX_RETRIES));
        assert!(!should_retry(e, 4, MAX_RETRIES));
    }
}

#[test]
fn backoff_doubles_and_timeout_grows() {
    assert_eq!(backoff_ms(1), 1000);
    assert_eq!(backoff_ms(2), 2000);
    assert_eq!(backoff_ms(3), 4000);
    assert!(backoff_ms(1) < backoff_ms(2));
    assert!(backoff_ms(2) < backoff_ms(3));
    assert_eq!(timeout_secs(1), 30);
    assert_eq!(timeout_secs(2), 40);
    assert_eq!(timeout_secs(3), 50);
}

#[test]
fn magic_check_recognizes_image_headers() {
    assert!(is_valid_image_magic(&vec![0xff, 0xd8, 0xff, 0xe0]));
    assert!(is_valid_image_magic(&vec![0x89, 0x50, 0x4e, 0x47]));
    assert!(is_valid_image_magic(&b"GIF89a".to_vec()));
    assert!(is_valid_image_magic(&b"BMxx".to_vec()));
    assert!(is_valid_image_magic(&b"RIFFxxxx".to_vec()));
    assert!(is_valid_image_magic(&vec![0x49, 0x49, 0x2a, 0x00]));
    assert!(is_valid_image_magic(&vec![0x4d, 0x4d, 0x00, 0x2a]));
    assert!(is_valid_image_magic(&b"<svg width=\"1\">".to_vec()));
    assert!(!is_valid_image_magic(&b"txt".to_vec()));
    assert!(!is_valid_image_magic(&b"plain text here".to_vec()));
    assert!(!is_valid_image_magic(&Vec::new()));
}

#[test]
fn content_type_check_is_advisory_but_exact() {
    assert!(is_valid_image_content_type("image/png"));
    assert!(is_valid_image_content_type("image/jpeg; charset=binary"));
    assert!(is_valid_image_content_type(""));
    assert!(is_valid_image_content_type("application/octet-stream"));
    assert!(!is_valid_image_content_type("text/html"));
    assert!(!is_valid_image_content_type("application/json"));
}

#[test]
fn validation_rejects_empty_oversize_and_non_images() {
    let png = vec![0x89u8, 0x50, 0x4e, 0x47, 0x0d, 0x0a, 0x1a, 0x0a];

    assert!(validate_download(None, &png, MAX_DOWNLOAD_BYTES).is_ok());
    assert!(validate_download(Some(8), &png, MAX_DOWNLOAD_BYTES).is_ok());

    let empty: Vec<u8> = Vec::new();
    let r = validate_download(None, &empty, MAX_DOWNLOAD_BYTES);
    assert!(matches!(
        r,
        Err(PipelineError::Fetch(FetchClass::Permanent, _))
    ));

    let r = validate_download(Some(MAX_DOWNLOAD_BYTES + 1), &png, MAX_DOWNLOAD_BYTES);
    assert!(matches!(
        r,
        Err(PipelineError::Fetch(FetchClass::Permanent, _))
    ));

    let r = validate_download(None, &png, 4);
    assert!(matches!(
        r,
        Err(PipelineError::Fetch(FetchClass::Permanent, _))
    ));

    let text = b"this is not an image at all".to_vec();
    let r = validate_download(None, &text, MAX_DOWNLOAD_BYTES);
    assert!(matches!(
        r,
        Err(PipelineError::Fetch(FetchClass::Permanent, _))
    ));
}
