use yana_media::batch::finalize_batch;
use yana_media::encode::{process_image_bytes, Mode, PngCompressionMode, PngOptimizationLevel};

#[test]
fn output_matches_input_positions() {
    let paths = vec![
        String::from("a.png"),
        String::from("b.jpg"),
        String::from("c.gif"),
    ];
    let results = vec![
        (2usize, Some(String::from("/tmp/out_c"))),
        (0usize, Some(String::from("/tmp/out_a"))),
        (1usize, Some(String::from("/tmp/out_b"))),
    ];
    let out = finalize_batch(&paths, &results);
    assert_eq!(out, vec![
        String::from("/tmp/out_a"),
        String::from("/tmp/out_b"),
        String::from("/tmp/out_c"),
    ]);
}

#[test]
fn failed_item_falls_back_to_original_path() {
    let paths = vec![
        String::from("one.png"),
        String::from("two.png"),
        String::from("three.png"),
        String::from("four.png"),
    ];
    let results = vec![
        (3usize, Some(String::from("/tmp/4"))),
        (1usize, None),
        (0usize, Some(String::from("/tmp/1"))),
    ];
    let out = finalize_batch(&paths, &results);
    assert_eq!(out.len(), paths.len());
    assert_eq!(out[0], "/tmp/1");
    assert_eq!(out[1], "two.png");
    assert_eq!(out[2], "three.png");
    assert_eq!(out[3], "/tmp/4");
}

#[test]
fn empty_batch_stays_empty() {
    let paths: Vec<String> = Vec::new();
    let results: Vec<(usize, Option<String>)> = Vec::new();
    assert_eq!(finalize_batch(&paths, &results).len(), 0);
}

/// The example batch: an opaque 64x64 PNG and a JPEG both re-encode in
/// their own format, the missing third source falls back to its
/// original path, and the batch keeps length and order with exactly
/// one failure.
#[test]
fn example_batch_with_one_missing_source() {
    let png = {
        let img = image::RgbaImage::from_pixel(64, 64, image::Rgba([50, 60, 70, 255]));
        let mut cursor = std::io::Cursor::new(Vec::new());
        image::DynamicImage::ImageRgba8(img)
            .write_to(&mut cursor, image::ImageFormat::Png)
            .unwrap();
        cursor.into_inner()
    };
    let jpg = {
        let img = image::RgbImage::from_pixel(32, 32, image::Rgb([10, 20, 30]));
        let mut cursor = std::io::Cursor::new(Vec::new());
        image::DynamicImage::ImageRgb8(img)
            .write_to(&mut cursor, image::ImageFormat::Jpeg)
            .unwrap();
        cursor.into_inner()
    };

    let quality = 80u8;
    let mut results: Vec<(usize, Option<String>)> = Vec::new();
    let mut failures = 0usize;
    for (i, bytes) in [Some(&png), Some(&jpg), None].iter().enumerate() {
        match bytes {
            Some(b) => {
                let out = process_image_bytes(
                    b,
                    quality,
                    Mode::original_format,
                    PngCompressionMode::Lossless,
                    PngOptimizationLevel::Default,
                )
                .unwrap();
                assert!(!out.bytes.is_empty());
                results.push((i, Some(format!("/tmp/artifact_{}", i))));
            }
            None => {
                failures += 1;
                results.push((i, None));
            }
        }
    }
    let paths = vec![
        String::from("a.png"),
        String::from("b.jpg"),
        String::from("missing.png"),
    ];
    let out = finalize_batch(&paths, &results);
    assert_eq!(out, vec![
        String::from("/tmp/artifact_0"),
        String::from("/tmp/artifact_1"),
        String::from("missing.png"),
    ]);
    assert_eq!(failures, 1);
}
