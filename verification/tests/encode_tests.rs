use yana_media::encode::{
    clamp_quality, process_image_bytes, Mode, PngCompressionMode, PngOptimizationLevel,
};
use yana_media::format::{detect_image_format, ImageFormatKind};
use yana_media::pixels::{quantize_channel, step_for_quality};

fn sample_bytes(format: image::ImageFormat) -> Vec<u8> {
    let img = image::RgbaImage::from_fn(64, 64, |x, y| {
        image::Rgba([(x * 4) as u8, (y * 4) as u8, 128, 255])
    });
    let mut cursor = std::io::Cursor::new(Vec::new());
    match format {
        image::ImageFormat::Jpeg => {
            let rgb = image::DynamicImage::ImageRgba8(img).to_rgb8();
            image::DynamicImage::ImageRgb8(rgb)
                .write_to(&mut cursor, format)
                .unwrap();
        }
        _ => {
            image::DynamicImage::ImageRgba8(img)
                .write_to(&mut cursor, format)
                .unwrap();
        }
    }
    cursor.into_inner()
}

#[test]
fn original_format_keeps_png_as_png() {
    let input = sample_bytes(image::ImageFormat::Png);
    let out = process_image_bytes(
        &input,
        80,
        Mode::original_format,
        PngCompressionMode::Lossless,
        PngOptimizationLevel::Default,
    )
    .unwrap();
    assert_eq!(detect_image_format(&out.bytes), Some(ImageFormatKind::Png));
    assert!(!out.animation_dropped);
}

#[test]
fn original_format_keeps_jpeg_as_jpeg() {
    let input = sample_bytes(image::ImageFormat::Jpeg);
    let out = process_image_bytes(
        &input,
        80,
        Mode::original_format,
        PngCompressionMode::Lossless,
        PngOptimizationLevel::Default,
    )
    .unwrap();
    assert_eq!(detect_image_format(&out.bytes), Some(ImageFormatKind::Jpeg));
}

#[test]
fn original_format_keeps_webp_as_webp() {
    let input = sample_bytes(image::ImageFormat::WebP);
    let out = process_image_bytes(
        &input,
        80,
        Mode::original_format,
        PngCompressionMode::Lossless,
        PngOptimizationLevel::Default,
    )
    .unwrap();
    assert_eq!(detect_image_format(&out.bytes), Some(ImageFormatKind::WebP));
}

#[test]
fn webp_mode_converts_png_to_webp() {
    let input = sample_bytes(image::ImageFormat::Png);
    let out = process_image_bytes(
        &input,
        80,
        Mode::webp,
        PngCompressionMode::Lossless,
        PngOptimizationLevel::Default,
    )
    .unwrap();
    assert_eq!(detect_image_format(&out.bytes), Some(ImageFormatKind::WebP));
    assert!(!out.animation_dropped);
}

#[test]
fn animated_webp_passes_through_in_both_modes() {
    let mut input = b"RIFF\x20\x00\x00\x00WEBPVP8X".to_vec();
    input.extend_from_slice(b"....ANIM....");
    let out = process_image_bytes(
        &input,
        80,
        Mode::original_format,
        PngCompressionMode::Lossless,
        PngOptimizationLevel::Default,
    )
    .unwrap();
    assert_eq!(out.bytes, input);
    assert!(!out.animation_dropped);

    let out2 = process_image_bytes(
        &input,
        80,
        Mode::webp,
        PngCompressionMode::Lossless,
        PngOptimizationLevel::Default,
    )
    .unwrap();
    assert_eq!(out2.bytes, input);
    assert!(!out2.animation_dropped);
}

#[test]
fn animated_gif_reencodes_whole_in_original_mode() {
    let mut buf = Vec::new();
    {
        let mut enc = image::codecs::gif::GifEncoder::new(&mut buf);
        let f1 = image::Frame::new(image::RgbaImage::from_pixel(4, 4, image::Rgba([1, 2, 3, 255])));
        let f2 = image::Frame::new(image::RgbaImage::from_pixel(4, 4, image::Rgba([9, 8, 7, 255])));
        enc.encode_frames(vec![f1, f2].into_iter()).unwrap();
    }
    // the source stream carries no repeat block
    assert!(!buf.windows(11).any(|w| w == b"NETSCAPE2.0"));
    let out = process_image_bytes(
        &buf,
        80,
        Mode::original_format,
        PngCompressionMode::Lossless,
        PngOptimizationLevel::Default,
    )
    .unwrap();
    assert!(!out.animation_dropped);
    assert_eq!(detect_image_format(&out.bytes), Some(ImageFormatKind::Gif));
    // a genuine re-encode, not a passthrough: the output carries the
    // infinite-repeat block the source lacked, and still animates
    assert!(out.bytes.windows(11).any(|w| w == b"NETSCAPE2.0"));
    assert_ne!(out.bytes, buf);
    let decoder =
        image::codecs::gif::GifDecoder::new(std::io::Cursor::new(out.bytes.as_slice())).unwrap();
    let frames = image::AnimationDecoder::into_frames(decoder)
        .collect_frames()
        .unwrap();
    assert_eq!(frames.len(), 2);
}

#[test]
fn static_gif_reencodes_as_gif_in_original_mode() {
    let mut buf = Vec::new();
    {
        let mut enc = image::codecs::gif::GifEncoder::new(&mut buf);
        let f1 = image::Frame::new(image::RgbaImage::from_pixel(4, 4, image::Rgba([1, 2, 3, 255])));
        enc.encode_frames(vec![f1].into_iter()).unwrap();
    }
    let out = process_image_bytes(
        &buf,
        80,
        Mode::original_format,
        PngCompressionMode::Lossless,
        PngOptimizationLevel::Default,
    )
    .unwrap();
    assert_eq!(detect_image_format(&out.bytes), Some(ImageFormatKind::Gif));
    assert!(!out.animation_dropped);
}

#[test]
fn animated_gif_to_webp_degrades_to_first_frame() {
    let mut buf = Vec::new();
    {
        let mut enc = image::codecs::gif::GifEncoder::new(&mut buf);
        let f1 = image::Frame::new(image::RgbaImage::from_pixel(4, 4, image::Rgba([1, 2, 3, 255])));
        let f2 = image::Frame::new(image::RgbaImage::from_pixel(4, 4, image::Rgba([9, 8, 7, 255])));
        enc.encode_frames(vec![f1, f2].into_iter()).unwrap();
    }
    let out = process_image_bytes(
        &buf,
        80,
        Mode::webp,
        PngCompressionMode::Lossless,
        PngOptimizationLevel::Default,
    )
    .unwrap();
    assert_eq!(detect_image_format(&out.bytes), Some(ImageFormatKind::WebP));
    assert!(out.animation_dropped);
}

#[test]
fn quality_clamps_to_valid_range() {
    assert_eq!(clamp_quality(255), 100);
    assert_eq!(clamp_quality(101), 100);
    assert_eq!(clamp_quality(100), 100);
    assert_eq!(clamp_quality(0), 0);
    assert_eq!(clamp_quality(55), 55);
}

#[test]
fn overquality_encodes_exactly_as_hundred() {
    let input = sample_bytes(image::ImageFormat::Png);
    let hi = process_image_bytes(
        &input,
        255,
        Mode::webp,
        PngCompressionMode::Lossless,
        PngOptimizationLevel::Default,
    )
    .unwrap();
    let hundred = process_image_bytes(
        &input,
        100,
        Mode::webp,
        PngCompressionMode::Lossless,
        PngOptimizationLevel::Default,
    )
    .unwrap();
    assert_eq!(hi.bytes, hundred.bytes);

    let zero_a = process_image_bytes(
        &input,
        0,
        Mode::webp,
        PngCompressionMode::Lossless,
        PngOptimizationLevel::Default,
    )
    .unwrap();
    let zero_b = process_image_bytes(
        &input,
        0,
        Mode::webp,
        PngCompressionMode::Lossless,
        PngOptimizationLevel::Default,
    )
    .unwrap();
    assert_eq!(zero_a.bytes, zero_b.bytes);
}

#[test]
fn lossy_png_still_decodes_and_stays_png() {
    let input = sample_bytes(image::ImageFormat::Png);
    let out = process_image_bytes(
        &input,
        30,
        Mode::original_format,
        PngCompressionMode::Lossy,
        PngOptimizationLevel::Fast,
    )
    .unwrap();
    assert_eq!(detect_image_format(&out.bytes), Some(ImageFormatKind::Png));
    let decoded = image::load_from_memory(&out.bytes).unwrap();
    assert_eq!(decoded.width(), 64);
    assert_eq!(decoded.height(), 64);
}

#[test]
fn quantization_step_table() {
    assert_eq!(step_for_quality(0), 48);
    assert_eq!(step_for_quality(10), 48);
    assert_eq!(step_for_quality(11), 32);
    assert_eq!(step_for_quality(25), 32);
    assert_eq!(step_for_quality(26), 16);
    assert_eq!(step_for_quality(45), 16);
    assert_eq!(step_for_quality(46), 8);
    assert_eq!(step_for_quality(65), 8);
    assert_eq!(step_for_quality(66), 4);
    assert_eq!(step_for_quality(85), 4);
    assert_eq!(step_for_quality(86), 2);
    assert_eq!(step_for_quality(95), 2);
    assert_eq!(step_for_quality(96), 1);
    assert_eq!(step_for_quality(100), 1);
}

#[test]
fn channel_quantization_rounds_to_step() {
    assert_eq!(quantize_channel(100, 8), 104);
    assert_eq!(quantize_channel(100, 1), 100);
    assert_eq!(quantize_channel(100, 0), 100);
    assert_eq!(quantize_channel(255, 48), 240);
    assert_eq!(quantize_channel(255, 2), 255);
    assert_eq!(quantize_channel(0, 48), 0);
    assert_eq!(quantize_channel(23, 48), 0);
    assert_eq!(quantize_channel(24, 48), 48);
}
