use yana_media::format::{classify, detect_image_format, has_anim_chunk, DetectedKind, ImageFormatKind};

fn png_bytes() -> Vec<u8> {
    let img = image::RgbaImage::from_pixel(8, 8, image::Rgba([10, 20, 30, 255]));
    let mut cursor = std::io::Cursor::new(Vec::new());
    image::DynamicImage::ImageRgba8(img)
        .write_to(&mut cursor, image::ImageFormat::Png)
        .unwrap();
    cursor.into_inner()
}

fn gif_bytes(frames: usize) -> Vec<u8> {
    let mut buf = Vec::new();
    {
        let mut enc = image::codecs::gif::GifEncoder::new(&mut buf);
        let mut fs = Vec::new();
        for i in 0..frames {
            let img = image::RgbaImage::from_pixel(4, 4, image::Rgba([(i * 40) as u8, 0, 0, 255]));
            fs.push(image::Frame::new(img));
        }
        enc.encode_frames(fs.into_iter()).unwrap();
    }
    buf
}

#[test]
fn detect_by_magic_bytes() {
    assert_eq!(
        detect_image_format(&vec![0x89, 0x50, 0x4e, 0x47, 0x0d, 0x0a, 0x1a, 0x0a, 0]),
        Some(ImageFormatKind::Png)
    );
    assert_eq!(
        detect_image_format(&vec![0xff, 0xd8, 0xff, 0xe0]),
        Some(ImageFormatKind::Jpeg)
    );
    assert_eq!(
        detect_image_format(&b"GIF89a....".to_vec()),
        Some(ImageFormatKind::Gif)
    );
    assert_eq!(
        detect_image_format(&b"GIF87a....".to_vec()),
        Some(ImageFormatKind::Gif)
    );
    assert_eq!(
        detect_image_format(&b"RIFF\x10\x00\x00\x00WEBPVP8 ".to_vec()),
        Some(ImageFormatKind::WebP)
    );
    assert_eq!(
        detect_image_format(&vec![0x4d, 0x4d, 0x00, 0x2a]),
        Some(ImageFormatKind::Tiff)
    );
    assert_eq!(
        detect_image_format(&vec![0x49, 0x49, 0x2a, 0x00]),
        Some(ImageFormatKind::Tiff)
    );
    assert_eq!(detect_image_format(&b"BMxx".to_vec()), Some(ImageFormatKind::Bmp));
    assert_eq!(
        detect_image_format(&vec![0x00, 0x00, 0x01, 0x00]),
        Some(ImageFormatKind::Ico)
    );
    assert_eq!(detect_image_format(&b"P6 1 1 255 ".to_vec()), Some(ImageFormatKind::Pnm));
    assert_eq!(detect_image_format(&b"not an image".to_vec()), None);
    assert_eq!(detect_image_format(&Vec::new()), None);
}

#[test]
fn classify_rejects_unknown_signature() {
    let r = classify(&b"plain text, no container".to_vec());
    assert!(r.is_err());
}

#[test]
fn classify_is_deterministic_on_identical_bytes() {
    let bytes = png_bytes();
    let a = classify(&bytes).unwrap();
    let b = classify(&bytes).unwrap();
    assert_eq!(a, b);
    let g = gif_bytes(2);
    let c = classify(&g).unwrap();
    let d = classify(&g).unwrap();
    assert_eq!(c, d);
}

#[test]
fn classify_static_png() {
    let bytes = png_bytes();
    assert_eq!(
        classify(&bytes).unwrap(),
        DetectedKind::Static(ImageFormatKind::Png)
    );
}

#[test]
fn classify_gif_by_frame_count() {
    assert_eq!(
        classify(&gif_bytes(1)).unwrap(),
        DetectedKind::Static(ImageFormatKind::Gif)
    );
    assert_eq!(
        classify(&gif_bytes(2)).unwrap(),
        DetectedKind::Animated(ImageFormatKind::Gif)
    );
}

#[test]
fn classify_webp_by_anim_marker() {
    let mut animated = b"RIFF\x20\x00\x00\x00WEBPVP8X".to_vec();
    animated.extend_from_slice(b"....ANIM....");
    assert!(has_anim_chunk(&animated));
    assert_eq!(
        classify(&animated).unwrap(),
        DetectedKind::Animated(ImageFormatKind::WebP)
    );

    let plain = b"RIFF\x20\x00\x00\x00WEBPVP8 ........".to_vec();
    assert!(!has_anim_chunk(&plain));
    assert_eq!(
        classify(&plain).unwrap(),
        DetectedKind::Static(ImageFormatKind::WebP)
    );
}
