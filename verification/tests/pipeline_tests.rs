use cvdoc::image_to_webp;
use cvdoc::image_to_webp_from_base64;
use cvdoc::normalize_cv_to_pdf;
use cvdoc::optimize_image;
use cvdoc::optimize_image_from_base64;
use cvdoc::buffer_to_base64;
use cvdoc::DocError;
use cvdoc::ImageOptimizeOptions;

fn find(haystack: &[u8], needle: &[u8]) -> Option<usize> {
    if needle.is_empty() || haystack.len() < needle.len() {
        return None;
    }
    (0..=haystack.len() - needle.len()).find(|&i| &haystack[i..i + needle.len()] == needle)
}

fn make_jpeg(w: u32, h: u32) -> Vec<u8> {
    let img = image::DynamicImage::ImageRgb8(image::RgbImage::from_pixel(
        w,
        h,
        image::Rgb([100, 150, 200]),
    ));
    let mut out: Vec<u8> = Vec::new();
    let mut cursor = std::io::Cursor::new(&mut out);
    let mut encoder = image::codecs::jpeg::JpegEncoder::new_with_quality(&mut cursor, 85);
    encoder.encode_image(&img).unwrap();
    out
}

fn make_png(w: u32, h: u32) -> Vec<u8> {
    let img = image::DynamicImage::ImageRgb8(image::RgbImage::from_pixel(
        w,
        h,
        image::Rgb([10, 20, 30]),
    ));
    let mut out: Vec<u8> = Vec::new();
    let mut cursor = std::io::Cursor::new(&mut out);
    img.write_to(&mut cursor, image::ImageFormat::Png).unwrap();
    out
}

/// Splice a minimal EXIF APP1 segment carrying the orientation tag right
/// after the JPEG start-of-image marker.
fn with_exif_orientation(jpeg: &[u8], orientation: u16) -> Vec<u8> {
    assert_eq!(&jpeg[0..2], &[0xFF, 0xD8]);
    let mut payload: Vec<u8> = Vec::new();
    payload.extend_from_slice(b"Exif\0\0");
    // TIFF header, little-endian, first IFD at offset 8
    payload.extend_from_slice(&[0x49, 0x49, 0x2A, 0x00, 0x08, 0x00, 0x00, 0x00]);
    // one IFD entry: tag 0x0112 (orientation), type SHORT, count 1
    payload.extend_from_slice(&[0x01, 0x00]);
    payload.extend_from_slice(&[0x12, 0x01]);
    payload.extend_from_slice(&[0x03, 0x00]);
    payload.extend_from_slice(&[0x01, 0x00, 0x00, 0x00]);
    payload.extend_from_slice(&orientation.to_le_bytes());
    payload.extend_from_slice(&[0x00, 0x00]);
    // no further IFDs
    payload.extend_from_slice(&[0x00, 0x00, 0x00, 0x00]);
    let seg_len = (payload.len() + 2) as u16;
    let mut out = Vec::new();
    out.extend_from_slice(&jpeg[0..2]);
    out.push(0xFF);
    out.push(0xE1);
    out.extend_from_slice(&seg_len.to_be_bytes());
    out.extend_from_slice(&payload);
    out.extend_from_slice(&jpeg[2..]);
    out
}

#[test]
fn passthrough_keeps_bytes_of_unsupported_content_types() {
    let data = vec![1u8, 2, 3, 4, 5];
    assert_eq!(normalize_cv_to_pdf(data.clone(), "text/plain").unwrap(), data);
    assert_eq!(normalize_cv_to_pdf(data.clone(), "application/pdf").unwrap(), data);
    assert_eq!(normalize_cv_to_pdf(data.clone(), "image/webp").unwrap(), data);
    assert_eq!(normalize_cv_to_pdf(Vec::new(), "").unwrap(), Vec::<u8>::new());
}

#[test]
fn optimize_scales_a_large_jpeg_to_webp() {
    let jpeg = make_jpeg(4000, 3000);
    let out = optimize_image(
        &jpeg,
        Some(ImageOptimizeOptions {
            max_width: Some(800),
            max_height: Some(0),
            quality: Some(70),
            format: Some("webp".to_string()),
        }),
    )
    .unwrap();
    assert!(!out.is_empty());
    assert_eq!(&out[0..4], b"RIFF");
    assert_eq!(&out[8..12], b"WEBP");
    let round = image::load_from_memory(&out).unwrap();
    assert_eq!(round.width(), 800);
    assert_eq!(round.height(), 600);
}

#[test]
fn optimize_without_bounds_keeps_dimensions() {
    let png = make_png(30, 20);
    let out = optimize_image(
        &png,
        Some(ImageOptimizeOptions {
            max_width: None,
            max_height: None,
            quality: Some(255),
            format: Some("jpeg".to_string()),
        }),
    )
    .unwrap();
    let round = image::load_from_memory(&out).unwrap();
    assert_eq!((round.width(), round.height()), (30, 20));
    assert_eq!(image::guess_format(&out).unwrap(), image::ImageFormat::Jpeg);
}

#[test]
fn optimize_with_both_bounds_exceeded() {
    let png = make_png(1000, 750);
    let out = optimize_image(
        &png,
        Some(ImageOptimizeOptions {
            max_width: Some(200),
            max_height: Some(150),
            quality: None,
            format: Some("png".to_string()),
        }),
    )
    .unwrap();
    let round = image::load_from_memory(&out).unwrap();
    assert_eq!((round.width(), round.height()), (200, 150));
}

#[test]
fn optimize_with_height_bound_only() {
    let png = make_png(1000, 750);
    let out = optimize_image(
        &png,
        Some(ImageOptimizeOptions {
            max_width: None,
            max_height: Some(150),
            quality: None,
            format: Some("png".to_string()),
        }),
    )
    .unwrap();
    let round = image::load_from_memory(&out).unwrap();
    // the single bound becomes the max-side constraint for both axes jointly
    assert_eq!((round.width(), round.height()), (150, 113));
}

#[test]
fn optimize_default_options_fall_back_to_png() {
    let jpeg = make_jpeg(16, 16);
    let out = optimize_image(&jpeg, None).unwrap();
    assert_eq!(image::guess_format(&out).unwrap(), image::ImageFormat::Png);
}

#[test]
fn optimize_rejects_undecodable_bytes() {
    let err = optimize_image(&vec![1u8, 2, 3], None).unwrap_err();
    assert!(matches!(err, DocError::DecodeFailed(_)));
}

#[test]
fn webp_conversion_keeps_dimensions() {
    let png = make_png(21, 13);
    let out = image_to_webp(&png).unwrap();
    assert_eq!(&out[0..4], b"RIFF");
    let round = image::load_from_memory(&out).unwrap();
    assert_eq!((round.width(), round.height()), (21, 13));
}

#[test]
fn base64_entry_points_match_buffer_entry_points() {
    let png = make_png(9, 7);
    let b64 = buffer_to_base64(&png);
    let direct = image_to_webp(&png).unwrap();
    assert_eq!(image_to_webp_from_base64(&b64).unwrap(), direct);
    let opt_direct = optimize_image(&png, None).unwrap();
    assert_eq!(optimize_image_from_base64(&b64, None).unwrap(), opt_direct);
    let err = optimize_image_from_base64("%%%", None).unwrap_err();
    assert!(matches!(err, DocError::InvalidInput(_)));
}

#[test]
fn normalize_embeds_an_upright_jpeg_page() {
    // stored 4000x3000, tagged "rotate 90 clockwise": upright 3000x4000,
    // capped to the fixed long side 2000 -> page box 1500x2000
    let jpeg = with_exif_orientation(&make_jpeg(4000, 3000), 6);
    let doc = normalize_cv_to_pdf(jpeg, "image/jpeg").unwrap();
    assert!(doc.starts_with(b"%PDF-1.4\n"));
    assert!(find(&doc, b"/MediaBox [0 0 1500 2000]").is_some());
    assert!(find(&doc, b"/Width 1500 /Height 2000").is_some());
    assert!(find(&doc, b"/Filter /DCTDecode").is_some());
    // the embedded stream is a JPEG: start-of-image marker right after the
    // image object's stream marker
    let p = find(&doc, b"stream\n").expect("stream marker") + "stream\n".len();
    assert_eq!(&doc[p..p + 2], &[0xFF, 0xD8]);
}

#[test]
fn normalize_untagged_image_keeps_axes() {
    let doc = normalize_cv_to_pdf(make_jpeg(4000, 3000), "image/jpeg").unwrap();
    assert!(find(&doc, b"/MediaBox [0 0 2000 1500]").is_some());
}

#[test]
fn normalize_small_image_is_not_upscaled() {
    let doc = normalize_cv_to_pdf(make_png(640, 480), "image/png").unwrap();
    assert!(find(&doc, b"/MediaBox [0 0 640 480]").is_some());
    assert!(find(&doc, b"/Width 640 /Height 480").is_some());
}

#[test]
fn normalize_rejects_undecodable_bytes() {
    let err = normalize_cv_to_pdf(vec![0u8; 16], "image/png").unwrap_err();
    assert!(matches!(err, DocError::DecodeFailed(_)));
}

#[test]
fn assembled_container_opens_in_an_external_reader() {
    let doc = normalize_cv_to_pdf(make_jpeg(40, 30), "image/jpeg").unwrap();
    let text = pdf_extract::extract_text_from_mem(&doc).expect("the container must be readable");
    assert!(text.trim().is_empty());
}

#[test]
fn out_of_range_quality_is_clamped_not_rejected() {
    let png = make_png(12, 8);
    for q in [0u8, 101, 255] {
        let out = optimize_image(
            &png,
            Some(ImageOptimizeOptions {
                max_width: None,
                max_height: None,
                quality: Some(q),
                format: Some("jpeg".to_string()),
            }),
        )
        .unwrap();
        let round = image::load_from_memory(&out).unwrap();
        assert_eq!((round.width(), round.height()), (12, 8));
    }
}
