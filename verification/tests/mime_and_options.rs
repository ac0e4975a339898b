use cvdoc::is_pdf_mime;
use cvdoc::is_supported_image_mime;
use cvdoc::optimize::clamped_quality;
use cvdoc::optimize::resolve_format;
use cvdoc::optimize::OutputFormat;

#[test]
fn supported_image_mimes() {
    assert!(is_supported_image_mime("image/png"));
    assert!(is_supported_image_mime("image/jpeg"));
    assert!(is_supported_image_mime("image/jpg"));
    assert!(is_supported_image_mime("image/pjpeg"));
}

#[test]
fn mime_comparison_is_case_insensitive() {
    assert!(is_supported_image_mime("IMAGE/JPEG"));
    assert!(is_supported_image_mime("Image/Png"));
    assert!(is_pdf_mime("Application/PDF"));
}

#[test]
fn unsupported_mimes_rejected() {
    assert!(!is_supported_image_mime("image/webp"));
    assert!(!is_supported_image_mime("application/pdf"));
    assert!(!is_supported_image_mime("text/plain"));
    assert!(!is_supported_image_mime(""));
}

#[test]
fn pdf_mimes() {
    assert!(is_pdf_mime("application/pdf"));
    assert!(is_pdf_mime("application/x-pdf"));
    assert!(!is_pdf_mime("application/json"));
    assert!(!is_pdf_mime("image/png"));
}

#[test]
fn quality_clamped_into_range() {
    assert_eq!(clamped_quality(Some(0)), 1);
    assert_eq!(clamped_quality(Some(101)), 100);
    assert_eq!(clamped_quality(Some(255)), 100);
    assert_eq!(clamped_quality(Some(1)), 1);
    assert_eq!(clamped_quality(Some(100)), 100);
    assert_eq!(clamped_quality(Some(70)), 70);
    assert_eq!(clamped_quality(None), 80);
}

#[test]
fn format_resolution() {
    assert_eq!(resolve_format(&Some("jpeg".to_string())), OutputFormat::Jpeg);
    assert_eq!(resolve_format(&Some("jpg".to_string())), OutputFormat::Jpeg);
    assert_eq!(resolve_format(&Some("png".to_string())), OutputFormat::Png);
    assert_eq!(resolve_format(&Some("webp".to_string())), OutputFormat::Webp);
    assert_eq!(resolve_format(&Some("auto".to_string())), OutputFormat::Png);
    assert_eq!(resolve_format(&Some("gif".to_string())), OutputFormat::Png);
    assert_eq!(resolve_format(&None), OutputFormat::Png);
}
