//! Decode/normalize adapter: the pixel-level collaborators (decode, geometric
//! transforms, resize, re-encode, orientation hints) behind trusted wrappers,
//! and the verified orientation application on top of them.

use vstd::prelude::*;

use crate::orientation::Orientation;
use crate::orientation::oriented_dims_spec;

verus! {

#[verifier::external_type_specification]
#[verifier::external_body]
pub struct ExDynamicImage(image::DynamicImage);

/// A decoded pixel buffer, held canonically as 8-bit RGB, together with its
/// pixel dimensions. Values are created and transformed only by the wrappers
/// of this module, which keep the dimension fields equal to the dimensions of
/// the pixel data.
pub struct PixelBuffer {
    img: image::DynamicImage,
    width: u32,
    height: u32,
}

impl PixelBuffer {
    /// Width in pixels.
    pub closed spec fn spec_width(&self) -> u32 {
        self.width
    }

    /// Height in pixels.
    pub closed spec fn spec_height(&self) -> u32 {
        self.height
    }

    /// Width in pixels.
    pub fn width(&self) -> (r: u32)
        ensures
            r == self.spec_width(),
    {
        self.width
    }

    /// Height in pixels.
    pub fn height(&self) -> (r: u32)
        ensures
            r == self.spec_height(),
    {
        self.height
    }
}

/// A pixel count small enough that an image of these dimensions is decoded
/// comfortably within the decoder's default allocation limit; the re-encode
/// wrappers promise a decodable result only up to this size.
pub open spec fn within_decode_limit(w: int, h: int) -> bool {
    3 * w * h <= 100_000_000
}

/// The dimensions of the image that decoding `bytes` yields, or `None` when
/// the bytes are not a decodable image. Decoding is a function of the bytes
/// alone (the format is auto-detected from the content).
pub uninterp spec fn decoded_dims(bytes: Seq<u8>) -> Option<(u32, u32)>;

/// The orientation tag of the primary image block of the embedded metadata
/// container in `bytes`, or `None` when absent or unreadable. A function of
/// the bytes alone.
pub uninterp spec fn exif_orientation_of(bytes: Seq<u8>) -> Option<u32>;

/// The orientation the image decoder itself reports for `bytes`, as an EXIF
/// tag value, or `None` when the bytes are not a decodable JPEG. A function
/// of the bytes alone.
pub uninterp spec fn decoder_orientation_of(bytes: Seq<u8>) -> Option<u32>;

/// Relies on `image::load_from_memory` (format auto-detected from the bytes,
/// not from any label) and `DynamicImage::to_rgb8`: decoding is a pure
/// function of the bytes; the buffer is converted to canonical 8-bit RGB,
/// which keeps the dimensions; the returned dimension fields are exactly
/// those of the decoded pixel data.
#[verifier::external_body]
pub(crate) fn decode_image(bytes: &Vec<u8>) -> (r: Result<PixelBuffer, String>)
    ensures
        r is Ok <==> decoded_dims(bytes@) is Some,
        r is Ok ==> Some((r->Ok_0.spec_width(), r->Ok_0.spec_height())) == decoded_dims(bytes@),
{
    match image::load_from_memory(bytes.as_slice()) {
        Ok(img) => {
            let rgb = image::DynamicImage::ImageRgb8(img.to_rgb8());
            let width = rgb.width();
            let height = rgb.height();
            Ok(PixelBuffer { img: rgb, width, height })
        },
        Err(e) => Err(format!("Failed to process image: {e}")),
    }
}

/// Relies on kamadak-exif (`Reader::read_from_container`, `Exif::get_field`
/// with `In::PRIMARY`, `Value::get_uint`): reads the orientation tag of the
/// primary image block only; `None` on any failure; a pure function of the
/// bytes.
#[verifier::external_body]
pub(crate) fn exif_orientation(bytes: &Vec<u8>) -> (r: Option<u32>)
    ensures
        r == exif_orientation_of(bytes@),
{
    let mut cursor = std::io::Cursor::new(bytes.as_slice());
    match exif::Reader::new().read_from_container(&mut cursor) {
        Ok(meta) => match meta.get_field(exif::Tag::Orientation, exif::In::PRIMARY) {
            Some(field) => field.value.get_uint(0),
            None => None,
        },
        Err(_) => None,
    }
}

/// Relies on `image::codecs::jpeg::JpegDecoder` and
/// `ImageDecoder::orientation`: the decoder's self-reported orientation as an
/// EXIF tag value (the no-transform value 1 for a JPEG without usable
/// metadata); `None` when the bytes are not a decodable JPEG; a pure function
/// of the bytes.
#[verifier::external_body]
pub(crate) fn decoder_orientation(bytes: &Vec<u8>) -> (r: Option<u32>)
    ensures
        r == decoder_orientation_of(bytes@),
{
    let cursor = std::io::Cursor::new(bytes.as_slice());
    match image::codecs::jpeg::JpegDecoder::new(cursor) {
        Ok(mut dec) => match image::ImageDecoder::orientation(&mut dec) {
            Ok(o) => Some(o.to_exif() as u32),
            Err(_) => None,
        },
        Err(_) => None,
    }
}

/// Relies on `DynamicImage::rotate90` (90° clockwise): the output buffer is
/// the rotated input, so its dimensions are the input's swapped.
#[verifier::external_body]
pub(crate) fn rotate90(p: PixelBuffer) -> (r: PixelBuffer)
    ensures
        r.spec_width() == p.spec_height(),
        r.spec_height() == p.spec_width(),
{
    PixelBuffer { img: p.img.rotate90(), width: p.height, height: p.width }
}

/// Relies on `DynamicImage::rotate180`: the output buffer keeps the input's
/// dimensions.
#[verifier::external_body]
pub(crate) fn rotate180(p: PixelBuffer) -> (r: PixelBuffer)
    ensures
        r.spec_width() == p.spec_width(),
        r.spec_height() == p.spec_height(),
{
    PixelBuffer { img: p.img.rotate180(), width: p.width, height: p.height }
}

/// Relies on `DynamicImage::rotate270` (270° clockwise): the output buffer
/// has the input's dimensions swapped.
#[verifier::external_body]
pub(crate) fn rotate270(p: PixelBuffer) -> (r: PixelBuffer)
    ensures
        r.spec_width() == p.spec_height(),
        r.spec_height() == p.spec_width(),
{
    PixelBuffer { img: p.img.rotate270(), width: p.height, height: p.width }
}

/// Relies on `DynamicImage::fliph` (horizontal mirror): the output buffer
/// keeps the input's dimensions.
#[verifier::external_body]
pub(crate) fn fliph(p: PixelBuffer) -> (r: PixelBuffer)
    ensures
        r.spec_width() == p.spec_width(),
        r.spec_height() == p.spec_height(),
{
    PixelBuffer { img: p.img.fliph(), width: p.width, height: p.height }
}

/// Relies on `DynamicImage::flipv` (vertical mirror): the output buffer keeps
/// the input's dimensions.
#[verifier::external_body]
pub(crate) fn flipv(p: PixelBuffer) -> (r: PixelBuffer)
    ensures
        r.spec_width() == p.spec_width(),
        r.spec_height() == p.spec_height(),
{
    PixelBuffer { img: p.img.flipv(), width: p.width, height: p.height }
}

/// Relies on `DynamicImage::resize_exact` with the Lanczos3 multi-tap
/// resampling filter: the output buffer has exactly the requested dimensions.
#[verifier::external_body]
pub(crate) fn resize_exact(p: PixelBuffer, w: u32, h: u32) -> (r: PixelBuffer)
    ensures
        r.spec_width() == w,
        r.spec_height() == h,
{
    PixelBuffer {
        img: p.img.resize_exact(w, h, image::imageops::FilterType::Lanczos3),
        width: w,
        height: h,
    }
}

/// Relies on `image::codecs::jpeg::JpegEncoder::new_with_quality` and
/// `JpegEncoder::encode_image`: re-encodes the buffer's 8-bit RGB samples as
/// JPEG at the given quality (accepted qualities are 1 to 100). The encoder
/// writing to an in-memory buffer fails exactly when a dimension is outside
/// 1..=65535 (its invalid-size error). On success the stream begins with the
/// JPEG start-of-image marker and, for a buffer within the decoder's default
/// allocation limit, decodes back to exactly the buffer's dimensions.
#[verifier::external_body]
pub(crate) fn encode_jpeg(p: &PixelBuffer, quality: u8) -> (r: Result<Vec<u8>, String>)
    requires
        1 <= quality <= 100,
    ensures
        r is Ok <==> (1 <= p.spec_width() <= 65535 && 1 <= p.spec_height() <= 65535),
        r is Ok ==> r->Ok_0@.len() >= 2 && r->Ok_0@[0] == 0xff && r->Ok_0@[1] == 0xd8,
        r is Ok && within_decode_limit(p.spec_width() as int, p.spec_height() as int)
            ==> decoded_dims(r->Ok_0@) == Some((p.spec_width(), p.spec_height())),
{
    let rgb = p.img.to_rgb8();
    let mut out: Vec<u8> = Vec::new();
    let mut cursor = std::io::Cursor::new(&mut out);
    let mut encoder = image::codecs::jpeg::JpegEncoder::new_with_quality(&mut cursor, quality);
    match encoder.encode_image(&rgb) {
        Ok(()) => Ok(out),
        Err(e) => Err(format!("Failed to process image: {e}")),
    }
}

/// Relies on `DynamicImage::write_to` with `ImageFormat::Png`: re-encodes the
/// 8-bit RGB buffer as PNG in memory. The PNG encoder writing to an in-memory
/// buffer fails exactly when a dimension is zero (its zero-width/zero-height
/// errors). On success the stream, for a buffer within the decoder's default
/// allocation limit, decodes back to exactly the buffer's dimensions.
#[verifier::external_body]
pub(crate) fn encode_png(p: &PixelBuffer) -> (r: Result<Vec<u8>, String>)
    ensures
        r is Ok <==> (1 <= p.spec_width() && 1 <= p.spec_height()),
        r is Ok && within_decode_limit(p.spec_width() as int, p.spec_height() as int)
            ==> decoded_dims(r->Ok_0@) == Some((p.spec_width(), p.spec_height())),
{
    let mut out: Vec<u8> = Vec::new();
    let mut cursor = std::io::Cursor::new(&mut out);
    match p.img.write_to(&mut cursor, image::ImageFormat::Png) {
        Ok(()) => Ok(out),
        Err(e) => Err(format!("Failed to process image: {e}")),
    }
}

/// Relies on `DynamicImage::write_to` with `ImageFormat::WebP`: re-encodes
/// the 8-bit RGB buffer as lossless WebP in memory. The WebP encoder writing
/// to an in-memory buffer fails exactly when a dimension is outside 1..=16384
/// (its invalid-dimensions error). On success the stream carries the RIFF
/// container magic and, for a buffer within the decoder's default allocation
/// limit, decodes back to exactly the buffer's dimensions.
#[verifier::external_body]
pub(crate) fn encode_webp(p: &PixelBuffer) -> (r: Result<Vec<u8>, String>)
    ensures
        r is Ok <==> (1 <= p.spec_width() <= 16384 && 1 <= p.spec_height() <= 16384),
        r is Ok ==> r->Ok_0@.len() >= 12 && r->Ok_0@.subrange(0, 4) == seq![
            0x52u8,
            0x49u8,
            0x46u8,
            0x46u8,
        ] && r->Ok_0@.subrange(8, 12) == seq![0x57u8, 0x45u8, 0x42u8, 0x50u8],
        r is Ok && within_decode_limit(p.spec_width() as int, p.spec_height() as int)
            ==> decoded_dims(r->Ok_0@) == Some((p.spec_width(), p.spec_height())),
{
    let mut out: Vec<u8> = Vec::new();
    let mut cursor = std::io::Cursor::new(&mut out);
    match p.img.write_to(&mut cursor, image::ImageFormat::WebP) {
        Ok(()) => Ok(out),
        Err(e) => Err(format!("Failed to process image: {e}")),
    }
}

/// Apply the resolved orientation as a geometric transform to the decoded
/// buffer, yielding the canonical upright buffer; the dimensions change
/// exactly as the transform dictates (swapped for the four rotating
/// transforms, kept otherwise).
pub(crate) fn apply_orientation(p: PixelBuffer, o: Orientation) -> (r: PixelBuffer)
    ensures
        (r.spec_width() as int, r.spec_height() as int) == oriented_dims_spec(
            o,
            p.spec_width() as int,
            p.spec_height() as int,
        ),
{
    match o {
        Orientation::Identity => p,
        Orientation::FlipH => fliph(p),
        Orientation::Rotate180 => rotate180(p),
        Orientation::FlipV => flipv(p),
        Orientation::Rotate90FlipH => fliph(rotate90(p)),
        Orientation::Rotate90 => rotate90(p),
        Orientation::Rotate270FlipH => fliph(rotate270(p)),
        Orientation::Rotate270 => rotate270(p),
    }
}

} // verus!
