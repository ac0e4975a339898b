//! Image optimization: bounded resize and re-encode at a chosen quality and
//! output codec, resolved once from the caller's options.

use vstd::prelude::*;

use crate::b64::base64_decoded;
use crate::b64::base64_to_buffer;
use crate::codec::decode_image;
use crate::codec::decoded_dims;
use crate::codec::encode_jpeg;
use crate::codec::encode_png;
use crate::codec::encode_webp;
use crate::codec::resize_exact;
use crate::codec::within_decode_limit;
use crate::error::DocError;
use crate::mime::str_eq;
use crate::size::calculate_target_size;
use crate::size::target_size_spec;

verus! {

/// Caller options for image optimization. `max_width`/`max_height` bound the
/// output dimensions (0 or absent = unbounded); `quality` is clamped into
/// 1..=100 (default 80); `format` picks the output codec ("jpeg", "jpg",
/// "png", "webp"; "auto", absent or unrecognized fall back to PNG).
pub struct ImageOptimizeOptions {
    pub max_width: Option<u32>,
    pub max_height: Option<u32>,
    pub quality: Option<u8>,
    pub format: Option<String>,
}

/// The output codec, resolved once at the orchestration boundary.
#[derive(Clone, Copy, Debug, PartialEq, Eq, Structural)]
pub enum OutputFormat {
    Jpeg,
    Png,
    Webp,
}

/// The view of an optional string option.
pub open spec fn opt_string_view(f: Option<String>) -> Option<Seq<char>> {
    match f {
        Some(s) => Some(s@),
        None => None,
    }
}

/// The codec a format option resolves to; "auto", absent and unrecognized
/// values all resolve to the fixed PNG fallback.
pub open spec fn resolve_format_spec(f: Option<Seq<char>>) -> OutputFormat {
    if f is Some && (f->0 == "jpeg"@ || f->0 == "jpg"@) {
        OutputFormat::Jpeg
    } else if f is Some && f->0 == "png"@ {
        OutputFormat::Png
    } else if f is Some && f->0 == "webp"@ {
        OutputFormat::Webp
    } else {
        OutputFormat::Png
    }
}

/// Resolve the output codec from the format option.
pub fn resolve_format(f: &Option<String>) -> (r: OutputFormat)
    ensures
        r == resolve_format_spec(opt_string_view(*f)),
{
    match f {
        Some(s) => {
            if str_eq(s.as_str(), "jpeg") || str_eq(s.as_str(), "jpg") {
                OutputFormat::Jpeg
            } else if str_eq(s.as_str(), "png") {
                OutputFormat::Png
            } else if str_eq(s.as_str(), "webp") {
                OutputFormat::Webp
            } else {
                OutputFormat::Png
            }
        },
        None => OutputFormat::Png,
    }
}

/// The quality factor after defaulting and clamping.
pub open spec fn clamped_quality_spec(q: Option<u8>) -> u8 {
    let v: u8 = if q is Some {
        q->0
    } else {
        80u8
    };
    if v < 1 {
        1u8
    } else if v > 100 {
        100u8
    } else {
        v
    }
}

/// Clamp the quality option into 1..=100 (default 80). Out-of-range values
/// are clamped, never rejected.
pub fn clamped_quality(q: Option<u8>) -> (r: u8)
    ensures
        r == clamped_quality_spec(q),
        1 <= r <= 100,
        q is Some && 1 <= q->0 <= 100 ==> r == q->0,
        q is None ==> r == 80,
{
    let v: u8 = match q {
        Some(v) => v,
        None => 80,
    };
    if v < 1 {
        1
    } else if v > 100 {
        100
    } else {
        v
    }
}

/// Whether a resize triggers: some bound is set and exceeded.
pub open spec fn resize_trigger(orig_w: u32, orig_h: u32, max_w: u32, max_h: u32) -> bool {
    (max_w > 0 && orig_w > max_w) || (max_h > 0 && orig_h > max_h)
}

/// The single maximum-side constraint both axes are held to jointly when a
/// resize triggers. With a single exceeded bound, that bound becomes the
/// joint constraint for both axes; when both bounds are exceeded, the looser
/// one drives the joint constraint.
pub open spec fn effective_bound(orig_w: u32, orig_h: u32, max_w: u32, max_h: u32) -> u32 {
    let wb = max_w > 0 && orig_w > max_w;
    let hb = max_h > 0 && orig_h > max_h;
    if wb && hb {
        if max_w >= max_h {
            max_w
        } else {
            max_h
        }
    } else if wb {
        max_w
    } else {
        max_h
    }
}

/// The dimensions the optimize path encodes at.
pub open spec fn planned_dims_spec(orig_w: u32, orig_h: u32, max_w: u32, max_h: u32) -> (int, int) {
    if resize_trigger(orig_w, orig_h, max_w, max_h) {
        target_size_spec(
            orig_w as int,
            orig_h as int,
            effective_bound(orig_w, orig_h, max_w, max_h) as int,
        )
    } else {
        (orig_w as int, orig_h as int)
    }
}

/// The width bound the options request (0 = unbounded).
pub open spec fn requested_max_w(options: Option<ImageOptimizeOptions>) -> u32 {
    match options {
        Some(o) => match o.max_width {
            Some(v) => v,
            None => 0,
        },
        None => 0,
    }
}

/// The height bound the options request (0 = unbounded).
pub open spec fn requested_max_h(options: Option<ImageOptimizeOptions>) -> u32 {
    match options {
        Some(o) => match o.max_height {
            Some(v) => v,
            None => 0,
        },
        None => 0,
    }
}

/// The output codec the options resolve to (PNG fallback when absent).
pub open spec fn requested_format(options: Option<ImageOptimizeOptions>) -> OutputFormat {
    match options {
        Some(o) => resolve_format_spec(opt_string_view(o.format)),
        None => OutputFormat::Png,
    }
}

/// The dimensions at which each codec's encoder succeeds: JPEG accepts both
/// axes in 1..=65535, WebP in 1..=16384, PNG any nonzero dimensions.
pub open spec fn encode_ok_for(fmt: OutputFormat, w: int, h: int) -> bool {
    match fmt {
        OutputFormat::Jpeg => 1 <= w <= 65535 && 1 <= h <= 65535,
        OutputFormat::Webp => 1 <= w <= 16384 && 1 <= h <= 16384,
        OutputFormat::Png => 1 <= w && 1 <= h,
    }
}

/// What an optimize call returns for a decodable input: success exactly when
/// the resolved codec accepts the planned dimensions, and then a stream that
/// decodes back to exactly those dimensions (stated up to the decoder's
/// default allocation limit).
pub open spec fn optimized_output_spec(
    bytes: Seq<u8>,
    options: Option<ImageOptimizeOptions>,
    r: Result<Vec<u8>, DocError>,
) -> bool {
    decoded_dims(bytes) is Some ==> {
        let od = decoded_dims(bytes)->0;
        let dims = planned_dims_spec(od.0, od.1, requested_max_w(options), requested_max_h(options));
        &&& (r is Ok <==> encode_ok_for(requested_format(options), dims.0, dims.1))
        &&& (r is Ok && within_decode_limit(dims.0, dims.1) ==> decoded_dims(r->Ok_0@) == Some(
            (dims.0 as u32, dims.1 as u32),
        ))
    }
}

/// What a WebP conversion returns for a decodable input: success exactly when
/// the WebP encoder accepts the decoded dimensions, and then a RIFF-tagged
/// stream that decodes back to exactly those dimensions.
pub open spec fn webp_output_spec(bytes: Seq<u8>, r: Result<Vec<u8>, DocError>) -> bool {
    decoded_dims(bytes) is Some ==> {
        let od = decoded_dims(bytes)->0;
        &&& (r is Ok <==> encode_ok_for(OutputFormat::Webp, od.0 as int, od.1 as int))
        &&& (r is Ok ==> r->Ok_0@.len() >= 12 && r->Ok_0@.subrange(0, 4) == seq![
            0x52u8,
            0x49u8,
            0x46u8,
            0x46u8,
        ] && r->Ok_0@.subrange(8, 12) == seq![0x57u8, 0x45u8, 0x42u8, 0x50u8])
        &&& (r is Ok && within_decode_limit(od.0 as int, od.1 as int) ==> decoded_dims(r->Ok_0@)
            == Some((od.0, od.1)))
    }
}

/// Decide whether to resize and to what target: unchanged when no set bound
/// is exceeded, else the size policy's target under the joint maximum-side
/// constraint.
pub fn plan_dimensions(orig_w: u32, orig_h: u32, max_w: u32, max_h: u32) -> (r: (bool, u32, u32))
    ensures
        r.0 == resize_trigger(orig_w, orig_h, max_w, max_h),
        (r.1 as int, r.2 as int) == planned_dims_spec(orig_w, orig_h, max_w, max_h),
{
    let wb = max_w > 0 && orig_w > max_w;
    let hb = max_h > 0 && orig_h > max_h;
    if wb || hb {
        let bound = if wb && hb {
            if max_w >= max_h {
                max_w
            } else {
                max_h
            }
        } else if wb {
            max_w
        } else {
            max_h
        };
        let (w, h) = calculate_target_size(orig_w, orig_h, bound);
        (true, w, h)
    } else {
        (false, orig_w, orig_h)
    }
}

/// No axis is ever enlarged; both planned axes stay within the joint
/// constraint whenever a resize triggers; and a set bound is honored whenever
/// the other bound is not also exceeded (when both are exceeded, the looser
/// bound drives the joint constraint).
pub proof fn lemma_bounds_respected(orig_w: u32, orig_h: u32, max_w: u32, max_h: u32)
    requires
        1 <= orig_w,
        1 <= orig_h,
    ensures
        planned_dims_spec(orig_w, orig_h, max_w, max_h).0 <= orig_w as int,
        planned_dims_spec(orig_w, orig_h, max_w, max_h).1 <= orig_h as int,
        resize_trigger(orig_w, orig_h, max_w, max_h) ==> {
            let b = effective_bound(orig_w, orig_h, max_w, max_h) as int;
            planned_dims_spec(orig_w, orig_h, max_w, max_h).0 <= b && planned_dims_spec(
                orig_w,
                orig_h,
                max_w,
                max_h,
            ).1 <= b
        },
        max_w > 0 && !(max_h > 0 && orig_h > max_h) ==> planned_dims_spec(
            orig_w,
            orig_h,
            max_w,
            max_h,
        ).0 <= max_w as int,
        max_h > 0 && !(max_w > 0 && orig_w > max_w) ==> planned_dims_spec(
            orig_w,
            orig_h,
            max_w,
            max_h,
        ).1 <= max_h as int,
{
    if resize_trigger(orig_w, orig_h, max_w, max_h) {
        crate::size::lemma_fits_within_bound(
            orig_w as int,
            orig_h as int,
            effective_bound(orig_w, orig_h, max_w, max_h) as int,
        );
    }
}

/// Optimize an in-memory image: decode (format auto-detected), resize when a
/// set bound is exceeded, and re-encode with the resolved codec and clamped
/// quality. Fails with `DecodeFailed` exactly when the bytes are not a
/// decodable image, and with `EncodeFailed` exactly when the resolved codec
/// rejects the planned dimensions; the quality option never causes an error.
pub fn optimize_image(bytes: &Vec<u8>, options: Option<ImageOptimizeOptions>) -> (r: Result<
    Vec<u8>,
    DocError,
>)
    ensures
        (r is Err && r->Err_0 is DecodeFailed) <==> decoded_dims(bytes@) is None,
        r is Err ==> r->Err_0 is DecodeFailed || r->Err_0 is EncodeFailed,
        optimized_output_spec(bytes@, options, r),
{
    let p = match decode_image(bytes) {
        Ok(p) => p,
        Err(m) => {
            return Err(DocError::DecodeFailed(m));
        },
    };
    let plan_in = match options {
        Some(o) => {
            let mw = match o.max_width {
                Some(v) => v,
                None => 0,
            };
            let mh = match o.max_height {
                Some(v) => v,
                None => 0,
            };
            (mw, mh, clamped_quality(o.quality), resolve_format(&o.format))
        },
        None => (0u32, 0u32, 80u8, OutputFormat::Png),
    };
    let (max_w, max_h, quality, fmt) = plan_in;
    let plan = plan_dimensions(p.width(), p.height(), max_w, max_h);
    let resized = if plan.0 {
        resize_exact(p, plan.1, plan.2)
    } else {
        p
    };
    let encoded = match fmt {
        OutputFormat::Jpeg => encode_jpeg(&resized, quality),
        OutputFormat::Png => encode_png(&resized),
        OutputFormat::Webp => encode_webp(&resized),
    };
    match encoded {
        Ok(v) => Ok(v),
        Err(m) => Err(DocError::EncodeFailed(m)),
    }
}

/// Optimize an image given as a base64 string; malformed base64 is rejected
/// as `InvalidInput` before any decoding, and the decoded bytes are handled
/// exactly as by `optimize_image`.
pub fn optimize_image_from_base64(base64: &str, options: Option<ImageOptimizeOptions>) -> (r:
    Result<Vec<u8>, DocError>)
    ensures
        (r is Err && r->Err_0 is InvalidInput) <==> base64_decoded(base64@) is None,
        base64_decoded(base64@) is Some ==> ((r is Err && r->Err_0 is DecodeFailed) <==> decoded_dims(
            base64_decoded(base64@)->0,
        ) is None),
        r is Err ==> r->Err_0 is InvalidInput || r->Err_0 is DecodeFailed
            || r->Err_0 is EncodeFailed,
        base64_decoded(base64@) is Some ==> optimized_output_spec(
            base64_decoded(base64@)->0,
            options,
            r,
        ),
{
    let bytes = match base64_to_buffer(base64) {
        Ok(v) => v,
        Err(e) => {
            return Err(e);
        },
    };
    optimize_image(&bytes, options)
}

/// Re-encode an in-memory image of any supported format as WebP, keeping its
/// dimensions. Fails with `DecodeFailed` exactly when the bytes are not a
/// decodable image, and with `EncodeFailed` exactly when a dimension is
/// outside the WebP encoder's accepted range.
pub fn image_to_webp(bytes: &Vec<u8>) -> (r: Result<Vec<u8>, DocError>)
    ensures
        (r is Err && r->Err_0 is DecodeFailed) <==> decoded_dims(bytes@) is None,
        r is Err ==> r->Err_0 is DecodeFailed || r->Err_0 is EncodeFailed,
        webp_output_spec(bytes@, r),
{
    let p = match decode_image(bytes) {
        Ok(p) => p,
        Err(m) => {
            return Err(DocError::DecodeFailed(m));
        },
    };
    match encode_webp(&p) {
        Ok(v) => Ok(v),
        Err(m) => Err(DocError::EncodeFailed(m)),
    }
}

/// Re-encode a base64-given image as WebP; malformed base64 is rejected as
/// `InvalidInput`, and the decoded bytes are handled exactly as by
/// `image_to_webp`.
pub fn image_to_webp_from_base64(base64: &str) -> (r: Result<Vec<u8>, DocError>)
    ensures
        (r is Err && r->Err_0 is InvalidInput) <==> base64_decoded(base64@) is None,
        base64_decoded(base64@) is Some ==> ((r is Err && r->Err_0 is DecodeFailed) <==> decoded_dims(
            base64_decoded(base64@)->0,
        ) is None),
        r is Err ==> r->Err_0 is InvalidInput || r->Err_0 is DecodeFailed
            || r->Err_0 is EncodeFailed,
        base64_decoded(base64@) is Some ==> webp_output_spec(base64_decoded(base64@)->0, r),
{
    let bytes = match base64_to_buffer(base64) {
        Ok(v) => v,
        Err(e) => {
            return Err(e);
        },
    };
    image_to_webp(&bytes)
}

} // verus!
