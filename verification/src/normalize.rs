//! Pipeline orchestrator: route an input document by its declared content
//! type, and normalize supported images into the single-page container.

use vstd::prelude::*;

use crate::codec::apply_orientation;
use crate::codec::decode_image;
use crate::codec::decoded_dims;
use crate::codec::decoder_orientation;
use crate::codec::decoder_orientation_of;
use crate::codec::encode_jpeg;
use crate::codec::exif_orientation;
use crate::codec::exif_orientation_of;
use crate::codec::resize_exact;
use crate::codec::within_decode_limit;
use crate::container::MAX_EMBEDDED_IMAGE_LEN;
use crate::container::assemble_pdf;
use crate::container::pdf_document;
use crate::error::DocError;
use crate::mime::is_supported_image_mime;
use crate::mime::is_supported_image_mime_spec;
use crate::orientation::Orientation;
use crate::orientation::oriented_dims_spec;
use crate::orientation::resolve_orientation;
use crate::orientation::resolve_orientation_spec;
use crate::size::calculate_target_size;
use crate::size::target_size_spec;

verus! {

/// The fixed long-side cap the normalization path holds images to, chosen to
/// bound the output document's size.
pub const NORMALIZE_MAX_SIDE: u32 = 2000;

/// The fixed JPEG quality the normalization path re-encodes at.
pub const NORMALIZE_JPEG_QUALITY: u8 = 80;

/// The orientation the pipeline resolves for an input document.
pub open spec fn normalized_orientation(bytes: Seq<u8>) -> Orientation {
    resolve_orientation_spec(exif_orientation_of(bytes), decoder_orientation_of(bytes))
}

/// The page dimensions of the normalized container: the decoded dimensions,
/// axes swapped when the resolved orientation rotates, then held to the fixed
/// long-side cap by the size policy.
pub open spec fn normalized_page_dims(bytes: Seq<u8>) -> (int, int)
    recommends
        decoded_dims(bytes) is Some,
{
    let dims = decoded_dims(bytes)->0;
    let od = oriented_dims_spec(normalized_orientation(bytes), dims.0 as int, dims.1 as int);
    target_size_spec(od.0, od.1, NORMALIZE_MAX_SIDE as int)
}

/// Normalize an input document into a single-page container. A document whose
/// declared content type is not a supported image type passes through
/// unchanged. A supported image is decoded (format auto-detected), turned
/// upright per the resolved orientation, downscaled to the fixed long-side
/// cap, re-encoded as JPEG, and embedded in the assembled container, whose
/// page box is exactly `normalized_page_dims` and whose embedded stream is a
/// JPEG that decodes back to exactly those page dimensions. After a
/// successful decode of an image with nonzero dimensions, the only possible
/// failure is a re-encoded stream larger than the embed cap (the stream's
/// length depends on the pixel content, which no contract here can name);
/// that failure surfaces as `EncodeFailed`.
pub fn normalize_cv_to_pdf(bytes: Vec<u8>, content_type: &str) -> (r: Result<Vec<u8>, DocError>)
    ensures
        !is_supported_image_mime_spec(content_type@) ==> r is Ok && r->Ok_0@ == bytes@,
        is_supported_image_mime_spec(content_type@) ==> {
            &&& ((r is Err && r->Err_0 is DecodeFailed) <==> decoded_dims(bytes@) is None)
            &&& (r is Err ==> r->Err_0 is DecodeFailed || r->Err_0 is EncodeFailed)
            &&& (r is Ok ==> exists|j: Seq<u8>|
                {
                    &&& r->Ok_0@ == #[trigger] pdf_document(
                        j,
                        normalized_page_dims(bytes@).0 as nat,
                        normalized_page_dims(bytes@).1 as nat,
                    )
                    &&& j.len() >= 2 && j[0] == 0xff && j[1] == 0xd8
                    &&& decoded_dims(j) == Some(
                        (
                            normalized_page_dims(bytes@).0 as u32,
                            normalized_page_dims(bytes@).1 as u32,
                        ),
                    )
                    &&& j.len() <= MAX_EMBEDDED_IMAGE_LEN
                })
        },
{
    if !is_supported_image_mime(content_type) {
        return Ok(bytes);
    }
    let p = match decode_image(&bytes) {
        Ok(p) => p,
        Err(m) => {
            return Err(DocError::DecodeFailed(m));
        },
    };
    let meta_tag = exif_orientation(&bytes);
    let decoder_tag = decoder_orientation(&bytes);
    let o = resolve_orientation(meta_tag, decoder_tag);
    let upright = apply_orientation(p, o);
    let target = calculate_target_size(upright.width(), upright.height(), NORMALIZE_MAX_SIDE);
    let fitted = if upright.width() > NORMALIZE_MAX_SIDE || upright.height() > NORMALIZE_MAX_SIDE {
        resize_exact(upright, target.0, target.1)
    } else {
        upright
    };
    let jpeg = match encode_jpeg(&fitted, NORMALIZE_JPEG_QUALITY) {
        Ok(v) => v,
        Err(m) => {
            return Err(DocError::EncodeFailed(m));
        },
    };
    if jpeg.len() as u64 > MAX_EMBEDDED_IMAGE_LEN {
        return Err(DocError::EncodeFailed("re-encoded image too large to embed".to_owned()));
    }
    let doc = assemble_pdf(&jpeg, fitted.width(), fitted.height());
    proof {
        assert(fitted.spec_width() <= 2000 && fitted.spec_height() <= 2000);
        assert(3 * (fitted.spec_width() as int) * (fitted.spec_height() as int)
            <= 100_000_000int) by (nonlinear_arith)
            requires
                fitted.spec_width() <= 2000,
                fitted.spec_height() <= 2000,
        ;
        assert(within_decode_limit(fitted.spec_width() as int, fitted.spec_height() as int));
        assert(doc@ == pdf_document(
            jpeg@,
            normalized_page_dims(bytes@).0 as nat,
            normalized_page_dims(bytes@).1 as nat,
        ));
        assert(decoded_dims(jpeg@) == Some(
            (normalized_page_dims(bytes@).0 as u32, normalized_page_dims(bytes@).1 as u32),
        ));
    }
    Ok(doc)
}

} // verus!
