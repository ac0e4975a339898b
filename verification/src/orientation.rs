//! Orientation resolution: combining the embedded-metadata orientation tag
//! with the decoder-reported orientation, metadata taking precedence, and the
//! effect of each transform on pixel dimensions.

use vstd::prelude::*;

verus! {

/// One of the eight standard EXIF display transforms. `Identity` also stands
/// for "no orientation hint".
#[derive(Clone, Copy, Debug, PartialEq, Eq, Structural)]
pub enum Orientation {
    Identity,
    FlipH,
    Rotate180,
    FlipV,
    Rotate90FlipH,
    Rotate90,
    Rotate270FlipH,
    Rotate270,
}

/// The transform an EXIF orientation tag value denotes; `None` for values
/// outside the valid range 1..=8.
pub open spec fn orientation_from_tag_spec(tag: u32) -> Option<Orientation> {
    match tag {
        1u32 => Some(Orientation::Identity),
        2u32 => Some(Orientation::FlipH),
        3u32 => Some(Orientation::Rotate180),
        4u32 => Some(Orientation::FlipV),
        5u32 => Some(Orientation::Rotate90FlipH),
        6u32 => Some(Orientation::Rotate90),
        7u32 => Some(Orientation::Rotate270FlipH),
        8u32 => Some(Orientation::Rotate270),
        _ => None,
    }
}

/// Map an EXIF orientation tag value to its transform.
pub fn orientation_from_tag(tag: u32) -> (r: Option<Orientation>)
    ensures
        r == orientation_from_tag_spec(tag),
{
    match tag {
        1u32 => Some(Orientation::Identity),
        2u32 => Some(Orientation::FlipH),
        3u32 => Some(Orientation::Rotate180),
        4u32 => Some(Orientation::FlipV),
        5u32 => Some(Orientation::Rotate90FlipH),
        6u32 => Some(Orientation::Rotate90),
        7u32 => Some(Orientation::Rotate270FlipH),
        8u32 => Some(Orientation::Rotate270),
        _ => None,
    }
}

/// The resolved orientation: a valid metadata tag always wins; otherwise a
/// valid decoder-reported tag; otherwise the identity transform.
pub open spec fn resolve_orientation_spec(meta_tag: Option<u32>, decoder_tag: Option<u32>) -> Orientation {
    if meta_tag is Some && orientation_from_tag_spec(meta_tag->0) is Some {
        orientation_from_tag_spec(meta_tag->0)->0
    } else if decoder_tag is Some && orientation_from_tag_spec(decoder_tag->0) is Some {
        orientation_from_tag_spec(decoder_tag->0)->0
    } else {
        Orientation::Identity
    }
}

/// Resolve the display orientation from the two sources of hints. The
/// metadata tag takes precedence over the decoder-reported tag whenever it is
/// present and valid; a missing or invalid hint never aborts anything.
pub fn resolve_orientation(meta_tag: Option<u32>, decoder_tag: Option<u32>) -> (r: Orientation)
    ensures
        r == resolve_orientation_spec(meta_tag, decoder_tag),
        meta_tag is Some && orientation_from_tag_spec(meta_tag->0) is Some ==> Some(r)
            == orientation_from_tag_spec(meta_tag->0),
{
    if let Some(t) = meta_tag {
        if let Some(o) = orientation_from_tag(t) {
            return o;
        }
    }
    if let Some(t) = decoder_tag {
        if let Some(o) = orientation_from_tag(t) {
            return o;
        }
    }
    Orientation::Identity
}

/// Whether applying the transform swaps the width and height axes.
pub open spec fn swaps_axes(o: Orientation) -> bool {
    match o {
        Orientation::Rotate90 | Orientation::Rotate270 | Orientation::Rotate90FlipH
            | Orientation::Rotate270FlipH => true,
        _ => false,
    }
}

/// The pixel dimensions after applying the transform to a `w` by `h` buffer.
pub open spec fn oriented_dims_spec(o: Orientation, w: int, h: int) -> (int, int) {
    if swaps_axes(o) {
        (h, w)
    } else {
        (w, h)
    }
}

} // verus!
