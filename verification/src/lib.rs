//! Normalization of image documents into a minimal single-page PDF container.
//!
//! The library decodes an image, corrects its orientation (metadata tag
//! winning over the decoder's report), downscales it to a bounded size while
//! preserving aspect ratio, re-encodes it as JPEG, and assembles a
//! structurally valid single-page PDF around the encoded bytes. It also
//! offers standalone image optimization (resize and re-encode) and base64
//! adapters.

pub mod b64;
pub mod codec;
pub mod container;
pub mod error;
pub mod mime;
pub mod normalize;
pub mod numfmt;
pub mod optimize;
pub mod orientation;
pub mod size;

pub use b64::base64_to_buffer;
pub use b64::buffer_to_base64;
pub use error::DocError;
pub use mime::is_pdf_mime;
pub use mime::is_supported_image_mime;
pub use normalize::normalize_cv_to_pdf;
pub use optimize::ImageOptimizeOptions;
pub use optimize::image_to_webp;
pub use optimize::image_to_webp_from_base64;
pub use optimize::optimize_image;
pub use optimize::optimize_image_from_base64;
pub use size::calculate_target_size;
