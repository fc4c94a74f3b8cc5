//! Preprocessing and mask compositing around a portrait segmentation model.
//!
//! The pipeline is: plan the inference size, resample the photograph to it,
//! pack the pixels into a channel-planar tensor, run the model (outside this
//! crate), bring the returned mask back to the photograph's size and write
//! it as the alpha channel of the output.
//!
//! Masks are carried here quantised to eight bits; turning the model's
//! floating-point output into those levels, and the tensor bytes into
//! normalised floats, is left to the caller.

mod buffer;
mod composite;
mod decode;
mod error;
mod mask;
mod pack;
mod pipeline;
mod plan;
mod resample;

pub use buffer::{buffer_fits, AlphaMask, RgbaImage};
pub use composite::{apply_mask, apply_mask_serial, write_pixel};
pub use decode::{decode_webp, expand_rgb};
pub use error::PipelineError;
pub use mask::resize_mask;
pub use resample::{fast_resize, resample_buffer, PixelLayout};
pub use pack::{pack_tensor, preprocess_image, InputTensor};
pub use pipeline::remove_background;
pub use plan::{resize_dimensions, REF_SIZE};
