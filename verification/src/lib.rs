//! Verified core of a Monte-Carlo path tracer.
//!
//! The floating-point geometry (vectors, intersection arithmetic, shading)
//! lives outside this crate; what is verified here is the discrete logic the
//! renderer is built around: axis cycling, image configuration and pixel
//! layout, the work-splitting driver, the light-transport step decisions,
//! texture-image texel clamping, the Perlin permutation tables, and the
//! scene loader's pattern and name resolution.

mod axis;
mod bvh;
mod camera;
mod config;
mod duration;
mod error;
mod image;
mod perlin;
mod render;
mod scene;

pub use axis::Axis;
pub use bvh::{bvh_split, MAX_PER_LEAF};
pub use camera::validate_camera;
pub use config::ImageConfig;
pub use duration::human_duration;
pub use error::SceneError;
pub use image::{Image, Texel};
pub use perlin::{generate_perm, Perlin};
pub use render::{locate_pixel, split_span, trace_step};
pub use render::{PathEvent, PathStep, PixelCoord, PixelSpan};
pub use scene::{expand_pattern_range, SceneLoader};
