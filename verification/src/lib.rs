//! The integer core of an interactive escape-time fractal renderer.
//!
//! A frame is rendered in passes. While the user drags or zooms, coarse
//! preview passes keep the latency low; when the gesture ends, one final
//! pass at full quality replaces the preview. This crate holds everything
//! about a pass that is not floating-point arithmetic:
//!
//! - [`grid`]: the partition of the image into disjoint work units;
//! - [`render`]: the pass itself, which shades the units in parallel with a
//!   caller-supplied shader and overwrites the whole buffer;
//! - [`fidelity`]: the quality tiers and the policy that picks the tier of the
//!   next pass;
//! - [`budget`]: the iteration caps;
//! - [`timeline`] and [`animator`]: which keyframes to blend, and when, while
//!   a parameter is animated;
//! - [`pixel`] and [`frame`]: the pixel format and the size of the image.
//!
//! The shader, which maps a pixel and an iteration cap to a color, is the
//! caller's: it is where the floating-point work of the renderer happens.

pub mod animator;
pub mod budget;
pub mod fidelity;
pub mod frame;
pub mod grid;
pub mod pixel;
pub mod render;
pub mod timeline;
