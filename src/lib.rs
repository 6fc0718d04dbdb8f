//! A small, checked vocabulary over an explicit graphics device: colors,
//! rectangles, texture uploads, vertex layouts, binding groups, pipelines,
//! and the frame / pass recording protocol.
//!
//! Everything here works on plain values. The device itself (allocation,
//! recording, submission) is driven by the caller from the plans that these
//! types produce.

pub mod color;
pub mod math;
pub mod rect;
pub mod error;
pub mod texture;
pub mod vertex;
pub mod binding;
pub mod buffer;
pub mod pipeline;
pub mod command;
pub mod readback;
pub mod ops;
pub mod present;
