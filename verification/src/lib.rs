//! The decision core of an offscreen frame renderer.
//!
//! The crate holds what a single-shot GPU render decides and computes: which
//! device and queue family to use, which memory type backs an allocation, the
//! fixed pipeline and command sequences, the fence protocol around a
//! submission, the order in which resources are acquired and released, and the
//! re-packing and encoding of the pixels that come back. Talking to the
//! graphics backend and to the file system is left to the program around it.

pub mod commands;
pub mod encode;
pub mod error;
pub mod fence;
pub mod layers;
pub mod device;
pub mod diagnostics;
pub mod memory;
pub mod pipeline;
pub mod readback;
pub mod renderer;
pub mod shader;
