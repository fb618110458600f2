//! Bridge between an immediate-mode GUI toolkit's draw-command output and a
//! GPU rendering backend.
//!
//! The verified core covers the frame-lifecycle pipeline: translating input
//! events into toolkit calls, describing the vertex memory layout that the
//! toolkit's geometry baker and the GPU pipeline must agree on byte for byte,
//! building the per-frame conversion configuration and projection matrix, and
//! planning the scissor-clipped indexed draw calls that replay the toolkit's
//! draw-command list.

pub mod context;
pub mod draw;
pub mod fixed;
pub mod gpu;
pub mod input;
pub mod layout;
pub mod projection;
pub mod scratch;
pub mod setup;
