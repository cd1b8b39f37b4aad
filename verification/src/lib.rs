//! Rust Open Audio Renderer (ROAR): the integer core of a spatial audio renderer.
//!
//! This crate holds the configuration, layout, channel-bookkeeping, parsing and
//! scheduling logic of the renderer, each function with a contract checked by Verus.

pub mod definitions;
pub mod audio_buffer;
pub mod units;
pub mod hoa;
pub mod ia_channel;
pub mod layout;
pub mod downmix;
pub mod config;
pub mod c_types;
pub mod ffi_ext;
pub mod obr;
pub mod audio_elements_renderer;
pub mod downmix_renderer;
pub mod ear_renderer;
pub mod gain_parameter;
