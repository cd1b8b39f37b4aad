//! Binaural (OBR) rendering: ambisonic utilities, filter assets, element bookkeeping.

pub mod wav;
pub mod misc_math;
pub mod ambisonic_utils;
pub mod associated_legendre_polynomials_generator;
pub mod dsp_utils;
pub mod audio_element_type;
pub mod input_channel_config;
pub mod loudspeaker_layouts;
pub mod audio_element_config;
pub mod binaural_filters;
pub mod processing_group;
pub mod constants;
pub mod obr_impl;
pub mod resampler;
pub mod partitioned_fft_filter;
