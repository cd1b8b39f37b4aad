//! The loudspeaker-layout renderer: its target layout and sample rate, the rendering matrix
//! shape chosen for the current element, and the checks made before rendering a block.

use vstd::prelude::*;
use crate::config::SampleRate;
use crate::definitions::{MAX_OUTPUT_CHANNEL_COUNT, OarError};
use crate::layout::Layout;

verus! {

/// The rendering matrix chosen for the current element, by its shape.
#[derive(Debug, Clone, PartialEq, Eq)]
pub enum EarRenderingMode {
    /// A predefined channel-to-channel matrix.
    ChannelPredefined { in_channels: usize, out_channels: usize },
    /// A matrix for a subset of a layout's channels, with the channels it maps to.
    ChannelCustom { in_channels: usize, out_channels: usize, channels_map: Vec<usize> },
    /// An ambisonics-to-channels matrix.
    Scene { in_channels: usize, out_channels: usize },
}

/// The input and output channel counts of a rendering matrix.
pub open spec fn spec_mode_shape(m: EarRenderingMode) -> (usize, usize) {
    match m {
        EarRenderingMode::ChannelPredefined { in_channels, out_channels } => (in_channels, out_channels),
        EarRenderingMode::ChannelCustom { in_channels, out_channels, .. } => (in_channels, out_channels),
        EarRenderingMode::Scene { in_channels, out_channels } => (in_channels, out_channels),
    }
}

/// A renderer to a target loudspeaker layout.
#[derive(Debug, Clone)]
pub struct EarRenderer {
    /// The output layout.
    pub target_layout: Layout,
    /// The sample rate in Hz.
    pub sample_rate: SampleRate,
    /// The rendering matrix of the current element, by its shape.
    pub active_mode: Option<EarRenderingMode>,
}

impl EarRenderer {
    pub open spec fn spec_target_layout(&self) -> Layout {
        self.target_layout
    }

    pub open spec fn spec_sample_rate(&self) -> SampleRate {
        self.sample_rate
    }

    pub open spec fn spec_active_mode(&self) -> Option<EarRenderingMode> {
        self.active_mode
    }

    /// Creates a renderer to stereo at 48 kHz.
    pub fn new() -> (r: Self)
        ensures
            r.spec_target_layout() == Layout::Stereo,
            r.spec_sample_rate().spec_value() == 48000,
            r.spec_active_mode() is None,
    {
        Self::with_output_layout(Layout::Stereo)
    }

    /// Creates a renderer to `target_layout` at `sample_rate`, with no element set up.
    pub fn with_params(target_layout: Layout, sample_rate: SampleRate) -> (r: Self)
        ensures
            r.spec_target_layout() == target_layout,
            r.spec_sample_rate() == sample_rate,
            r.spec_active_mode() is None,
    {
        EarRenderer { target_layout, sample_rate, active_mode: None }
    }

    /// Creates a renderer to `target_layout` at 48 kHz.
    pub fn with_output_layout(target_layout: Layout) -> (r: Self)
        ensures
            r.spec_target_layout() == target_layout,
            r.spec_sample_rate().spec_value() == 48000,
            r.spec_active_mode() is None,
    {
        let rate = match SampleRate::new(48000) {
            Ok(r) => r,
            Err(_) => vstd::pervasive::unreached(),
        };
        Self::with_params(target_layout, rate)
    }

    /// Returns the rendering matrix chosen for the current element.
    pub fn active_mode(&self) -> (m: &Option<EarRenderingMode>)
        ensures
            *m == self.spec_active_mode(),
    {
        &self.active_mode
    }

    /// Sets or clears the rendering matrix of the current element.
    pub fn set_active_mode(&mut self, mode: Option<EarRenderingMode>)
        ensures
            final(self).spec_active_mode() == mode,
            final(self).spec_target_layout() == old(self).spec_target_layout(),
            final(self).spec_sample_rate() == old(self).spec_sample_rate(),
    {
        self.active_mode = mode;
    }

    /// Checks a block before rendering: the output needs as many samples as the input
    /// (`InvalidParameter`), an element must be set up (`NotSupported`), and the buffers need
    /// the matrix's channel counts, at most `MAX_OUTPUT_CHANNEL_COUNT` each
    /// (`InvalidParameter`).
    pub fn check_render(
        &self,
        input_channels: usize,
        output_channels: usize,
        input_samples: usize,
        output_samples: usize,
    ) -> (r: Result<(), OarError>)
        ensures
            output_samples != input_samples ==> r == Err::<(), OarError>(OarError::InvalidParameter),
            output_samples == input_samples && self.spec_active_mode() is None
                ==> r == Err::<(), OarError>(OarError::NotSupported),
            output_samples == input_samples && self.spec_active_mode() is Some ==> {
                let (m, n) = spec_mode_shape(self.spec_active_mode()->0);
                r is Ok <==> (input_channels == m && output_channels == n
                    && input_channels <= MAX_OUTPUT_CHANNEL_COUNT && output_channels <= MAX_OUTPUT_CHANNEL_COUNT)
            },
            r is Err ==> r == Err::<(), OarError>(OarError::InvalidParameter) || r == Err::<(), OarError>(OarError::NotSupported),
    {
        if output_samples != input_samples {
            return Err(OarError::InvalidParameter);
        }
        let (expected_in, expected_out) = match &self.active_mode {
            Some(EarRenderingMode::ChannelPredefined { in_channels, out_channels }) => (*in_channels, *out_channels),
            Some(EarRenderingMode::ChannelCustom { in_channels, out_channels, .. }) => (*in_channels, *out_channels),
            Some(EarRenderingMode::Scene { in_channels, out_channels }) => (*in_channels, *out_channels),
            None => {
                return Err(OarError::NotSupported);
            },
        };
        if input_channels != expected_in || output_channels != expected_out || input_channels > MAX_OUTPUT_CHANNEL_COUNT
            || output_channels > MAX_OUTPUT_CHANNEL_COUNT {
            return Err(OarError::InvalidParameter);
        }
        Ok(())
    }
}

impl Default for EarRenderer {
    fn default() -> (r: Self)
        ensures
            r.spec_target_layout() == Layout::Stereo,
            r.spec_sample_rate().spec_value() == 48000,
            r.spec_active_mode() is None,
    {
        Self::new()
    }
}

} // verus!
