//! Conversions from the C interface's plain values into the renderer's checked types.

use vstd::prelude::*;
use crate::c_types::{
    audio_element_rendering_config_t, downmix_info_t, oar_audio_element_config_t, oar_binaural_filter_profile_t,
    oar_config_t, oar_headphones_rendering_mode_t, oar_metadata_type_t, parameter_set_t,
};
use crate::config::{
    AudioElementConfig, BinauralFilterProfile, ChannelBasedConfig, Config, ElementRenderingConfig,
    HeadphonesRenderingMode, ObjectBasedConfig, SampleRate, SceneBasedConfig,
};
use crate::definitions::{OarError, MAX_SAMPLES_PER_CHANNEL};
use crate::downmix::{DownmixInfo, DownmixMode, WeightIndex, spec_mode_value};
use crate::hoa::HighOrderAmbisonics;
use crate::layout::{Layout, spec_layout_value};
use crate::units::Samples;

verus! {

/// The headphones rendering mode named by a C mode.
pub open spec fn spec_mode_from_c(m: oar_headphones_rendering_mode_t) -> HeadphonesRenderingMode {
    match m {
        oar_headphones_rendering_mode_t::ck_world_locked_restricted => HeadphonesRenderingMode::WorldLockedRestricted,
        oar_headphones_rendering_mode_t::ck_world_locked => HeadphonesRenderingMode::WorldLocked,
        oar_headphones_rendering_mode_t::ck_head_locked => HeadphonesRenderingMode::HeadLocked,
        oar_headphones_rendering_mode_t::ck_reserved => HeadphonesRenderingMode::Reserved,
    }
}

/// The binaural filter profile named by a C profile.
pub open spec fn spec_profile_from_c(p: oar_binaural_filter_profile_t) -> BinauralFilterProfile {
    match p {
        oar_binaural_filter_profile_t::ck_ambient => BinauralFilterProfile::Ambient,
        oar_binaural_filter_profile_t::ck_direct => BinauralFilterProfile::Direct,
        oar_binaural_filter_profile_t::ck_reverberant => BinauralFilterProfile::Reverberant,
    }
}

/// The rendering configuration named by a C rendering configuration.
pub open spec fn spec_rendering_config_from_c(c: audio_element_rendering_config_t) -> ElementRenderingConfig {
    ElementRenderingConfig {
        headphones_rendering_mode: spec_mode_from_c(c.headphones_rendering_mode),
        binaural_filter_profile: spec_profile_from_c(c.binaural_filter_profile),
    }
}

impl HeadphonesRenderingMode {
    /// Converts a C headphones rendering mode; every C mode names a mode.
    pub fn try_from(val: oar_headphones_rendering_mode_t) -> (r: Result<HeadphonesRenderingMode, OarError>)
        ensures
            r == Ok::<HeadphonesRenderingMode, OarError>(spec_mode_from_c(val)),
    {
        match val {
            oar_headphones_rendering_mode_t::ck_world_locked_restricted => Ok(HeadphonesRenderingMode::WorldLockedRestricted),
            oar_headphones_rendering_mode_t::ck_world_locked => Ok(HeadphonesRenderingMode::WorldLocked),
            oar_headphones_rendering_mode_t::ck_head_locked => Ok(HeadphonesRenderingMode::HeadLocked),
            oar_headphones_rendering_mode_t::ck_reserved => Ok(HeadphonesRenderingMode::Reserved),
        }
    }
}

impl BinauralFilterProfile {
    /// Converts a C binaural filter profile; every C profile names a profile.
    pub fn try_from(val: oar_binaural_filter_profile_t) -> (r: Result<BinauralFilterProfile, OarError>)
        ensures
            r == Ok::<BinauralFilterProfile, OarError>(spec_profile_from_c(val)),
    {
        match val {
            oar_binaural_filter_profile_t::ck_ambient => Ok(BinauralFilterProfile::Ambient),
            oar_binaural_filter_profile_t::ck_direct => Ok(BinauralFilterProfile::Direct),
            oar_binaural_filter_profile_t::ck_reverberant => Ok(BinauralFilterProfile::Reverberant),
        }
    }
}

impl ElementRenderingConfig {
    /// Converts a C headphones rendering configuration.
    pub fn try_from(c: audio_element_rendering_config_t) -> (r: Result<ElementRenderingConfig, OarError>)
        ensures
            r == Ok::<ElementRenderingConfig, OarError>(spec_rendering_config_from_c(c)),
    {
        let headphones_rendering_mode = HeadphonesRenderingMode::try_from(c.headphones_rendering_mode)?;
        let binaural_filter_profile = BinauralFilterProfile::try_from(c.binaural_filter_profile)?;
        Ok(ElementRenderingConfig { headphones_rendering_mode, binaural_filter_profile })
    }
}

impl DownmixInfo {
    /// Converts C downmix information: the mode must be a valid mode code; a weight
    /// index outside `[0, 10]` is read as no weight index.
    pub fn try_from(c: downmix_info_t) -> (r: Result<DownmixInfo, OarError>)
        ensures
            r matches Ok(d) ==> spec_mode_value(d.mode) == c.mode
                && (0 <= c.weight_index <= 10 ==> (d.weight_index matches Some(w) && w.spec_value() == c.weight_index))
                && (!(0 <= c.weight_index <= 10) ==> d.weight_index is None),
            r is Err ==> r == Err::<DownmixInfo, OarError>(OarError::InvalidParameter)
                && forall|m: DownmixMode| spec_mode_value(m) != c.mode,
    {
        let mode = DownmixMode::try_from(c.mode)?;
        let weight_index = if 0 <= c.weight_index && c.weight_index <= 10 {
            Some(WeightIndex::new(c.weight_index)?)
        } else {
            None
        };
        Ok(DownmixInfo::new(mode, weight_index))
    }
}

impl Config {
    /// Converts a C renderer configuration: the layout code must name a layout, the
    /// samples per channel must lie within `1..=MAX_SAMPLES_PER_CHANNEL` and the
    /// sampling rate must be positive.
    pub fn try_from(c: oar_config_t) -> (r: Result<Config, OarError>)
        ensures
            r matches Ok(cfg) ==> spec_layout_value(cfg.spec_output_layout()) == c.target_layout
                && cfg.spec_samples_per_channel().0 == c.samples_per_channel
                && cfg.spec_sample_rate().spec_value() == c.sampling_rate,
            r is Ok <==> ((exists|l: Layout| spec_layout_value(l) == c.target_layout)
                && 0 < c.samples_per_channel <= MAX_SAMPLES_PER_CHANNEL && c.sampling_rate > 0),
            r is Err ==> r == Err::<Config, OarError>(OarError::InvalidParameter),
    {
        let target_layout = Layout::try_from(c.target_layout)?;
        let spc = Samples::new(c.samples_per_channel)?;
        let sr = SampleRate::new(c.sampling_rate)?;
        Config::new(target_layout, spc, sr)
    }
}

/// The headphones rendering configuration that a C configuration carries, if its flag is set.
pub open spec fn spec_c_rendering_config(c: oar_audio_element_config_t) -> Option<ElementRenderingConfig> {
    if (c.parameters.flags & 2) != 0 {
        Some(spec_rendering_config_from_c(c.parameters.element_rendering_config))
    } else {
        None
    }
}

/// Downmix information that carries the mode and weight index of C downmix information.
pub open spec fn spec_downmix_info_matches(d: DownmixInfo, c: downmix_info_t) -> bool {
    &&& spec_mode_value(d.mode) == c.mode
    &&& 0 <= c.weight_index <= 10 ==> (d.weight_index matches Some(w) && w.spec_value() == c.weight_index)
    &&& !(0 <= c.weight_index <= 10) ==> d.weight_index is None
}

/// A layout that can be the layout of a channel-based element (not a target-only sound system).
pub open spec fn is_element_layout(l: Layout) -> bool {
    l != Layout::SoundSystemE451 && l != Layout::SoundSystemF370 && l != Layout::SoundSystemG490
}

/// The C configuration describes a supported audio element.
pub open spec fn spec_to_safe_succeeds(c: oar_audio_element_config_t) -> bool {
    ||| c.element_type == 0 && (exists|l: Layout| spec_layout_value(l) == c.config.raw && is_element_layout(l))
        && ((c.parameters.flags & 1) != 0 ==> exists|m: DownmixMode| spec_mode_value(m) == c.parameters.downmix_info.mode)
    ||| c.element_type == 1 && 0 <= c.config.raw <= 4
    ||| c.element_type == 2 && 1 <= c.config.raw <= 2
}

/// `cfg` is the audio element configuration that the C configuration describes.
pub open spec fn spec_to_safe_matches(c: oar_audio_element_config_t, cfg: AudioElementConfig) -> bool {
    match cfg {
        AudioElementConfig::ChannelBased(cbc) => {
            &&& c.element_type == 0
            &&& spec_layout_value(cbc.layout) == c.config.raw
            &&& is_element_layout(cbc.layout)
            &&& (c.parameters.flags & 1) != 0 ==> (cbc.downmix_info matches Some(d) && spec_downmix_info_matches(d, c.parameters.downmix_info))
            &&& (c.parameters.flags & 1) == 0 ==> cbc.downmix_info is None
            &&& cbc.rendering_config == spec_c_rendering_config(c)
        },
        AudioElementConfig::SceneBased(sbc) => {
            &&& c.element_type == 1
            &&& sbc.order.spec_order() == c.config.raw
            &&& sbc.rendering_config == spec_c_rendering_config(c)
        },
        AudioElementConfig::ObjectBased(obc) => {
            &&& c.element_type == 2
            &&& obc.num_objects == c.config.raw
            &&& 1 <= obc.num_objects <= 2
            &&& obc.rendering_config == spec_c_rendering_config(c)
        },
    }
}

impl oar_audio_element_config_t {
    /// Translates a C audio element configuration into an `AudioElementConfig`.
    ///
    /// Fails with `InvalidParameter` when the element kind is unknown, the layout code
    /// or ambisonics order is not recognised, the layout is a target-only sound system,
    /// the downmix mode is invalid, or an object-based element does not have 1 or 2 objects.
    pub fn to_safe(&self) -> (r: Result<AudioElementConfig, OarError>)
        ensures
            r is Ok <==> spec_to_safe_succeeds(*self),
            r matches Ok(cfg) ==> spec_to_safe_matches(*self, cfg),
            r is Err ==> r == Err::<AudioElementConfig, OarError>(OarError::InvalidParameter),
    {
        let rendering_config = if (self.parameters.flags
            & parameter_set_t::def_parameter_set_flag_iamf_element_rendering_config) != 0 {
            let mode = HeadphonesRenderingMode::try_from(self.parameters.element_rendering_config.headphones_rendering_mode)?;
            let profile = BinauralFilterProfile::try_from(self.parameters.element_rendering_config.binaural_filter_profile)?;
            Some(ElementRenderingConfig { headphones_rendering_mode: mode, binaural_filter_profile: profile })
        } else {
            None
        };
        if self.element_type == 0 {
            let cbc = self.config.cbc();
            let layout = Layout::try_from(cbc.layout)?;
            match layout {
                Layout::SoundSystemE451 | Layout::SoundSystemF370 | Layout::SoundSystemG490 => {
                    return Err(OarError::InvalidParameter);
                },
                _ => {},
            }
            let downmix_info = if (self.parameters.flags & parameter_set_t::def_parameter_set_flag_iamf_downmix_info) != 0 {
                Some(DownmixInfo::try_from(self.parameters.downmix_info)?)
            } else {
                None
            };
            Ok(AudioElementConfig::ChannelBased(ChannelBasedConfig { layout, downmix_info, rendering_config }))
        } else if self.element_type == 1 {
            let sbc = self.config.sbc();
            let order = HighOrderAmbisonics::try_from(sbc.order)?;
            Ok(AudioElementConfig::SceneBased(SceneBasedConfig { order, rendering_config }))
        } else if self.element_type == 2 {
            let obc = self.config.obc();
            if obc.num_objects < 1 || obc.num_objects > 2 {
                return Err(OarError::InvalidParameter);
            }
            Ok(AudioElementConfig::ObjectBased(ObjectBasedConfig { num_objects: obc.num_objects as u32, rendering_config }))
        } else {
            Err(OarError::InvalidParameter)
        }
    }
}

/// What an element metadata update asks of the renderer.
#[derive(Debug, Clone, Copy, PartialEq, Eq, Structural)]
pub enum ElementMetadataAction {
    /// Nothing: a gain or position update without a positive duration is ignored.
    Ignore,
    /// Queue a gain update lasting the given number of samples.
    Gain(Samples),
    /// Queue object positions lasting the given number of samples.
    Positions(Samples),
    /// Switch the downmix mode for the given number of samples, or until the next switch.
    DownmixMode(Option<Samples>),
}

/// The action of an element metadata update of the given C metadata type and duration, if
/// the type is one an element takes: gains and positions need a positive duration and are
/// ignored otherwise; a downmix mode without a positive duration lasts until the next one.
pub open spec fn spec_element_metadata_action(meta_type: u32, duration: i32) -> Option<ElementMetadataAction> {
    let d = if duration > 0 { Some(Samples(duration as u32)) } else { None::<Samples> };
    if meta_type == oar_metadata_type_t::ck_metadata_gain.spec_value() {
        Some(match d {
            Some(s) => ElementMetadataAction::Gain(s),
            None => ElementMetadataAction::Ignore,
        })
    } else if meta_type == oar_metadata_type_t::ck_metadata_object_positions.spec_value() {
        Some(match d {
            Some(s) => ElementMetadataAction::Positions(s),
            None => ElementMetadataAction::Ignore,
        })
    } else if meta_type == oar_metadata_type_t::ck_metadata_iamf_downmix_mode.spec_value() {
        Some(ElementMetadataAction::DownmixMode(d))
    } else {
        None
    }
}

/// Decides what an element metadata update of the given C metadata type and duration asks
/// of the renderer; fails with `NotSupported` for a type that elements do not take (head
/// rotation and the others).
pub fn element_metadata_action(meta_type: u32, duration: i32) -> (r: Result<ElementMetadataAction, OarError>)
    ensures
        match spec_element_metadata_action(meta_type, duration) {
            Some(a) => r == Ok::<ElementMetadataAction, OarError>(a),
            None => r == Err::<ElementMetadataAction, OarError>(OarError::NotSupported),
        },
{
    let d = if duration > 0 {
        match Samples::new(duration as u32) {
            Ok(s) => Some(s),
            Err(_) => None,
        }
    } else {
        None
    };
    let gain = oar_metadata_type_t::ck_metadata_gain.value() as u32;
    let positions = oar_metadata_type_t::ck_metadata_object_positions.value() as u32;
    let downmix_mode = oar_metadata_type_t::ck_metadata_iamf_downmix_mode.value() as u32;
    if meta_type == gain {
        Ok(match d {
            Some(s) => ElementMetadataAction::Gain(s),
            None => ElementMetadataAction::Ignore,
        })
    } else if meta_type == positions {
        Ok(match d {
            Some(s) => ElementMetadataAction::Positions(s),
            None => ElementMetadataAction::Ignore,
        })
    } else if meta_type == downmix_mode {
        Ok(ElementMetadataAction::DownmixMode(d))
    } else {
        Err(OarError::NotSupported)
    }
}

} // verus!
