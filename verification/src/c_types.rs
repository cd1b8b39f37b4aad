//! C-compatible types of the renderer's C interface, as plain values.
#![allow(non_camel_case_types, non_upper_case_globals, non_snake_case)]

use vstd::prelude::*;

verus! {

/// Maximum number of objects in an object-based element.
pub const def_max_number_of_objects: usize = 2;

/// Opaque handle of a renderer instance in the C interface.
pub struct oar_t {
    pub _private: [u8; 0],
}

/// Loudspeaker layouts of the C interface.
#[derive(Debug, Clone, Copy, PartialEq, Eq, Structural, Hash)]
pub enum oar_layout_t {
    ck_oar_layout_none,
    ck_oar_layout_mono,
    ck_oar_layout_stereo,
    ck_oar_layout_51,
    ck_oar_layout_512,
    ck_oar_layout_514,
    ck_oar_layout_71,
    ck_oar_layout_712,
    ck_oar_layout_714,
    ck_oar_layout_312,
    ck_oar_layout_916,
    ck_oar_layout_a293,
    ck_oar_layout_7154,
    ck_oar_layout_sound_system_e_451,
    ck_oar_layout_sound_system_f_370,
    ck_oar_layout_sound_system_g_490,
    ck_oar_layout_binaural,
    ck_oar_layout_subset_start,
    ck_oar_layout_lfe,
    ck_oar_layout_stereo_s,
    ck_oar_layout_stereo_ss,
    ck_oar_layout_stereo_rs,
    ck_oar_layout_stereo_tf,
    ck_oar_layout_stereo_tb,
    ck_oar_layout_top_4ch,
    ck_oar_layout_3ch,
    ck_oar_layout_stereo_f,
    ck_oar_layout_stereo_si,
    ck_oar_layout_stereo_tpsi,
    ck_oar_layout_top_6ch,
    ck_oar_layout_lfe_pair,
    ck_oar_layout_bottom_3ch,
    ck_oar_layout_bottom_4ch,
    ck_oar_layout_top_1ch,
    ck_oar_layout_top_5ch,
}

impl oar_layout_t {
    /// Sound system A (0.2.0).
    pub const ck_oar_layout_sound_system_a_020: oar_layout_t = oar_layout_t::ck_oar_layout_stereo;
    /// Sound system B (0.5.0).
    pub const ck_oar_layout_sound_system_b_050: oar_layout_t = oar_layout_t::ck_oar_layout_51;
    /// Sound system C (2.5.0).
    pub const ck_oar_layout_sound_system_c_250: oar_layout_t = oar_layout_t::ck_oar_layout_512;
    /// Sound system D (4.5.0).
    pub const ck_oar_layout_sound_system_d_450: oar_layout_t = oar_layout_t::ck_oar_layout_514;
    /// Sound system I (0.7.0).
    pub const ck_oar_layout_sound_system_i_070: oar_layout_t = oar_layout_t::ck_oar_layout_71;
    /// Sound system J (4.7.0).
    pub const ck_oar_layout_sound_system_j_470: oar_layout_t = oar_layout_t::ck_oar_layout_714;
    /// Sound system H (9.a.3).
    pub const ck_oar_layout_sound_system_h_9a3: oar_layout_t = oar_layout_t::ck_oar_layout_a293;

    /// The C code of each value.
    pub open spec fn spec_value(self) -> int {
        match self {
            oar_layout_t::ck_oar_layout_none => 0,
            oar_layout_t::ck_oar_layout_mono => 1,
            oar_layout_t::ck_oar_layout_stereo => 2,
            oar_layout_t::ck_oar_layout_51 => 3,
            oar_layout_t::ck_oar_layout_512 => 4,
            oar_layout_t::ck_oar_layout_514 => 5,
            oar_layout_t::ck_oar_layout_71 => 6,
            oar_layout_t::ck_oar_layout_712 => 7,
            oar_layout_t::ck_oar_layout_714 => 8,
            oar_layout_t::ck_oar_layout_312 => 9,
            oar_layout_t::ck_oar_layout_916 => 10,
            oar_layout_t::ck_oar_layout_a293 => 11,
            oar_layout_t::ck_oar_layout_7154 => 12,
            oar_layout_t::ck_oar_layout_sound_system_e_451 => 129,
            oar_layout_t::ck_oar_layout_sound_system_f_370 => 130,
            oar_layout_t::ck_oar_layout_sound_system_g_490 => 131,
            oar_layout_t::ck_oar_layout_binaural => 255,
            oar_layout_t::ck_oar_layout_subset_start => 256,
            oar_layout_t::ck_oar_layout_lfe => 257,
            oar_layout_t::ck_oar_layout_stereo_s => 258,
            oar_layout_t::ck_oar_layout_stereo_ss => 259,
            oar_layout_t::ck_oar_layout_stereo_rs => 260,
            oar_layout_t::ck_oar_layout_stereo_tf => 261,
            oar_layout_t::ck_oar_layout_stereo_tb => 262,
            oar_layout_t::ck_oar_layout_top_4ch => 263,
            oar_layout_t::ck_oar_layout_3ch => 264,
            oar_layout_t::ck_oar_layout_stereo_f => 265,
            oar_layout_t::ck_oar_layout_stereo_si => 266,
            oar_layout_t::ck_oar_layout_stereo_tpsi => 267,
            oar_layout_t::ck_oar_layout_top_6ch => 268,
            oar_layout_t::ck_oar_layout_lfe_pair => 269,
            oar_layout_t::ck_oar_layout_bottom_3ch => 270,
            oar_layout_t::ck_oar_layout_bottom_4ch => 271,
            oar_layout_t::ck_oar_layout_top_1ch => 272,
            oar_layout_t::ck_oar_layout_top_5ch => 273,
        }
    }

    /// Returns the C code of this value.
    pub fn value(&self) -> (v: i32)
        ensures
            v == self.spec_value(),
    {
        match self {
            oar_layout_t::ck_oar_layout_none => 0,
            oar_layout_t::ck_oar_layout_mono => 1,
            oar_layout_t::ck_oar_layout_stereo => 2,
            oar_layout_t::ck_oar_layout_51 => 3,
            oar_layout_t::ck_oar_layout_512 => 4,
            oar_layout_t::ck_oar_layout_514 => 5,
            oar_layout_t::ck_oar_layout_71 => 6,
            oar_layout_t::ck_oar_layout_712 => 7,
            oar_layout_t::ck_oar_layout_714 => 8,
            oar_layout_t::ck_oar_layout_312 => 9,
            oar_layout_t::ck_oar_layout_916 => 10,
            oar_layout_t::ck_oar_layout_a293 => 11,
            oar_layout_t::ck_oar_layout_7154 => 12,
            oar_layout_t::ck_oar_layout_sound_system_e_451 => 129,
            oar_layout_t::ck_oar_layout_sound_system_f_370 => 130,
            oar_layout_t::ck_oar_layout_sound_system_g_490 => 131,
            oar_layout_t::ck_oar_layout_binaural => 255,
            oar_layout_t::ck_oar_layout_subset_start => 256,
            oar_layout_t::ck_oar_layout_lfe => 257,
            oar_layout_t::ck_oar_layout_stereo_s => 258,
            oar_layout_t::ck_oar_layout_stereo_ss => 259,
            oar_layout_t::ck_oar_layout_stereo_rs => 260,
            oar_layout_t::ck_oar_layout_stereo_tf => 261,
            oar_layout_t::ck_oar_layout_stereo_tb => 262,
            oar_layout_t::ck_oar_layout_top_4ch => 263,
            oar_layout_t::ck_oar_layout_3ch => 264,
            oar_layout_t::ck_oar_layout_stereo_f => 265,
            oar_layout_t::ck_oar_layout_stereo_si => 266,
            oar_layout_t::ck_oar_layout_stereo_tpsi => 267,
            oar_layout_t::ck_oar_layout_top_6ch => 268,
            oar_layout_t::ck_oar_layout_lfe_pair => 269,
            oar_layout_t::ck_oar_layout_bottom_3ch => 270,
            oar_layout_t::ck_oar_layout_bottom_4ch => 271,
            oar_layout_t::ck_oar_layout_top_1ch => 272,
            oar_layout_t::ck_oar_layout_top_5ch => 273,
        }
    }

    /// Converts a C code into a value, if the code names one.
    pub fn from_value(value: i32) -> (r: Option<oar_layout_t>)
        ensures
            r matches Some(e) ==> e.spec_value() == value,
            r is None ==> forall|e: oar_layout_t| e.spec_value() != value,
    {
        match value {
            0 => Some(oar_layout_t::ck_oar_layout_none),
            1 => Some(oar_layout_t::ck_oar_layout_mono),
            2 => Some(oar_layout_t::ck_oar_layout_stereo),
            3 => Some(oar_layout_t::ck_oar_layout_51),
            4 => Some(oar_layout_t::ck_oar_layout_512),
            5 => Some(oar_layout_t::ck_oar_layout_514),
            6 => Some(oar_layout_t::ck_oar_layout_71),
            7 => Some(oar_layout_t::ck_oar_layout_712),
            8 => Some(oar_layout_t::ck_oar_layout_714),
            9 => Some(oar_layout_t::ck_oar_layout_312),
            10 => Some(oar_layout_t::ck_oar_layout_916),
            11 => Some(oar_layout_t::ck_oar_layout_a293),
            12 => Some(oar_layout_t::ck_oar_layout_7154),
            129 => Some(oar_layout_t::ck_oar_layout_sound_system_e_451),
            130 => Some(oar_layout_t::ck_oar_layout_sound_system_f_370),
            131 => Some(oar_layout_t::ck_oar_layout_sound_system_g_490),
            255 => Some(oar_layout_t::ck_oar_layout_binaural),
            256 => Some(oar_layout_t::ck_oar_layout_subset_start),
            257 => Some(oar_layout_t::ck_oar_layout_lfe),
            258 => Some(oar_layout_t::ck_oar_layout_stereo_s),
            259 => Some(oar_layout_t::ck_oar_layout_stereo_ss),
            260 => Some(oar_layout_t::ck_oar_layout_stereo_rs),
            261 => Some(oar_layout_t::ck_oar_layout_stereo_tf),
            262 => Some(oar_layout_t::ck_oar_layout_stereo_tb),
            263 => Some(oar_layout_t::ck_oar_layout_top_4ch),
            264 => Some(oar_layout_t::ck_oar_layout_3ch),
            265 => Some(oar_layout_t::ck_oar_layout_stereo_f),
            266 => Some(oar_layout_t::ck_oar_layout_stereo_si),
            267 => Some(oar_layout_t::ck_oar_layout_stereo_tpsi),
            268 => Some(oar_layout_t::ck_oar_layout_top_6ch),
            269 => Some(oar_layout_t::ck_oar_layout_lfe_pair),
            270 => Some(oar_layout_t::ck_oar_layout_bottom_3ch),
            271 => Some(oar_layout_t::ck_oar_layout_bottom_4ch),
            272 => Some(oar_layout_t::ck_oar_layout_top_1ch),
            273 => Some(oar_layout_t::ck_oar_layout_top_5ch),
            _ => None,
        }
    }
}

/// Ambisonics orders of the C interface.
#[derive(Debug, Clone, Copy, PartialEq, Eq, Structural, Hash)]
pub enum oar_hoa_t {
    ck_oar_hoa_none,
    ck_oar_zoa,
    ck_oar_1oa,
    ck_oar_2oa,
    ck_oar_3oa,
    ck_oar_4oa,
}

impl oar_hoa_t {
    /// The C code of each value.
    pub open spec fn spec_value(self) -> int {
        match self {
            oar_hoa_t::ck_oar_hoa_none => -1,
            oar_hoa_t::ck_oar_zoa => 0,
            oar_hoa_t::ck_oar_1oa => 1,
            oar_hoa_t::ck_oar_2oa => 2,
            oar_hoa_t::ck_oar_3oa => 3,
            oar_hoa_t::ck_oar_4oa => 4,
        }
    }

    /// Returns the C code of this value.
    pub fn value(&self) -> (v: i32)
        ensures
            v == self.spec_value(),
    {
        match self {
            oar_hoa_t::ck_oar_hoa_none => -1,
            oar_hoa_t::ck_oar_zoa => 0,
            oar_hoa_t::ck_oar_1oa => 1,
            oar_hoa_t::ck_oar_2oa => 2,
            oar_hoa_t::ck_oar_3oa => 3,
            oar_hoa_t::ck_oar_4oa => 4,
        }
    }

    /// Converts a C code into a value, if the code names one.
    pub fn from_value(value: i32) -> (r: Option<oar_hoa_t>)
        ensures
            r matches Some(e) ==> e.spec_value() == value,
            r is None ==> forall|e: oar_hoa_t| e.spec_value() != value,
    {
        match value {
            -1 => Some(oar_hoa_t::ck_oar_hoa_none),
            0 => Some(oar_hoa_t::ck_oar_zoa),
            1 => Some(oar_hoa_t::ck_oar_1oa),
            2 => Some(oar_hoa_t::ck_oar_2oa),
            3 => Some(oar_hoa_t::ck_oar_3oa),
            4 => Some(oar_hoa_t::ck_oar_4oa),
            _ => None,
        }
    }
}

/// Audio element kinds of the C interface.
#[derive(Debug, Clone, Copy, PartialEq, Eq, Structural, Hash)]
pub enum audio_element_type_t {
    ck_oar_element_type_none,
    ck_channel_based,
    ck_scene_based,
    ck_object_based,
}

impl audio_element_type_t {
    /// The C code of each value.
    pub open spec fn spec_value(self) -> int {
        match self {
            audio_element_type_t::ck_oar_element_type_none => -1,
            audio_element_type_t::ck_channel_based => 0,
            audio_element_type_t::ck_scene_based => 1,
            audio_element_type_t::ck_object_based => 2,
        }
    }

    /// Returns the C code of this value.
    pub fn value(&self) -> (v: i32)
        ensures
            v == self.spec_value(),
    {
        match self {
            audio_element_type_t::ck_oar_element_type_none => -1,
            audio_element_type_t::ck_channel_based => 0,
            audio_element_type_t::ck_scene_based => 1,
            audio_element_type_t::ck_object_based => 2,
        }
    }

    /// Converts a C code into a value, if the code names one.
    pub fn from_value(value: i32) -> (r: Option<audio_element_type_t>)
        ensures
            r matches Some(e) ==> e.spec_value() == value,
            r is None ==> forall|e: audio_element_type_t| e.spec_value() != value,
    {
        match value {
            -1 => Some(audio_element_type_t::ck_oar_element_type_none),
            0 => Some(audio_element_type_t::ck_channel_based),
            1 => Some(audio_element_type_t::ck_scene_based),
            2 => Some(audio_element_type_t::ck_object_based),
            _ => None,
        }
    }
}

/// Renderer configuration of the C interface.
#[derive(Debug, Clone, Copy, PartialEq, Eq, Structural)]
pub struct oar_config_t {
    pub target_layout: i32,
    pub samples_per_channel: u32,
    pub sampling_rate: u32,
}

/// Channel-based element configuration of the C interface.
#[derive(Debug, Clone, Copy, PartialEq, Eq, Structural)]
pub struct oar_channel_based_config_t {
    pub layout: i32,
}

/// Scene-based element configuration of the C interface.
#[derive(Debug, Clone, Copy, PartialEq, Eq, Structural)]
pub struct oar_scene_based_config_t {
    pub order: i32,
}

/// Object-based element configuration of the C interface.
#[derive(Debug, Clone, Copy, PartialEq, Eq, Structural)]
pub struct oar_object_based_config_t {
    pub num_objects: i32,
}

/// The per-kind configuration of an audio element in the C interface. The three
/// configurations share one 32-bit integer; which one it is follows from the element
/// kind.
#[derive(Debug, Clone, Copy, PartialEq, Eq, Structural)]
pub struct oar_audio_element_config_union_t {
    pub raw: i32,
}

impl oar_audio_element_config_union_t {
    /// The value read as a channel-based configuration.
    pub fn cbc(&self) -> (c: oar_channel_based_config_t)
        ensures
            c.layout == self.raw,
    {
        oar_channel_based_config_t { layout: self.raw }
    }

    /// The value read as a scene-based configuration.
    pub fn sbc(&self) -> (c: oar_scene_based_config_t)
        ensures
            c.order == self.raw,
    {
        oar_scene_based_config_t { order: self.raw }
    }

    /// The value read as an object-based configuration.
    pub fn obc(&self) -> (c: oar_object_based_config_t)
        ensures
            c.num_objects == self.raw,
    {
        oar_object_based_config_t { num_objects: self.raw }
    }
}

/// Audio element configuration of the C interface.
#[derive(Debug, Clone, Copy, PartialEq, Eq, Structural)]
pub struct oar_audio_element_config_t {
    pub element_type: i32,
    pub config: oar_audio_element_config_union_t,
    pub parameters: parameter_set_t,
}

/// Headphones rendering modes of the C interface.
#[derive(Debug, Clone, Copy, PartialEq, Eq, Structural, Hash)]
pub enum oar_headphones_rendering_mode_t {
    ck_world_locked_restricted,
    ck_world_locked,
    ck_head_locked,
    ck_reserved,
}

impl oar_headphones_rendering_mode_t {
    /// The C code of each value.
    pub open spec fn spec_value(self) -> int {
        match self {
            oar_headphones_rendering_mode_t::ck_world_locked_restricted => 0,
            oar_headphones_rendering_mode_t::ck_world_locked => 1,
            oar_headphones_rendering_mode_t::ck_head_locked => 2,
            oar_headphones_rendering_mode_t::ck_reserved => 3,
        }
    }

    /// Returns the C code of this value.
    pub fn value(&self) -> (v: i32)
        ensures
            v == self.spec_value(),
    {
        match self {
            oar_headphones_rendering_mode_t::ck_world_locked_restricted => 0,
            oar_headphones_rendering_mode_t::ck_world_locked => 1,
            oar_headphones_rendering_mode_t::ck_head_locked => 2,
            oar_headphones_rendering_mode_t::ck_reserved => 3,
        }
    }

    /// Converts a C code into a value, if the code names one.
    pub fn from_value(value: i32) -> (r: Option<oar_headphones_rendering_mode_t>)
        ensures
            r matches Some(e) ==> e.spec_value() == value,
            r is None ==> forall|e: oar_headphones_rendering_mode_t| e.spec_value() != value,
    {
        match value {
            0 => Some(oar_headphones_rendering_mode_t::ck_world_locked_restricted),
            1 => Some(oar_headphones_rendering_mode_t::ck_world_locked),
            2 => Some(oar_headphones_rendering_mode_t::ck_head_locked),
            3 => Some(oar_headphones_rendering_mode_t::ck_reserved),
            _ => None,
        }
    }
}

/// Binaural filter profiles of the C interface.
#[derive(Debug, Clone, Copy, PartialEq, Eq, Structural, Hash)]
pub enum oar_binaural_filter_profile_t {
    ck_ambient,
    ck_direct,
    ck_reverberant,
}

impl oar_binaural_filter_profile_t {
    /// The default profile.
    pub const ck_binaural_filter_profile_default: oar_binaural_filter_profile_t = oar_binaural_filter_profile_t::ck_ambient;

    /// The C code of each value.
    pub open spec fn spec_value(self) -> int {
        match self {
            oar_binaural_filter_profile_t::ck_ambient => 0,
            oar_binaural_filter_profile_t::ck_direct => 1,
            oar_binaural_filter_profile_t::ck_reverberant => 2,
        }
    }

    /// Returns the C code of this value.
    pub fn value(&self) -> (v: i32)
        ensures
            v == self.spec_value(),
    {
        match self {
            oar_binaural_filter_profile_t::ck_ambient => 0,
            oar_binaural_filter_profile_t::ck_direct => 1,
            oar_binaural_filter_profile_t::ck_reverberant => 2,
        }
    }

    /// Converts a C code into a value, if the code names one.
    pub fn from_value(value: i32) -> (r: Option<oar_binaural_filter_profile_t>)
        ensures
            r matches Some(e) ==> e.spec_value() == value,
            r is None ==> forall|e: oar_binaural_filter_profile_t| e.spec_value() != value,
    {
        match value {
            0 => Some(oar_binaural_filter_profile_t::ck_ambient),
            1 => Some(oar_binaural_filter_profile_t::ck_direct),
            2 => Some(oar_binaural_filter_profile_t::ck_reverberant),
            _ => None,
        }
    }
}

/// Coordinate systems of object positions in the C interface.
#[derive(Debug, Clone, Copy, PartialEq, Eq, Structural, Hash)]
pub enum coordinate_type_t {
    ck_polar,
    ck_cartesian,
}

impl coordinate_type_t {
    /// The C code of each value.
    pub open spec fn spec_value(self) -> int {
        match self {
            coordinate_type_t::ck_polar => 0,
            coordinate_type_t::ck_cartesian => 1,
        }
    }

    /// Returns the C code of this value.
    pub fn value(&self) -> (v: i32)
        ensures
            v == self.spec_value(),
    {
        match self {
            coordinate_type_t::ck_polar => 0,
            coordinate_type_t::ck_cartesian => 1,
        }
    }

    /// Converts a C code into a value, if the code names one.
    pub fn from_value(value: i32) -> (r: Option<coordinate_type_t>)
        ensures
            r matches Some(e) ==> e.spec_value() == value,
            r is None ==> forall|e: coordinate_type_t| e.spec_value() != value,
    {
        match value {
            0 => Some(coordinate_type_t::ck_polar),
            1 => Some(coordinate_type_t::ck_cartesian),
            _ => None,
        }
    }
}

/// Downmix information of the C interface.
#[derive(Debug, Clone, Copy, PartialEq, Eq, Structural)]
pub struct downmix_info_t {
    pub mode: i32,
    pub weight_index: i32,
}

/// Headphones rendering configuration of the C interface.
#[derive(Debug, Clone, Copy, PartialEq, Eq, Structural)]
pub struct audio_element_rendering_config_t {
    pub headphones_rendering_mode: oar_headphones_rendering_mode_t,
    pub binaural_filter_profile: oar_binaural_filter_profile_t,
}

/// Optional element parameters of the C interface; `flags` says which are present.
#[derive(Debug, Clone, Copy, PartialEq, Eq, Structural)]
pub struct parameter_set_t {
    pub flags: u32,
    pub downmix_info: downmix_info_t,
    pub element_rendering_config: audio_element_rendering_config_t,
}

impl parameter_set_t {
    /// Flag: the downmix information is present.
    pub const def_parameter_set_flag_iamf_downmix_info: u32 = 0x01;
    /// Flag: the headphones rendering configuration is present.
    pub const def_parameter_set_flag_iamf_element_rendering_config: u32 = 0x02;
}

/// Metadata kinds of the C interface.
#[derive(Debug, Clone, Copy, PartialEq, Eq, Structural, Hash)]
pub enum oar_metadata_type_t {
    ck_metadata_none,
    ck_metadata_gain,
    ck_metadata_iamf_downmix_mode,
    ck_metadata_object_positions,
    ck_metadata_head_rotation,
    ck_metadata_count,
}

impl oar_metadata_type_t {
    /// The C code of each value.
    pub open spec fn spec_value(self) -> int {
        match self {
            oar_metadata_type_t::ck_metadata_none => 0,
            oar_metadata_type_t::ck_metadata_gain => 1,
            oar_metadata_type_t::ck_metadata_iamf_downmix_mode => 2,
            oar_metadata_type_t::ck_metadata_object_positions => 3,
            oar_metadata_type_t::ck_metadata_head_rotation => 4,
            oar_metadata_type_t::ck_metadata_count => 5,
        }
    }

    /// Returns the C code of this value.
    pub fn value(&self) -> (v: i32)
        ensures
            v == self.spec_value(),
    {
        match self {
            oar_metadata_type_t::ck_metadata_none => 0,
            oar_metadata_type_t::ck_metadata_gain => 1,
            oar_metadata_type_t::ck_metadata_iamf_downmix_mode => 2,
            oar_metadata_type_t::ck_metadata_object_positions => 3,
            oar_metadata_type_t::ck_metadata_head_rotation => 4,
            oar_metadata_type_t::ck_metadata_count => 5,
        }
    }

    /// Converts a C code into a value, if the code names one.
    pub fn from_value(value: i32) -> (r: Option<oar_metadata_type_t>)
        ensures
            r matches Some(e) ==> e.spec_value() == value,
            r is None ==> forall|e: oar_metadata_type_t| e.spec_value() != value,
    {
        match value {
            0 => Some(oar_metadata_type_t::ck_metadata_none),
            1 => Some(oar_metadata_type_t::ck_metadata_gain),
            2 => Some(oar_metadata_type_t::ck_metadata_iamf_downmix_mode),
            3 => Some(oar_metadata_type_t::ck_metadata_object_positions),
            4 => Some(oar_metadata_type_t::ck_metadata_head_rotation),
            5 => Some(oar_metadata_type_t::ck_metadata_count),
            _ => None,
        }
    }
}

/// Parameter kinds of metadata in the C interface.
#[derive(Debug, Clone, Copy, PartialEq, Eq, Structural, Hash)]
pub enum oar_param_type_t {
    ck_param_constant,
    ck_param_multiple,
    ck_param_animated,
}

impl oar_param_type_t {
    /// The C code of each value.
    pub open spec fn spec_value(self) -> int {
        match self {
            oar_param_type_t::ck_param_constant => 0,
            oar_param_type_t::ck_param_multiple => 1,
            oar_param_type_t::ck_param_animated => 2,
        }
    }

    /// Returns the C code of this value.
    pub fn value(&self) -> (v: i32)
        ensures
            v == self.spec_value(),
    {
        match self {
            oar_param_type_t::ck_param_constant => 0,
            oar_param_type_t::ck_param_multiple => 1,
            oar_param_type_t::ck_param_animated => 2,
        }
    }

    /// Converts a C code into a value, if the code names one.
    pub fn from_value(value: i32) -> (r: Option<oar_param_type_t>)
        ensures
            r matches Some(e) ==> e.spec_value() == value,
            r is None ==> forall|e: oar_param_type_t| e.spec_value() != value,
    {
        match value {
            0 => Some(oar_param_type_t::ck_param_constant),
            1 => Some(oar_param_type_t::ck_param_multiple),
            2 => Some(oar_param_type_t::ck_param_animated),
            _ => None,
        }
    }
}

/// Downmix mode metadata of the C interface.
#[derive(Debug, Clone, Copy, PartialEq, Eq, Structural)]
pub struct oar_metadata_iamf_downmix_mode_t {
    pub mode: i32,
}

/// Animation kinds of the C interface.
#[derive(Debug, Clone, Copy, PartialEq, Eq, Structural, Hash)]
pub enum animation_type_t {
    ck_animation_type_step,
    ck_animation_type_linear,
    ck_animation_type_bezier,
}

impl animation_type_t {
    /// The C code of each value.
    pub open spec fn spec_value(self) -> int {
        match self {
            animation_type_t::ck_animation_type_step => 0,
            animation_type_t::ck_animation_type_linear => 1,
            animation_type_t::ck_animation_type_bezier => 2,
        }
    }

    /// Returns the C code of this value.
    pub fn value(&self) -> (v: i32)
        ensures
            v == self.spec_value(),
    {
        match self {
            animation_type_t::ck_animation_type_step => 0,
            animation_type_t::ck_animation_type_linear => 1,
            animation_type_t::ck_animation_type_bezier => 2,
        }
    }

    /// Converts a C code into a value, if the code names one.
    pub fn from_value(value: i32) -> (r: Option<animation_type_t>)
        ensures
            r matches Some(e) ==> e.spec_value() == value,
            r is None ==> forall|e: animation_type_t| e.spec_value() != value,
    {
        match value {
            0 => Some(animation_type_t::ck_animation_type_step),
            1 => Some(animation_type_t::ck_animation_type_linear),
            2 => Some(animation_type_t::ck_animation_type_bezier),
            _ => None,
        }
    }
}

} // verus!
