//! Kinds of audio elements handled by the binaural renderer.
#![allow(non_camel_case_types)]

use vstd::prelude::*;

verus! {

/// Kind of an audio element: ambisonics of some order, a loudspeaker layout, objects,
/// or passthrough.
#[derive(Debug, Clone, Copy, PartialEq, Eq, Structural, PartialOrd, Ord, Hash)]
pub enum AudioElementType {
    InvalidType,
    Oa1,
    Oa2,
    Oa3,
    Oa4,
    LayoutMono,
    LayoutStereo,
    Layout5_1_0,
    Layout5_1_2,
    Layout5_1_4,
    Layout7_1_0,
    Layout7_1_2,
    Layout7_1_4,
    Layout3_1_2,
    Layout9_1_6,
    Layout9_1_6Alt,
    Layout7_1_5_4,
    Layout10_2_9_3,
    SubsetLfe,
    SubsetStereoS,
    SubsetStereoSs,
    SubsetStereoRs,
    SubsetStereoTf,
    SubsetStereoTb,
    SubsetTop4Ch,
    Subset3_0Ch,
    SubsetStereoF,
    SubsetStereoSi,
    SubsetStereoTpSi,
    SubsetTop6Ch,
    SubsetLfePair,
    SubsetBottom3Ch,
    SubsetBottom4Ch,
    SubsetTop1Ch,
    SubsetTop5Ch,
    ObjectMono,
    ObjectDual,
    PassthroughMono,
    PassthroughStereo,
}

/// The numeric code of each kind.
pub open spec fn spec_type_value(t: AudioElementType) -> int {
    match t {
        AudioElementType::InvalidType => 0,
        AudioElementType::Oa1 => 101,
        AudioElementType::Oa2 => 102,
        AudioElementType::Oa3 => 103,
        AudioElementType::Oa4 => 104,
        AudioElementType::LayoutMono => 201,
        AudioElementType::LayoutStereo => 202,
        AudioElementType::Layout5_1_0 => 203,
        AudioElementType::Layout5_1_2 => 204,
        AudioElementType::Layout5_1_4 => 205,
        AudioElementType::Layout7_1_0 => 206,
        AudioElementType::Layout7_1_2 => 207,
        AudioElementType::Layout7_1_4 => 208,
        AudioElementType::Layout3_1_2 => 209,
        AudioElementType::Layout9_1_6 => 210,
        AudioElementType::Layout9_1_6Alt => 211,
        AudioElementType::Layout7_1_5_4 => 212,
        AudioElementType::Layout10_2_9_3 => 213,
        AudioElementType::SubsetLfe => 214,
        AudioElementType::SubsetStereoS => 215,
        AudioElementType::SubsetStereoSs => 216,
        AudioElementType::SubsetStereoRs => 217,
        AudioElementType::SubsetStereoTf => 218,
        AudioElementType::SubsetStereoTb => 219,
        AudioElementType::SubsetTop4Ch => 220,
        AudioElementType::Subset3_0Ch => 221,
        AudioElementType::SubsetStereoF => 222,
        AudioElementType::SubsetStereoSi => 223,
        AudioElementType::SubsetStereoTpSi => 224,
        AudioElementType::SubsetTop6Ch => 225,
        AudioElementType::SubsetLfePair => 226,
        AudioElementType::SubsetBottom3Ch => 227,
        AudioElementType::SubsetBottom4Ch => 228,
        AudioElementType::SubsetTop1Ch => 229,
        AudioElementType::SubsetTop5Ch => 230,
        AudioElementType::ObjectMono => 301,
        AudioElementType::ObjectDual => 302,
        AudioElementType::PassthroughMono => 401,
        AudioElementType::PassthroughStereo => 402,
    }
}

/// Ambisonics kinds.
pub open spec fn spec_is_ambisonics(t: AudioElementType) -> bool {
    101 <= spec_type_value(t) <= 104
}

/// Loudspeaker layout kinds.
pub open spec fn spec_is_loudspeaker_layout(t: AudioElementType) -> bool {
    201 <= spec_type_value(t) <= 230
}

/// Object kinds.
pub open spec fn spec_is_object(t: AudioElementType) -> bool {
    301 <= spec_type_value(t) <= 302
}

/// Passthrough kinds.
pub open spec fn spec_is_passthrough(t: AudioElementType) -> bool {
    401 <= spec_type_value(t) <= 402
}

/// The ambisonic order of each ambisonics kind.
pub open spec fn spec_ambisonic_order(t: AudioElementType) -> Option<int> {
    if spec_is_ambisonics(t) {
        Some(spec_type_value(t) - 100)
    } else {
        None
    }
}

impl Default for AudioElementType {
    fn default() -> (t: Self)
        ensures
            t == AudioElementType::InvalidType,
    {
        AudioElementType::InvalidType
    }
}

impl AudioElementType {
    /// Returns the numeric code of this kind.
    pub fn value(&self) -> (v: i32)
        ensures
            v == spec_type_value(*self),
    {
        match self {
            AudioElementType::InvalidType => 0,
            AudioElementType::Oa1 => 101,
            AudioElementType::Oa2 => 102,
            AudioElementType::Oa3 => 103,
            AudioElementType::Oa4 => 104,
            AudioElementType::LayoutMono => 201,
            AudioElementType::LayoutStereo => 202,
            AudioElementType::Layout5_1_0 => 203,
            AudioElementType::Layout5_1_2 => 204,
            AudioElementType::Layout5_1_4 => 205,
            AudioElementType::Layout7_1_0 => 206,
            AudioElementType::Layout7_1_2 => 207,
            AudioElementType::Layout7_1_4 => 208,
            AudioElementType::Layout3_1_2 => 209,
            AudioElementType::Layout9_1_6 => 210,
            AudioElementType::Layout9_1_6Alt => 211,
            AudioElementType::Layout7_1_5_4 => 212,
            AudioElementType::Layout10_2_9_3 => 213,
            AudioElementType::SubsetLfe => 214,
            AudioElementType::SubsetStereoS => 215,
            AudioElementType::SubsetStereoSs => 216,
            AudioElementType::SubsetStereoRs => 217,
            AudioElementType::SubsetStereoTf => 218,
            AudioElementType::SubsetStereoTb => 219,
            AudioElementType::SubsetTop4Ch => 220,
            AudioElementType::Subset3_0Ch => 221,
            AudioElementType::SubsetStereoF => 222,
            AudioElementType::SubsetStereoSi => 223,
            AudioElementType::SubsetStereoTpSi => 224,
            AudioElementType::SubsetTop6Ch => 225,
            AudioElementType::SubsetLfePair => 226,
            AudioElementType::SubsetBottom3Ch => 227,
            AudioElementType::SubsetBottom4Ch => 228,
            AudioElementType::SubsetTop1Ch => 229,
            AudioElementType::SubsetTop5Ch => 230,
            AudioElementType::ObjectMono => 301,
            AudioElementType::ObjectDual => 302,
            AudioElementType::PassthroughMono => 401,
            AudioElementType::PassthroughStereo => 402,
        }
    }

    /// Returns `true` if this kind is ambisonics.
    pub fn is_ambisonics(&self) -> (b: bool)
        ensures
            b == spec_is_ambisonics(*self),
    {
        matches!(self, AudioElementType::Oa1 | AudioElementType::Oa2 | AudioElementType::Oa3 | AudioElementType::Oa4)
    }

    /// Returns `true` if this kind is a loudspeaker layout.
    pub fn is_loudspeaker_layout(&self) -> (b: bool)
        ensures
            b == spec_is_loudspeaker_layout(*self),
    {
        matches!(
            self,
            AudioElementType::LayoutMono
            | AudioElementType::LayoutStereo
            | AudioElementType::Layout5_1_0
            | AudioElementType::Layout5_1_2
            | AudioElementType::Layout5_1_4
            | AudioElementType::Layout7_1_0
            | AudioElementType::Layout7_1_2
            | AudioElementType::Layout7_1_4
            | AudioElementType::Layout3_1_2
            | AudioElementType::Layout9_1_6
            | AudioElementType::Layout9_1_6Alt
            | AudioElementType::Layout7_1_5_4
            | AudioElementType::Layout10_2_9_3
            | AudioElementType::SubsetLfe
            | AudioElementType::SubsetStereoS
            | AudioElementType::SubsetStereoSs
            | AudioElementType::SubsetStereoRs
            | AudioElementType::SubsetStereoTf
            | AudioElementType::SubsetStereoTb
            | AudioElementType::SubsetTop4Ch
            | AudioElementType::Subset3_0Ch
            | AudioElementType::SubsetStereoF
            | AudioElementType::SubsetStereoSi
            | AudioElementType::SubsetStereoTpSi
            | AudioElementType::SubsetTop6Ch
            | AudioElementType::SubsetLfePair
            | AudioElementType::SubsetBottom3Ch
            | AudioElementType::SubsetBottom4Ch
            | AudioElementType::SubsetTop1Ch
            | AudioElementType::SubsetTop5Ch
        )
    }

    /// Returns `true` if this kind is an object.
    pub fn is_object(&self) -> (b: bool)
        ensures
            b == spec_is_object(*self),
    {
        matches!(self, AudioElementType::ObjectMono | AudioElementType::ObjectDual)
    }

    /// Returns `true` if this kind is passthrough.
    pub fn is_passthrough(&self) -> (b: bool)
        ensures
            b == spec_is_passthrough(*self),
    {
        matches!(self, AudioElementType::PassthroughMono | AudioElementType::PassthroughStereo)
    }

    /// Returns the ambisonic order if this kind is ambisonics.
    pub fn get_ambisonic_order(&self) -> (r: Option<i32>)
        ensures
            r matches Some(o) ==> spec_ambisonic_order(*self) == Some(o as int),
            r is None ==> spec_ambisonic_order(*self) is None,
    {
        match self {
            AudioElementType::Oa1 => Some(1),
            AudioElementType::Oa2 => Some(2),
            AudioElementType::Oa3 => Some(3),
            AudioElementType::Oa4 => Some(4),
            _ => None,
        }
    }
}

/// Each kind belongs to at most one of the four families; only the invalid kind belongs
/// to none.
pub proof fn lemma_kind_families_are_exclusive(t: AudioElementType)
    ensures
        spec_is_ambisonics(t) as int + spec_is_loudspeaker_layout(t) as int + spec_is_object(t) as int
            + spec_is_passthrough(t) as int == (if t == AudioElementType::InvalidType { 0int } else { 1int }),
{
}

} // verus!
