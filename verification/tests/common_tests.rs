use roar::audio_buffer::{find_next_aligned_array_index, AudioBufferLayout, ChannelSpec};
use roar::c_types::{
    audio_element_rendering_config_t, downmix_info_t, oar_audio_element_config_t, oar_audio_element_config_union_t,
    oar_binaural_filter_profile_t, oar_config_t, oar_headphones_rendering_mode_t, oar_layout_t, parameter_set_t,
};
use roar::config::{
    AudioElementConfig, BinauralFilterProfile, ChannelBasedConfig, Config, ElementRenderingConfig, HeadphonesRenderingMode,
    ObjectBasedConfig, SampleRate, SceneBasedConfig,
};
use roar::definitions::{GroupId, OarError, OAR_STATUS_OK};
use roar::downmix::{DownmixInfo, DownmixMode, WeightIndex};
use roar::ffi_ext::{element_metadata_action, ElementMetadataAction};
use roar::hoa::HighOrderAmbisonics;
use roar::layout::Layout;
use roar::units::Samples;

#[test]
fn test_oar_layout_discriminants() {
    assert_eq!(Layout::Mono.value(), 1);
    assert_eq!(Layout::Stereo.value(), 2);
    assert_eq!(Layout::Layout51.value(), 3);
    assert_eq!(Layout::Layout512.value(), 4);
    assert_eq!(Layout::Layout514.value(), 5);
    assert_eq!(Layout::Layout71.value(), 6);
    assert_eq!(Layout::Layout712.value(), 7);
    assert_eq!(Layout::Layout714.value(), 8);
    assert_eq!(Layout::Layout312.value(), 9);
    assert_eq!(Layout::Layout916.value(), 10);
    assert_eq!(Layout::LayoutA293.value(), 11);
    assert_eq!(Layout::Layout7154.value(), 12);
    assert_eq!(Layout::SoundSystemE451.value(), 129);
    assert_eq!(Layout::SoundSystemF370.value(), 130);
    assert_eq!(Layout::SoundSystemG490.value(), 131);
    assert_eq!(Layout::Binaural.value(), 255);
    assert_eq!(Layout::Lfe.value(), 257);
    assert_eq!(Layout::StereoS.value(), 258);
    assert_eq!(Layout::StereoSs.value(), 259);
    assert_eq!(Layout::StereoRs.value(), 260);
    assert_eq!(Layout::StereoTf.value(), 261);
    assert_eq!(Layout::StereoTb.value(), 262);
    assert_eq!(Layout::Top4ch.value(), 263);
    assert_eq!(Layout::ThreeCh.value(), 264);
    assert_eq!(Layout::StereoF.value(), 265);
    assert_eq!(Layout::StereoSi.value(), 266);
    assert_eq!(Layout::StereoTpsi.value(), 267);
    assert_eq!(Layout::Top6ch.value(), 268);
    assert_eq!(Layout::LfePair.value(), 269);
    assert_eq!(Layout::Bottom3ch.value(), 270);
    assert_eq!(Layout::Bottom4ch.value(), 271);
    assert_eq!(Layout::Top1ch.value(), 272);
    assert_eq!(Layout::Top5ch.value(), 273);
}

#[test]
fn test_oar_layout_associated_constants() {
    assert_eq!(Layout::SOUND_SYSTEM_A_020, Layout::Stereo);
    assert_eq!(Layout::SOUND_SYSTEM_B_050, Layout::Layout51);
    assert_eq!(Layout::SOUND_SYSTEM_C_250, Layout::Layout512);
    assert_eq!(Layout::SOUND_SYSTEM_D_450, Layout::Layout514);
    assert_eq!(Layout::SOUND_SYSTEM_I_070, Layout::Layout71);
    assert_eq!(Layout::SOUND_SYSTEM_J_470, Layout::Layout714);
    assert_eq!(Layout::SOUND_SYSTEM_H_9A3, Layout::LayoutA293);
}

#[test]
fn test_oar_layout_height_and_surround() {
    assert_eq!(Layout::Stereo.height_and_surround(), Some((0, 2)));
    assert_eq!(Layout::Layout512.height_and_surround(), Some((2, 5)));
    assert_eq!(Layout::Layout714.height_and_surround(), Some((4, 7)));
    assert_eq!(Layout::Binaural.height_and_surround(), None);
}

#[test]
fn test_oar_layout_is_valid_downmix_to() {
    assert!(Layout::Layout71.is_valid_downmix_to(Layout::Stereo));
    assert!(Layout::Layout714.is_valid_downmix_to(Layout::Layout512));
    assert!(!Layout::Layout512.is_valid_downmix_to(Layout::Layout51));
    assert!(!Layout::Layout512.is_valid_downmix_to(Layout::Stereo));
    assert!(!Layout::Stereo.is_valid_downmix_to(Layout::Layout51));
    assert!(!Layout::Layout512.is_valid_downmix_to(Layout::Layout712));
    assert!(!Layout::Layout512.is_valid_downmix_to(Layout::Layout514));
}

#[test]
fn layout_codes_round_trip() {
    for code in [1, 2, 3, 8, 12, 129, 255, 257, 273] {
        let layout = Layout::try_from(code).unwrap();
        assert_eq!(layout.value(), code);
    }
    assert_eq!(Layout::try_from(0), Err(OarError::InvalidParameter));
    assert_eq!(Layout::try_from(13), Err(OarError::InvalidParameter));
    assert_eq!(Layout::try_from(274), Err(OarError::InvalidParameter));
}

#[test]
fn layout_physical_channels_match_channel_count() {
    let chans = Layout::Layout51.physical_channels().unwrap();
    assert_eq!(chans.len(), Layout::Layout51.channels());
    assert_eq!(Layout::Layout714.channels(), 12);
    assert_eq!(Layout::LayoutA293.channels(), 24);
    assert_eq!(Layout::Layout7154.channels(), 17);
}

#[test]
fn downmix_to_itself_is_valid() {
    assert!(Layout::Layout714.is_valid_downmix_to(Layout::Layout714));
    assert!(Layout::Stereo.is_valid_downmix_to(Layout::Stereo));
}

#[test]
fn test_oar_hoa_discriminants() {
    assert_eq!(HighOrderAmbisonics::Zoa.value(), 0);
    assert_eq!(HighOrderAmbisonics::Order1.value(), 1);
    assert_eq!(HighOrderAmbisonics::Order2.value(), 2);
    assert_eq!(HighOrderAmbisonics::Order3.value(), 3);
    assert_eq!(HighOrderAmbisonics::Order4.value(), 4);
}

#[test]
fn hoa_channels_and_codes() {
    assert_eq!(HighOrderAmbisonics::Zoa.channels(), 1);
    assert_eq!(HighOrderAmbisonics::Order3.channels(), 16);
    assert_eq!(HighOrderAmbisonics::Order4.channels(), 25);
    assert_eq!(HighOrderAmbisonics::try_from(2), Ok(HighOrderAmbisonics::Order2));
    assert_eq!(HighOrderAmbisonics::try_from(5), Err(OarError::InvalidParameter));
    assert_eq!(HighOrderAmbisonics::try_from(-1), Err(OarError::InvalidParameter));
}

#[test]
fn test_oar_config_accessors() {
    let config = Config::new(Layout::Layout714, Samples::new(512).unwrap(), SampleRate::new(48000).unwrap()).unwrap();
    assert_eq!(config.output_layout(), Layout::Layout714);
    assert_eq!(config.sample_rate().value(), 48000);
    assert_eq!(config.samples_per_channel().value(), 512);
}

#[test]
fn test_oar_config_validation() {
    assert!(Config::new(Layout::Stereo, Samples::new(512).unwrap(), SampleRate::new(48000).unwrap()).is_ok());
    assert!(Config::new(Layout::Stereo, Samples::new(20000).unwrap(), SampleRate::new(48000).unwrap()).is_err());
}

#[test]
fn test_sample_rate_validation() {
    assert!(SampleRate::new(48000).is_ok());
    assert!(SampleRate::new(0).is_err());
}

#[test]
fn test_audio_element_config_comparisons_and_traits() {
    let ch_config = ChannelBasedConfig { layout: Layout::Stereo, downmix_info: None, rendering_config: None };
    let sc_config = SceneBasedConfig { order: HighOrderAmbisonics::Order1, rendering_config: None };
    let obj_config = ObjectBasedConfig { num_objects: 8, rendering_config: None };
    let el_ch = AudioElementConfig::ChannelBased(ch_config);
    let el_sc = AudioElementConfig::SceneBased(sc_config);
    let el_obj = AudioElementConfig::ObjectBased(obj_config);
    assert_ne!(el_ch, el_sc);
    assert_ne!(el_ch, el_obj);
    let el_ch_clone = el_ch;
    assert_eq!(el_ch, el_ch_clone);
}

#[test]
fn element_config_channels_and_rendering_config() {
    let rc = ElementRenderingConfig {
        headphones_rendering_mode: HeadphonesRenderingMode::HeadLocked,
        binaural_filter_profile: BinauralFilterProfile::Direct,
    };
    let el = AudioElementConfig::SceneBased(SceneBasedConfig { order: HighOrderAmbisonics::Order2, rendering_config: Some(rc) });
    assert_eq!(el.channels(), 9);
    assert_eq!(el.rendering_config(), Some(rc));
    let ch = AudioElementConfig::ChannelBased(ChannelBasedConfig { layout: Layout::Layout51, downmix_info: None, rendering_config: None });
    assert_eq!(ch.channels(), 6);
    assert_eq!(ch.rendering_config(), None);
    let defaults = ElementRenderingConfig::default();
    assert_eq!(defaults.headphones_rendering_mode, HeadphonesRenderingMode::WorldLockedRestricted);
    assert_eq!(defaults.binaural_filter_profile, BinauralFilterProfile::Ambient);
}

#[test]
fn test_oar_error_discriminants() {
    assert_eq!(OAR_STATUS_OK, 0);
    assert_eq!(OarError::NoMem.code(), -12);
    assert_eq!(OarError::Busy.code(), -16);
    assert_eq!(OarError::InvalidParameter.code(), -22);
    assert_eq!(OarError::NoSys.code(), -38);
    assert_eq!(OarError::NotSupported.code(), -95);
}

#[test]
fn test_oar_error_display() {
    assert!(OarError::NoMem.message().to_lowercase().contains("out of memory"));
    assert!(OarError::Busy.message().to_lowercase().contains("busy"));
    assert!(OarError::InvalidParameter.message().to_lowercase().contains("invalid parameters"));
    assert!(OarError::NoSys.message().to_lowercase().contains("not implemented"));
    assert!(OarError::NotSupported.message().to_lowercase().contains("not supported"));
    assert_eq!(OarError::InvalidParameter.message(), "Invalid parameters error");
}

#[test]
fn test_group_id_try_from() {
    assert_eq!(GroupId::try_from(0), Ok(GroupId::Zero));
    assert_eq!(GroupId::try_from(1), Ok(GroupId::One));
    assert_eq!(GroupId::try_from(2), Err(OarError::InvalidParameter));
}

#[test]
fn test_group_id_into() {
    assert_eq!(GroupId::Zero.to_u32(), 0);
    assert_eq!(GroupId::One.to_u32(), 1);
    assert_eq!(GroupId::Zero.to_i32(), 0);
    assert_eq!(GroupId::One.to_i32(), 1);
}

#[test]
fn test_samples_validation() {
    assert_eq!(Samples::new(1), Ok(Samples(1)));
    assert_eq!(Samples::new(0), Err(OarError::InvalidParameter));
    assert_eq!(Samples::new(i32::MAX as u32), Ok(Samples(i32::MAX as u32)));
    assert_eq!(Samples::new(i32::MAX as u32 + 1), Err(OarError::InvalidParameter));
    assert_eq!(u32::from(Samples(7)), 7);
    assert_eq!(usize::from(Samples(7)), 7);
}

#[test]
fn weight_index_saturates_at_its_bounds() {
    let w = WeightIndex::new(10).unwrap();
    assert_eq!(w.increment().value(), 10);
    let w = WeightIndex::new(0).unwrap();
    assert_eq!(w.decrement().value(), 0);
    assert_eq!(WeightIndex::new(4).unwrap().increment().value(), 5);
    assert_eq!(WeightIndex::new(11), Err(OarError::InvalidParameter));
    assert_eq!(WeightIndex::new(-1), Err(OarError::InvalidParameter));
}

#[test]
fn downmix_mode_codes() {
    assert_eq!(DownmixMode::Mode1NegOffset.value(), 0);
    assert_eq!(DownmixMode::Mode3PosOffset.value(), 6);
    assert_eq!(DownmixMode::try_from(4), Ok(DownmixMode::Mode1PosOffset));
    assert_eq!(DownmixMode::try_from(3), Err(OarError::InvalidParameter));
    let info = DownmixInfo::new(DownmixMode::Mode2NegOffset, None);
    assert_eq!(info.mode(), DownmixMode::Mode2NegOffset);
    assert_eq!(info.weight_index(), None);
}

#[test]
fn test_find_next_aligned_array_index() {
    assert_eq!(find_next_aligned_array_index(0, 4, 64), 0);
    assert_eq!(find_next_aligned_array_index(16, 4, 64), 16);
    assert_eq!(find_next_aligned_array_index(32, 4, 64), 32);
    assert_eq!(find_next_aligned_array_index(1, 4, 64), 16);
    assert_eq!(find_next_aligned_array_index(15, 4, 64), 16);
    assert_eq!(find_next_aligned_array_index(17, 4, 64), 32);
}

#[test]
fn audio_buffer_layout_channels_are_aligned_and_disjoint() {
    let layout = AudioBufferLayout::new(3, 17);
    assert_eq!(layout.num_channels(), 3);
    assert_eq!(layout.num_frames(), 17);
    assert_eq!(layout.get_channel_stride(), 32);
    let c0 = layout.channel(0);
    let c1 = layout.channel(1);
    assert_eq!(c0, ChannelSpec::new(0, 17));
    assert_eq!(c1.offset, 32);
    assert_eq!(c1.size, 17);
    assert!(layout.is_channel_enabled(2));
}

fn rendering(mode: oar_headphones_rendering_mode_t, profile: oar_binaural_filter_profile_t) -> audio_element_rendering_config_t {
    audio_element_rendering_config_t { headphones_rendering_mode: mode, binaural_filter_profile: profile }
}

fn c_element(element_type: i32, raw: i32, flags: u32, mode: i32, weight_index: i32) -> oar_audio_element_config_t {
    oar_audio_element_config_t {
        element_type,
        config: oar_audio_element_config_union_t { raw },
        parameters: parameter_set_t {
            flags,
            downmix_info: downmix_info_t { mode, weight_index },
            element_rendering_config: rendering(
                oar_headphones_rendering_mode_t::ck_head_locked,
                oar_binaural_filter_profile_t::ck_reverberant,
            ),
        },
    }
}

#[test]
fn to_safe_converts_channel_based_element() {
    let c = c_element(0, oar_layout_t::ck_oar_layout_stereo.value(), 0, 0, 0);
    assert_eq!(
        c.to_safe(),
        Ok(AudioElementConfig::ChannelBased(ChannelBasedConfig { layout: Layout::Stereo, downmix_info: None, rendering_config: None }))
    );
}

#[test]
fn to_safe_reads_flagged_parameters() {
    let c = c_element(0, 3, 0x03, 5, 7);
    let safe = c.to_safe().unwrap();
    match safe {
        AudioElementConfig::ChannelBased(cbc) => {
            assert_eq!(cbc.layout, Layout::Layout51);
            let d = cbc.downmix_info.unwrap();
            assert_eq!(d.mode(), DownmixMode::Mode2PosOffset);
            assert_eq!(d.weight_index().unwrap().value(), 7);
            assert_eq!(
                cbc.rendering_config,
                Some(ElementRenderingConfig {
                    headphones_rendering_mode: HeadphonesRenderingMode::HeadLocked,
                    binaural_filter_profile: BinauralFilterProfile::Reverberant,
                })
            );
        }
        _ => panic!("expected a channel-based element"),
    }
    let out_of_range = c_element(0, 3, 0x01, 0, 42).to_safe().unwrap();
    match out_of_range {
        AudioElementConfig::ChannelBased(cbc) => assert_eq!(cbc.downmix_info.unwrap().weight_index(), None),
        _ => panic!("expected a channel-based element"),
    }
}

#[test]
fn to_safe_rejects_invalid_elements() {
    assert_eq!(c_element(0, 129, 0, 0, 0).to_safe(), Err(OarError::InvalidParameter));
    assert_eq!(c_element(0, 3, 0x01, 3, 0).to_safe(), Err(OarError::InvalidParameter));
    assert_eq!(c_element(1, 5, 0, 0, 0).to_safe(), Err(OarError::InvalidParameter));
    assert_eq!(c_element(2, 3, 0, 0, 0).to_safe(), Err(OarError::InvalidParameter));
    assert_eq!(c_element(7, 1, 0, 0, 0).to_safe(), Err(OarError::InvalidParameter));
}

#[test]
fn to_safe_converts_scene_and_object_elements() {
    assert_eq!(
        c_element(1, 3, 0, 0, 0).to_safe(),
        Ok(AudioElementConfig::SceneBased(SceneBasedConfig { order: HighOrderAmbisonics::Order3, rendering_config: None }))
    );
    assert_eq!(
        c_element(2, 2, 0, 0, 0).to_safe(),
        Ok(AudioElementConfig::ObjectBased(ObjectBasedConfig { num_objects: 2, rendering_config: None }))
    );
}

#[test]
fn config_try_from_checks_each_field() {
    let ok = Config::try_from(oar_config_t { target_layout: 2, samples_per_channel: 256, sampling_rate: 48000 }).unwrap();
    assert_eq!(ok.output_layout(), Layout::Stereo);
    assert_eq!(ok.samples_per_channel().value(), 256);
    assert_eq!(
        Config::try_from(oar_config_t { target_layout: 99, samples_per_channel: 256, sampling_rate: 48000 }),
        Err(OarError::InvalidParameter)
    );
    assert_eq!(
        Config::try_from(oar_config_t { target_layout: 2, samples_per_channel: 0, sampling_rate: 48000 }),
        Err(OarError::InvalidParameter)
    );
    assert_eq!(
        Config::try_from(oar_config_t { target_layout: 2, samples_per_channel: 256, sampling_rate: 0 }),
        Err(OarError::InvalidParameter)
    );
}

#[test]
fn c_enum_conversions() {
    assert_eq!(
        HeadphonesRenderingMode::try_from(oar_headphones_rendering_mode_t::ck_world_locked),
        Ok(HeadphonesRenderingMode::WorldLocked)
    );
    assert_eq!(BinauralFilterProfile::try_from(oar_binaural_filter_profile_t::ck_direct), Ok(BinauralFilterProfile::Direct));
    assert_eq!(oar_layout_t::from_value(258), Some(oar_layout_t::ck_oar_layout_stereo_s));
    assert_eq!(oar_layout_t::from_value(1000), None);
    assert_eq!(DownmixInfo::try_from(downmix_info_t { mode: 9, weight_index: 0 }), Err(OarError::InvalidParameter));
}

#[test]
fn element_metadata_actions() {
    assert_eq!(element_metadata_action(1, 480), Ok(ElementMetadataAction::Gain(Samples(480))));
    assert_eq!(element_metadata_action(1, 0), Ok(ElementMetadataAction::Ignore));
    assert_eq!(element_metadata_action(3, 64), Ok(ElementMetadataAction::Positions(Samples(64))));
    assert_eq!(element_metadata_action(3, -5), Ok(ElementMetadataAction::Ignore));
    assert_eq!(element_metadata_action(2, 10), Ok(ElementMetadataAction::DownmixMode(Some(Samples(10)))));
    assert_eq!(element_metadata_action(2, 0), Ok(ElementMetadataAction::DownmixMode(None)));
    assert_eq!(element_metadata_action(4, 10), Err(OarError::NotSupported));
    assert_eq!(element_metadata_action(0, 10), Err(OarError::NotSupported));
}
