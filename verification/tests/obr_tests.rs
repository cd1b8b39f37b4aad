use roar::config::SampleRate;
use roar::definitions::OarError;
use roar::obr::ambisonic_utils::{
    acn_sequence, get_num_nth_order_periphonic_components, get_num_periphonic_components, is_valid_ambisonic_order,
};
use roar::obr::associated_legendre_polynomials_generator::AssociatedLegendrePolynomialsGenerator;
use roar::obr::audio_element_config::{numbered_name, AudioElementConfig, BinauralFilterProfile};
use roar::obr::audio_element_type::AudioElementType;
use roar::obr::binaural_filters::{asset_file_name, BinauralFilterAsset, BinauralFiltersWrapper, Ear};
use roar::obr::dsp_utils::ceil_to_multiple_of_frames_per_buffer;
use roar::obr::input_channel_config::{
    AmbisonicSceneInputChannel, AudioObjectInputChannel, InputChannelConfigBase, LoudspeakerLayoutInputChannel,
    PassthroughInputChannel,
};
use roar::obr::loudspeaker_layouts::{LoudspeakerLayouts, VirtualLoudspeaker};
use roar::obr::misc_math::{find_gcd, next_pow_two};
use roar::obr::processing_group::{ProcessingGroup, ProcessingGroupKey};
use roar::obr::wav::Wav;
use roar::units::Samples;

fn wav_header(format_tag: u16) -> Vec<u8> {
    let mut wav_bytes = Vec::new();
    wav_bytes.extend_from_slice(b"RIFF");
    wav_bytes.extend_from_slice(&(36 + 8_u32).to_le_bytes());
    wav_bytes.extend_from_slice(b"WAVE");
    wav_bytes.extend_from_slice(b"fmt ");
    wav_bytes.extend_from_slice(&16_u32.to_le_bytes());
    wav_bytes.extend_from_slice(&format_tag.to_le_bytes());
    wav_bytes.extend_from_slice(&2_u16.to_le_bytes());
    wav_bytes.extend_from_slice(&48000_u32.to_le_bytes());
    wav_bytes.extend_from_slice(&(48000_u32 * 4).to_le_bytes());
    wav_bytes.extend_from_slice(&4_u16.to_le_bytes());
    wav_bytes.extend_from_slice(&16_u16.to_le_bytes());
    wav_bytes
}

#[test]
fn test_wav_parse_valid() {
    let mut wav_bytes = wav_header(1);
    wav_bytes.extend_from_slice(b"data");
    wav_bytes.extend_from_slice(&8_u32.to_le_bytes());
    wav_bytes.extend_from_slice(&[0x01, 0x00, 0x02, 0x00, 0x03, 0x00, 0x04, 0x00]);
    let wav = Wav::from_bytes(&wav_bytes);
    assert!(wav.is_some());
    let wav = wav.unwrap();
    assert_eq!(wav.num_channels(), 2);
    assert_eq!(wav.sample_rate(), 48000);
    assert_eq!(wav.interleaved_samples(), &[1, 2, 3, 4]);
}

#[test]
fn test_wav_parse_invalid_header() {
    let bad_bytes = b"RIFFxxxxWAVXfmt ";
    assert!(Wav::from_bytes(bad_bytes).is_none());
}

#[test]
fn test_wav_parse_non_pcm() {
    let wav_bytes = wav_header(2);
    assert!(Wav::from_bytes(&wav_bytes).is_none());
}

#[test]
fn wav_negative_samples_and_missing_data() {
    let mut wav_bytes = wav_header(1);
    wav_bytes.extend_from_slice(b"data");
    wav_bytes.extend_from_slice(&4_u32.to_le_bytes());
    wav_bytes.extend_from_slice(&[0xff, 0xff, 0x00, 0x80]);
    let wav = Wav::from_bytes(&wav_bytes).unwrap();
    assert_eq!(wav.interleaved_samples(), &[-1, i16::MIN]);
    assert!(Wav::from_bytes(&wav_header(1)).is_none());
}

#[test]
fn test_find_gcd() {
    assert_eq!(find_gcd(12, 18), 6);
    assert_eq!(find_gcd(5, 7), 1);
    assert_eq!(find_gcd(-12, 18), 6);
    assert_eq!(find_gcd(12, 0), 12);
    assert_eq!(find_gcd(0, 0), 0);
}

#[test]
fn test_next_pow_two() {
    assert_eq!(next_pow_two(0), 1);
    assert_eq!(next_pow_two(1), 1);
    assert_eq!(next_pow_two(2), 2);
    assert_eq!(next_pow_two(3), 4);
    assert_eq!(next_pow_two(4), 4);
    assert_eq!(next_pow_two(5), 8);
    assert_eq!(next_pow_two(127), 128);
    assert_eq!(next_pow_two(128), 128);
    assert_eq!(next_pow_two(0x8000_0000), 0x8000_0000);
    assert_eq!(next_pow_two(0x8000_0001), 0x1_0000_0000);
    assert_eq!(next_pow_two(0xFFFF_FFFE), 0x1_0000_0000);
}

#[test]
fn test_acn_sequence() {
    assert_eq!(acn_sequence(0, 0), 0);
    assert_eq!(acn_sequence(1, -1), 1);
    assert_eq!(acn_sequence(1, 0), 2);
    assert_eq!(acn_sequence(1, 1), 3);
    assert_eq!(acn_sequence(2, -2), 4);
    assert_eq!(acn_sequence(2, 2), 8);
}

#[test]
fn test_get_num_periphonic_components() {
    assert_eq!(get_num_periphonic_components(0), 1);
    assert_eq!(get_num_periphonic_components(1), 4);
    assert_eq!(get_num_periphonic_components(2), 9);
    assert_eq!(get_num_periphonic_components(3), 16);
    assert_eq!(get_num_periphonic_components(-46341), 2147395600);
}

#[test]
fn test_get_num_nth_order_periphonic_components() {
    assert_eq!(get_num_nth_order_periphonic_components(0), 1);
    assert_eq!(get_num_nth_order_periphonic_components(1), 3);
    assert_eq!(get_num_nth_order_periphonic_components(2), 5);
    assert_eq!(get_num_nth_order_periphonic_components(3), 7);
}

#[test]
fn test_is_valid_ambisonic_order() {
    assert!(is_valid_ambisonic_order(1));
    assert!(is_valid_ambisonic_order(4));
    assert!(is_valid_ambisonic_order(9));
    assert!(is_valid_ambisonic_order(16));
    assert!(!is_valid_ambisonic_order(0));
    assert!(!is_valid_ambisonic_order(2));
    assert!(!is_valid_ambisonic_order(5));
}

#[test]
fn test_get_index_successive_indices() {
    let max_degree = 5;
    let alp_generator = AssociatedLegendrePolynomialsGenerator::new(max_degree, false, true);
    let mut last_index = -1;
    for degree in 0..=max_degree {
        for order in -degree..=degree {
            let index = alp_generator.get_index(degree, order) as i32;
            assert_eq!(last_index + 1, index);
            last_index = index;
        }
    }
    assert_eq!(alp_generator.get_num_values(), 36);
}

#[test]
fn alp_generator_without_negative_orders() {
    let alp_generator = AssociatedLegendrePolynomialsGenerator::new(3, false, false);
    assert_eq!(alp_generator.get_num_values(), 10);
    assert_eq!(alp_generator.get_index(2, 1), 4);
    assert!(!alp_generator.check_index_validity(2, -1));
    assert!(!alp_generator.check_index_validity(4, 0));
}

#[test]
fn test_ceil_to_multiple_of_frames_per_buffer() {
    assert_eq!(ceil_to_multiple_of_frames_per_buffer(0, 4), 4);
    assert_eq!(ceil_to_multiple_of_frames_per_buffer(3, 4), 4);
    assert_eq!(ceil_to_multiple_of_frames_per_buffer(4, 4), 4);
    assert_eq!(ceil_to_multiple_of_frames_per_buffer(5, 4), 8);
}

#[test]
fn test_is_ambisonics() {
    assert!(AudioElementType::Oa1.is_ambisonics());
    assert!(AudioElementType::Oa4.is_ambisonics());
    assert!(!AudioElementType::LayoutStereo.is_ambisonics());
    assert!(!AudioElementType::InvalidType.is_ambisonics());
}

#[test]
fn test_is_loudspeaker_layout() {
    assert!(AudioElementType::LayoutMono.is_loudspeaker_layout());
    assert!(AudioElementType::Layout10_2_9_3.is_loudspeaker_layout());
    assert!(AudioElementType::SubsetTop5Ch.is_loudspeaker_layout());
    assert!(!AudioElementType::Oa2.is_loudspeaker_layout());
}

#[test]
fn test_is_object() {
    assert!(AudioElementType::ObjectMono.is_object());
    assert!(AudioElementType::ObjectDual.is_object());
    assert!(!AudioElementType::Layout5_1_0.is_object());
}

#[test]
fn test_is_passthrough() {
    assert!(AudioElementType::PassthroughMono.is_passthrough());
    assert!(AudioElementType::PassthroughStereo.is_passthrough());
    assert!(!AudioElementType::ObjectMono.is_passthrough());
}

#[test]
fn test_get_ambisonic_order() {
    assert_eq!(AudioElementType::Oa1.get_ambisonic_order(), Some(1));
    assert_eq!(AudioElementType::Oa3.get_ambisonic_order(), Some(3));
    assert_eq!(AudioElementType::LayoutStereo.get_ambisonic_order(), None);
}

#[test]
fn test_input_channel_config_base() {
    let base = InputChannelConfigBase::new("test_base".to_string());
    assert_eq!(base.id, "test_base");
    assert_eq!(base.input_channel_index, 0);
}

#[test]
fn test_ambisonic_scene_input_channel() {
    let amb = AmbisonicSceneInputChannel::new("amb_ch".to_string());
    assert_eq!(amb.base.id, "amb_ch");
}

#[test]
fn test_loudspeaker_layout_input_channel() {
    let ch = LoudspeakerLayoutInputChannel::new("L30".to_string(), 30, 0, 1, false);
    assert_eq!(ch.base.id, "L30");
    assert_eq!(ch.azimuth, 30);
    assert_eq!(ch.elevation, 0);
    assert_eq!(ch.distance, 1);
    assert!(!ch.is_lfe);
}

#[test]
fn test_passthrough_input_channel() {
    let pass = PassthroughInputChannel::new("pass_ch".to_string());
    assert_eq!(pass.base.id, "pass_ch");
}

#[test]
fn test_audio_object_input_channel() {
    let obj = AudioObjectInputChannel::new("obj_ch".to_string());
    assert_eq!(obj.base.id, "obj_ch");
    assert_eq!(obj.base.input_channel_index, 0);
}

#[test]
fn test_virtual_loudspeaker_to_channel() {
    let ch_c = VirtualLoudspeaker::C.to_channel();
    assert_eq!(ch_c.base.id, "kC");
    assert_eq!(ch_c.azimuth, 0);
    assert_eq!(ch_c.elevation, 0);
    assert_eq!(ch_c.distance, 1);
    assert!(!ch_c.is_lfe);
    let ch_lfe = VirtualLoudspeaker::Lfe.to_channel();
    assert_eq!(ch_lfe.base.id, "kLFE");
    assert_eq!(ch_lfe.azimuth, 0);
    assert_eq!(ch_lfe.elevation, -30);
    assert!(ch_lfe.is_lfe);
}

#[test]
fn test_get_loudspeaker_layout() {
    let layouts = LoudspeakerLayouts::new();
    let mono = layouts.get_loudspeaker_layout(AudioElementType::LayoutMono);
    assert_eq!(mono.len(), 1);
    assert_eq!(mono[0].base.id, "kC");
    let stereo = layouts.get_loudspeaker_layout(AudioElementType::LayoutStereo);
    assert_eq!(stereo.len(), 2);
    assert_eq!(stereo[0].base.id, "kL30");
    assert_eq!(stereo[1].base.id, "kR30");
    let l51 = layouts.get_loudspeaker_layout(AudioElementType::Layout5_1_0);
    assert_eq!(l51.len(), 6);
    let invalid = layouts.get_loudspeaker_layout(AudioElementType::InvalidType);
    assert!(invalid.is_empty());
}

#[test]
fn test_audio_element_config_ambisonic_init() {
    let config = AudioElementConfig::new(AudioElementType::Oa1, BinauralFilterProfile::Direct);
    assert_eq!(config.element_type(), AudioElementType::Oa1);
    assert_eq!(config.get_number_of_input_channels(), 4);
    assert_eq!(config.get_binaural_filters_ambisonic_order(), 1);
    assert_eq!(config.get_binaural_filter_profile(), BinauralFilterProfile::Direct);
    assert!(!config.is_head_locked());
}

#[test]
fn test_audio_element_config_object_init() {
    let config = AudioElementConfig::new(AudioElementType::ObjectMono, BinauralFilterProfile::Ambient);
    assert_eq!(config.element_type(), AudioElementType::ObjectMono);
    assert_eq!(config.get_number_of_input_channels(), 1);
    assert_eq!(config.get_binaural_filters_ambisonic_order(), 3);
    assert_eq!(config.get_binaural_filter_profile(), BinauralFilterProfile::Ambient);
    assert_eq!(config.get_object_channels()[0].base.id, "obj_0");
}

#[test]
fn test_audio_element_config_passthrough_init() {
    let config = AudioElementConfig::new(AudioElementType::PassthroughStereo, BinauralFilterProfile::Reverberant);
    assert_eq!(config.element_type(), AudioElementType::PassthroughStereo);
    assert_eq!(config.get_number_of_input_channels(), 2);
    assert_eq!(config.get_binaural_filters_ambisonic_order(), 0);
}

#[test]
fn test_audio_element_config_set_first_channel_index() {
    let mut config = AudioElementConfig::new(AudioElementType::Oa1, BinauralFilterProfile::Direct);
    config.set_first_channel_index(10);
    assert_eq!(config.get_first_channel_index(), 10);
}

#[test]
fn test_audio_element_config_head_locked() {
    let mut config = AudioElementConfig::new(AudioElementType::Oa2, BinauralFilterProfile::Direct);
    config.set_head_locked(true);
    assert!(config.is_head_locked());
}

#[test]
fn renumbering_keeps_speakers_and_numbers_channels_consecutively() {
    let mut config = AudioElementConfig::new(AudioElementType::Layout5_1_0, BinauralFilterProfile::Direct);
    config.set_first_channel_index(7);
    let chans = config.get_loudspeaker_channels();
    assert_eq!(chans.len(), 6);
    for (i, ch) in chans.iter().enumerate() {
        assert_eq!(ch.base.input_channel_index, 7 + i);
    }
    assert_eq!(chans[3].base.id, "kLFE");
    assert!(chans[3].is_lfe);
}

#[test]
fn numbered_names_are_decimal() {
    assert_eq!(numbered_name("acn_", 0), "acn_0");
    assert_eq!(numbered_name("acn_", 24), "acn_24");
    assert_eq!(numbered_name("", 105), "105");
}

#[test]
fn profile_default_and_order() {
    assert_eq!(BinauralFilterProfile::default(), BinauralFilterProfile::Ambient);
    assert!(BinauralFilterProfile::Direct.rank() < BinauralFilterProfile::Ambient.rank());
    assert!(BinauralFilterProfile::Ambient.rank() < BinauralFilterProfile::Reverberant.rank());
}

#[test]
fn test_equality() {
    let key1 = ProcessingGroupKey { ambisonic_order: 1, filter_profile: BinauralFilterProfile::Direct };
    let key2 = ProcessingGroupKey { ambisonic_order: 1, filter_profile: BinauralFilterProfile::Direct };
    let key3 = ProcessingGroupKey { ambisonic_order: 2, filter_profile: BinauralFilterProfile::Direct };
    let key4 = ProcessingGroupKey { ambisonic_order: 1, filter_profile: BinauralFilterProfile::Ambient };
    assert!(key1 == key2);
    assert!(key1 != key3);
    assert!(key1 != key4);
}

#[test]
fn test_less_than() {
    let key1 = ProcessingGroupKey { ambisonic_order: 1, filter_profile: BinauralFilterProfile::Direct };
    let key2 = ProcessingGroupKey { ambisonic_order: 2, filter_profile: BinauralFilterProfile::Direct };
    let key3 = ProcessingGroupKey { ambisonic_order: 1, filter_profile: BinauralFilterProfile::Ambient };
    assert!(key1.precedes(&key2));
    assert!(!key2.precedes(&key1));
    assert!(key1.precedes(&key3));
    assert!(key1 < key2);
    assert!(key1 < key3);
}

#[test]
fn test_construction() {
    let key = ProcessingGroupKey { ambisonic_order: 2, filter_profile: BinauralFilterProfile::Direct };
    let indices = vec![0, 1];
    let group = ProcessingGroup::new(key, indices.clone(), Samples::new(128).unwrap(), SampleRate::new(48000).unwrap());
    assert_eq!(group.get_key().ambisonic_order, 2);
    assert_eq!(group.get_key().filter_profile, BinauralFilterProfile::Direct);
    assert_eq!(group.get_audio_element_indices(), &indices[..]);
    assert_eq!(group.get_ambisonic_order(), 2);
    assert_eq!(group.get_filter_profile(), BinauralFilterProfile::Direct);
}

#[test]
fn hrir_file_names_follow_order_and_profile() {
    let rate = SampleRate::new(48000).unwrap();
    let size = Samples::new(128).unwrap();
    let group = ProcessingGroup::new(
        ProcessingGroupKey { ambisonic_order: 3, filter_profile: BinauralFilterProfile::Reverberant },
        vec![0],
        size,
        rate,
    );
    assert_eq!(group.hrir_file_names(), Ok(("3OAReverberantL".to_string(), "3OAReverberantR".to_string())));
    let bad = ProcessingGroup::new(
        ProcessingGroupKey { ambisonic_order: 5, filter_profile: BinauralFilterProfile::Direct },
        vec![0],
        size,
        rate,
    );
    assert_eq!(bad.hrir_file_names(), Err(OarError::InvalidParameter));
}

#[test]
fn encoder_sources_follow_head_locking() {
    let mut layout = AudioElementConfig::new(AudioElementType::LayoutStereo, BinauralFilterProfile::Direct);
    layout.set_first_channel_index(0);
    let mut obj = AudioElementConfig::new(AudioElementType::ObjectMono, BinauralFilterProfile::Direct);
    obj.set_first_channel_index(2);
    obj.set_head_locked(true);
    let mut amb = AudioElementConfig::new(AudioElementType::Oa3, BinauralFilterProfile::Direct);
    amb.set_first_channel_index(3);
    let elements = vec![layout, obj, amb];
    let indices = vec![0, 1, 2];
    let mut world = Vec::new();
    ProcessingGroup::populate_encoder_source_channel_indices(&indices, &elements, Some(false), &mut world);
    assert_eq!(world, vec![0, 1]);
    let mut head = Vec::new();
    ProcessingGroup::populate_encoder_source_channel_indices(&indices, &elements, Some(true), &mut head);
    assert_eq!(head, vec![2]);
    let mut all = Vec::new();
    ProcessingGroup::populate_encoder_source_channel_indices(&indices, &elements, None, &mut all);
    assert_eq!(all, vec![0, 1, 2]);
    let group = ProcessingGroup::new(
        ProcessingGroupKey { ambisonic_order: 3, filter_profile: BinauralFilterProfile::Direct },
        indices,
        Samples::new(128).unwrap(),
        SampleRate::new(48000).unwrap(),
    );
    assert_eq!(group.get_encoder_channels_count(&elements), 3);
}

#[test]
fn get_file_finds_each_filter_set_by_name() {
    let wrapper = BinauralFiltersWrapper::new();
    let asset = wrapper.get_file("3OADirectL").unwrap();
    assert_eq!(asset, BinauralFilterAsset { order: 3, profile: BinauralFilterProfile::Direct, ear: Ear::Left });
    let asset = wrapper.get_file("1OAReverberantR").unwrap();
    assert_eq!(asset, BinauralFilterAsset { order: 1, profile: BinauralFilterProfile::Reverberant, ear: Ear::Right });
    for order in 1..=4 {
        for profile in [BinauralFilterProfile::Direct, BinauralFilterProfile::Ambient, BinauralFilterProfile::Reverberant] {
            for ear in [Ear::Left, Ear::Right] {
                let a = BinauralFilterAsset { order, profile, ear };
                assert_eq!(wrapper.get_file(&asset_file_name(a)), Some(a));
            }
        }
    }
}

#[test]
fn get_file_rejects_unknown_names() {
    let wrapper = BinauralFiltersWrapper::new();
    assert_eq!(wrapper.get_file("5OADirectL"), None);
    assert_eq!(wrapper.get_file("3OADirect"), None);
    assert_eq!(wrapper.get_file("3oaDirectL"), None);
    assert_eq!(wrapper.get_file(""), None);
}

#[test]
fn mirrored_speakers_have_opposite_azimuths() {
    let pairs = [
        (VirtualLoudspeaker::L30, VirtualLoudspeaker::R30),
        (VirtualLoudspeaker::L110, VirtualLoudspeaker::R110),
        (VirtualLoudspeaker::Ul135, VirtualLoudspeaker::Ur135),
        (VirtualLoudspeaker::Bl45, VirtualLoudspeaker::Br45),
        (VirtualLoudspeaker::Lfe1, VirtualLoudspeaker::Lfe2),
    ];
    for (l, r) in pairs {
        let (cl, cr) = (l.to_channel(), r.to_channel());
        assert!(cl.azimuth > 0);
        assert_eq!(cr.azimuth, -cl.azimuth);
        assert_eq!(cr.elevation, cl.elevation);
        assert_eq!(cr.is_lfe, cl.is_lfe);
        assert_ne!(cl.base.id, cr.base.id);
    }
    assert_eq!(VirtualLoudspeaker::Deg180.to_channel().azimuth, 180);
    assert_eq!(VirtualLoudspeaker::T.to_channel().elevation, 90);
}
