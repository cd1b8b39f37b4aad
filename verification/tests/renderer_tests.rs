use std::collections::VecDeque;

use roar::audio_elements_renderer::{AudioElementsRenderer, ElementPositionsContext};
use roar::config::{
    AudioElementConfig as OarAudioElementConfig, BinauralFilterProfile as OarProfile, ChannelBasedConfig,
    ElementRenderingConfig, HeadphonesRenderingMode, ObjectBasedConfig, SampleRate, SceneBasedConfig,
};
use roar::definitions::OarError;
use roar::downmix::{DownmixMode, WeightIndex};
use roar::downmix_renderer::DownmixRenderer;
use roar::ear_renderer::{EarRenderer, EarRenderingMode};
use roar::gain_parameter::{GainParameter, GainSource, GainUpdate};
use roar::hoa::HighOrderAmbisonics;
use roar::layout::Layout;
use roar::obr::audio_element_config::BinauralFilterProfile;
use roar::obr::audio_element_type::AudioElementType;
use roar::obr::obr_impl::{ObrAudioRendererAdapter, ObrImpl};
use roar::obr::partitioned_fft_filter::PartitionedFftFilter;
use roar::obr::resampler::Resampler;
use roar::units::Samples;

fn buffer_size() -> Samples {
    Samples::new(128).unwrap()
}

fn sample_rate() -> SampleRate {
    SampleRate::new(48000).unwrap()
}

#[test]
fn test_initialization() {
    let renderer = ObrImpl::new(buffer_size(), sample_rate());
    assert_eq!(renderer.get_buffer_size_per_channel(), buffer_size());
    assert_eq!(renderer.get_sampling_rate(), sample_rate());
    assert_eq!(renderer.get_number_of_input_channels(), 0);
    assert_eq!(renderer.get_number_of_output_channels(), 2);
    assert!(renderer.is_limiter_active());
}

#[test]
fn test_add_and_remove_audio_element() {
    let mut renderer = ObrImpl::new(buffer_size(), sample_rate());
    assert!(renderer.add_audio_element(AudioElementType::Oa3, BinauralFilterProfile::Direct).is_ok());
    assert_eq!(renderer.get_number_of_input_channels(), 16);
    assert!(renderer.remove_last_audio_element().is_ok());
    assert_eq!(renderer.get_number_of_input_channels(), 0);
}

#[test]
fn test_add_and_remove_multiple_audio_elements() {
    let mut renderer = ObrImpl::new(buffer_size(), sample_rate());
    assert!(renderer.add_audio_element(AudioElementType::Oa3, BinauralFilterProfile::Direct).is_ok());
    assert_eq!(renderer.get_number_of_input_channels(), 16);
    assert!(renderer.add_audio_element(AudioElementType::Layout7_1_4, BinauralFilterProfile::Direct).is_ok());
    assert_eq!(renderer.get_number_of_input_channels(), 28);
    assert_eq!(renderer.get_number_of_audio_elements(), 2);
    assert!(renderer.remove_last_audio_element().is_ok());
    assert_eq!(renderer.get_number_of_input_channels(), 16);
    assert_eq!(renderer.get_number_of_audio_elements(), 1);
    assert!(renderer.remove_last_audio_element().is_ok());
    assert_eq!(renderer.get_number_of_input_channels(), 0);
    assert_eq!(renderer.get_number_of_audio_elements(), 0);
    assert_eq!(renderer.remove_last_audio_element(), Err(OarError::InvalidParameter));
}

#[test]
fn test_add_multiple_audio_elements_with_different_types_same_filter_type_succeeds() {
    let mut renderer = ObrImpl::new(buffer_size(), sample_rate());
    assert!(renderer.add_audio_element(AudioElementType::Oa3, BinauralFilterProfile::Direct).is_ok());
    assert!(renderer.add_audio_element(AudioElementType::Oa1, BinauralFilterProfile::Direct).is_ok());
    assert_eq!(renderer.get_number_of_input_channels(), 20);
    assert_eq!(renderer.get_number_of_audio_elements(), 2);
    assert_eq!(renderer.get_processing_groups().len(), 2);
}

#[test]
fn test_add_multiple_audio_elements_same_type_different_filter_types_succeeds() {
    let mut renderer = ObrImpl::new(buffer_size(), sample_rate());
    assert!(renderer.add_audio_element(AudioElementType::Oa3, BinauralFilterProfile::Direct).is_ok());
    assert!(renderer.add_audio_element(AudioElementType::Oa3, BinauralFilterProfile::Reverberant).is_ok());
    assert_eq!(renderer.get_number_of_input_channels(), 32);
    assert_eq!(renderer.get_number_of_audio_elements(), 2);
    assert_eq!(renderer.get_processing_groups().len(), 2);
}

#[test]
fn test_ambisonics_and_loudspeaker_layouts_same_filter_profile() {
    let mut renderer = ObrImpl::new(buffer_size(), sample_rate());
    assert!(renderer.add_audio_element(AudioElementType::Oa2, BinauralFilterProfile::Direct).is_ok());
    assert!(renderer.add_audio_element(AudioElementType::Layout7_1_4, BinauralFilterProfile::Direct).is_ok());
    assert_eq!(renderer.get_number_of_input_channels(), 21);
    assert_eq!(renderer.get_processing_groups().len(), 2);
}

#[test]
fn groups_are_sorted_by_order_then_profile_and_skip_passthrough() {
    let mut renderer = ObrImpl::new(buffer_size(), sample_rate());
    renderer.add_audio_element(AudioElementType::Oa3, BinauralFilterProfile::Reverberant).unwrap();
    renderer.add_audio_element(AudioElementType::PassthroughStereo, BinauralFilterProfile::Direct).unwrap();
    renderer.add_audio_element(AudioElementType::LayoutStereo, BinauralFilterProfile::Direct).unwrap();
    renderer.add_audio_element(AudioElementType::Oa1, BinauralFilterProfile::Ambient).unwrap();
    renderer.add_audio_element(AudioElementType::ObjectMono, BinauralFilterProfile::Reverberant).unwrap();
    let groups = renderer.get_processing_groups();
    assert_eq!(groups.len(), 3);
    assert_eq!(groups[0].get_ambisonic_order(), 1);
    assert_eq!(groups[0].get_audio_element_indices(), &[3]);
    assert_eq!(groups[1].get_ambisonic_order(), 3);
    assert_eq!(groups[1].get_filter_profile(), BinauralFilterProfile::Direct);
    assert_eq!(groups[1].get_audio_element_indices(), &[2]);
    assert_eq!(groups[2].get_filter_profile(), BinauralFilterProfile::Reverberant);
    assert_eq!(groups[2].get_audio_element_indices(), &[0, 4]);
}

#[test]
fn elements_take_consecutive_input_channels() {
    let mut renderer = ObrImpl::new(buffer_size(), sample_rate());
    renderer.add_audio_element(AudioElementType::Oa1, BinauralFilterProfile::Direct).unwrap();
    renderer.add_audio_element(AudioElementType::PassthroughStereo, BinauralFilterProfile::Direct).unwrap();
    renderer.add_audio_element(AudioElementType::PassthroughMono, BinauralFilterProfile::Direct).unwrap();
    let els = renderer.get_audio_elements();
    assert_eq!(els[0].get_first_channel_index(), 0);
    assert_eq!(els[1].get_first_channel_index(), 4);
    assert_eq!(els[2].get_first_channel_index(), 6);
    assert_eq!(renderer.passthrough_sources(), vec![(4, 5), (6, 6)]);
}

#[test]
fn adding_past_the_channel_limit_fails_and_changes_nothing() {
    let mut renderer = ObrImpl::new(buffer_size(), sample_rate());
    for _ in 0..5 {
        renderer.add_audio_element(AudioElementType::Oa4, BinauralFilterProfile::Direct).unwrap();
    }
    assert_eq!(renderer.get_number_of_input_channels(), 125);
    assert_eq!(renderer.add_audio_element(AudioElementType::Oa1, BinauralFilterProfile::Direct), Err(OarError::InvalidParameter));
    assert_eq!(renderer.get_number_of_audio_elements(), 5);
    assert!(renderer.add_audio_element(AudioElementType::LayoutStereo, BinauralFilterProfile::Direct).is_ok());
    assert_eq!(renderer.get_number_of_input_channels(), 127);
}

#[test]
fn an_element_without_channels_cannot_be_set_up() {
    let mut renderer = ObrImpl::new(buffer_size(), sample_rate());
    assert_eq!(renderer.add_audio_element(AudioElementType::InvalidType, BinauralFilterProfile::Direct), Err(OarError::InvalidParameter));
    assert_eq!(renderer.get_number_of_audio_elements(), 1);
    assert!(renderer.get_processing_groups().is_empty());
    assert!(!renderer.is_limiter_active());
}

#[test]
fn head_locking_leaves_passthrough_alone() {
    let mut renderer = ObrImpl::new(buffer_size(), sample_rate());
    renderer.add_audio_element(AudioElementType::Oa1, BinauralFilterProfile::Direct).unwrap();
    renderer.add_audio_element(AudioElementType::PassthroughMono, BinauralFilterProfile::Direct).unwrap();
    assert_eq!(renderer.set_element_head_locked(0, true), Ok(()));
    assert!(renderer.get_audio_elements()[0].is_head_locked());
    assert_eq!(renderer.set_element_head_locked(1, true), Ok(()));
    assert!(!renderer.get_audio_elements()[1].is_head_locked());
    assert_eq!(renderer.set_element_head_locked(2, true), Err(OarError::InvalidParameter));
}

#[test]
fn object_channel_checks() {
    let mut renderer = ObrImpl::new(buffer_size(), sample_rate());
    renderer.add_audio_element(AudioElementType::ObjectDual, BinauralFilterProfile::Direct).unwrap();
    renderer.add_audio_element(AudioElementType::Oa1, BinauralFilterProfile::Direct).unwrap();
    assert_eq!(renderer.check_object_channel(0, 1), Ok(()));
    assert_eq!(renderer.check_object_channel(0, 2), Err(OarError::InvalidParameter));
    assert_eq!(renderer.check_object_channel(1, 0), Err(OarError::InvalidParameter));
    assert_eq!(renderer.check_object_channel(2, 0), Err(OarError::InvalidParameter));
}

#[test]
fn limiter_and_head_tracking_switches() {
    let mut renderer = ObrImpl::new(buffer_size(), sample_rate());
    renderer.enable_limiter(false);
    assert!(!renderer.is_limiter_active());
    renderer.enable_head_tracking(true);
    assert!(renderer.is_head_tracking_enabled());
    renderer.enable_limiter(true);
    renderer.reset_dsp();
    assert!(!renderer.is_limiter_active());
}

fn stereo_config(mode: HeadphonesRenderingMode, profile: OarProfile) -> OarAudioElementConfig {
    OarAudioElementConfig::ChannelBased(ChannelBasedConfig {
        layout: Layout::Stereo,
        downmix_info: None,
        rendering_config: Some(ElementRenderingConfig { headphones_rendering_mode: mode, binaural_filter_profile: profile }),
    })
}

#[test]
fn adapter_maps_configs_to_elements() {
    let mut adapter = ObrAudioRendererAdapter::new(buffer_size(), sample_rate());
    assert!(!adapter.obr.is_limiter_active());
    adapter.add_element(7, &stereo_config(HeadphonesRenderingMode::HeadLocked, OarProfile::Reverberant)).unwrap();
    let scene = OarAudioElementConfig::SceneBased(SceneBasedConfig { order: HighOrderAmbisonics::Order2, rendering_config: None });
    adapter.add_element(3, &scene).unwrap();
    let els = adapter.obr.get_audio_elements();
    assert_eq!(els[0].element_type(), AudioElementType::LayoutStereo);
    assert_eq!(els[0].get_binaural_filter_profile(), BinauralFilterProfile::Reverberant);
    assert!(els[0].is_head_locked());
    assert_eq!(els[1].element_type(), AudioElementType::Oa2);
    assert_eq!(els[1].get_binaural_filter_profile(), BinauralFilterProfile::Ambient);
    assert_eq!(adapter.element_index(3), Some(1));
    assert_eq!(adapter.get_element_channel_offset(3), 2);
    assert_eq!(adapter.get_element_channel_offset(7), 0);
    assert_eq!(adapter.get_element_channels(3), 9);
    assert_eq!(adapter.get_element_channels(99), 0);
    assert_eq!(adapter.obr.get_number_of_input_channels(), 11);
}

#[test]
fn adapter_rejects_duplicates_and_unrenderable_configs() {
    let mut adapter = ObrAudioRendererAdapter::new(buffer_size(), sample_rate());
    let cfg = stereo_config(HeadphonesRenderingMode::WorldLocked, OarProfile::Direct);
    adapter.add_element(1, &cfg).unwrap();
    assert_eq!(adapter.add_element(1, &cfg), Err(OarError::InvalidParameter));
    let objects = OarAudioElementConfig::ObjectBased(ObjectBasedConfig { num_objects: 3, rendering_config: None });
    assert_eq!(adapter.add_element(2, &objects), Err(OarError::InvalidParameter));
    let target_only = OarAudioElementConfig::ChannelBased(ChannelBasedConfig {
        layout: Layout::Binaural,
        downmix_info: None,
        rendering_config: None,
    });
    assert_eq!(adapter.add_element(3, &target_only), Err(OarError::InvalidParameter));
    assert_eq!(adapter.element_ids(), &[1]);
}

#[test]
fn adapter_maps_zeroth_order_scenes_to_passthrough() {
    let mut adapter = ObrAudioRendererAdapter::new(buffer_size(), sample_rate());
    let zoa = OarAudioElementConfig::SceneBased(SceneBasedConfig {
        order: HighOrderAmbisonics::Zoa,
        rendering_config: Some(ElementRenderingConfig {
            headphones_rendering_mode: HeadphonesRenderingMode::HeadLocked,
            binaural_filter_profile: OarProfile::Direct,
        }),
    });
    adapter.add_element(5, &zoa).unwrap();
    let els = adapter.obr.get_audio_elements();
    assert_eq!(els[0].element_type(), AudioElementType::PassthroughMono);
    assert!(!els[0].is_head_locked());
}

fn mono_object() -> OarAudioElementConfig {
    OarAudioElementConfig::ObjectBased(ObjectBasedConfig { num_objects: 1, rendering_config: None })
}

#[test]
fn audio_elements_router_fails_to_add_duplicate_element() {
    let mut router: AudioElementsRenderer<u32> = AudioElementsRenderer::new(2, None);
    let config = OarAudioElementConfig::ChannelBased(ChannelBasedConfig { layout: Layout::Stereo, downmix_info: None, rendering_config: None });
    router.add_element(42, &config).unwrap();
    assert_eq!(router.add_element(42, &config), Err(OarError::InvalidParameter));
}

#[test]
fn router_keeps_ids_sorted() {
    let mut router: AudioElementsRenderer<u32> = AudioElementsRenderer::new(2, None);
    for id in [30, 10, 20, 5] {
        router.add_element(id, &mono_object()).unwrap();
    }
    assert_eq!(router.sorted_ids(), &[5, 10, 20, 30]);
    assert_eq!(router.find(20), Some(2));
    assert_eq!(router.find(21), None);
}

#[test]
fn slices_input_into_sub_frames_during_render() {
    let router: AudioElementsRenderer<u32> = AudioElementsRenderer::new(1, Some(Samples(4)));
    assert_eq!(router.sub_frames(12), vec![(0, 4), (4, 4), (8, 4)]);
    assert_eq!(router.sub_frames(10), vec![(0, 4), (4, 4), (8, 2)]);
    let whole: AudioElementsRenderer<u32> = AudioElementsRenderer::new(1, None);
    assert_eq!(whole.sub_frames(12), vec![(0, 12)]);
}

#[test]
fn interpolates_metadata_across_sub_frames() {
    let mut router: AudioElementsRenderer<u32> = AudioElementsRenderer::new(1, Some(Samples(4)));
    router.add_element(10, &mono_object()).unwrap();
    router.update_element_positions(10, 0, Samples(8)).unwrap();
    router.update_element_positions(10, 90, Samples(8)).unwrap();
    let queue = router.positions_queue(0);
    assert_eq!(queue.duration, 16);
    assert_eq!(queue.locate(0), Some((0, 0)));
    assert_eq!(queue.locate(4), Some((0, 4)));
    assert_eq!(queue.locate(8), Some((1, 0)));
    assert_eq!(queue.locate(16), None);
    router.elapser_tick(12);
    let queue = router.positions_queue(0);
    assert_eq!(queue.positions.len(), 1);
    assert_eq!(queue.positions[0].positions, 90);
    assert_eq!(queue.start, 4);
    assert_eq!(queue.duration, 8);
}

#[test]
fn positions_for_unknown_elements_are_rejected() {
    let mut router: AudioElementsRenderer<u32> = AudioElementsRenderer::new(1, None);
    assert_eq!(router.update_element_positions(1, 0, Samples(8)), Err(OarError::InvalidParameter));
}

#[test]
fn metadata_unit_sets_sub_frames() {
    let mut router: AudioElementsRenderer<u32> = AudioElementsRenderer::new(2, None);
    router.set_metadata_unit_to_process(64).unwrap();
    assert_eq!(router.sub_frame_samples(), Some(Samples(64)));
    router.set_metadata_unit_to_process(0).unwrap();
    assert_eq!(router.sub_frame_samples(), None);
    assert_eq!(router.set_metadata_unit_to_process(u32::MAX), Err(OarError::InvalidParameter));
}

#[test]
fn render_buffer_checks() {
    let router: AudioElementsRenderer<u32> = AudioElementsRenderer::new(2, None);
    assert_eq!(router.check_render_buffers(2, 2, 16, 16), Ok(()));
    assert_eq!(router.check_render_buffers(0, 2, 16, 16), Err(OarError::InvalidParameter));
    assert_eq!(router.check_render_buffers(2, 2, 0, 0), Err(OarError::InvalidParameter));
    assert_eq!(router.check_render_buffers(2, 2, 16, 8), Err(OarError::InvalidParameter));
    assert_eq!(router.check_render_buffers(257, 2, 16, 16), Err(OarError::InvalidParameter));
}

#[test]
fn queue_elapse_keeps_unfinished_items() {
    let mut ctx: ElementPositionsContext<u8> = ElementPositionsContext::new();
    ctx.push_positions(1, Samples(5));
    ctx.push_positions(2, Samples(5));
    ctx.elapse(4);
    assert_eq!(ctx.positions.len(), 2);
    assert_eq!(ctx.start, 4);
    ctx.elapse(1);
    assert_eq!(ctx.positions.len(), 1);
    assert_eq!(ctx.start, 0);
    assert_eq!(ctx.duration, 5);
}

#[test]
fn new_initializes_correct_dimensions() {
    let renderer = DownmixRenderer::new(Layout::Layout51, Layout::Stereo);
    assert_eq!(renderer.input_layout(), Layout::Layout51);
    assert_eq!(renderer.output_layout(), Layout::Stereo);
    assert_eq!(renderer.input_channels(), 6);
    assert_eq!(renderer.output_channels(), 2);
    assert!(renderer.is_supported());
}

#[test]
fn add_element_succeeds_for_matching_layout() {
    let renderer = DownmixRenderer::new(Layout::Layout51, Layout::Stereo);
    let config = OarAudioElementConfig::ChannelBased(ChannelBasedConfig { layout: Layout::Layout51, downmix_info: None, rendering_config: None });
    assert_eq!(renderer.add_element(1, &config), Ok(()));
}

#[test]
fn add_element_fails_for_mismatched_layout() {
    let renderer = DownmixRenderer::new(Layout::Layout51, Layout::Stereo);
    let config = OarAudioElementConfig::ChannelBased(ChannelBasedConfig { layout: Layout::Layout71, downmix_info: None, rendering_config: None });
    assert_eq!(renderer.add_element(1, &config), Err(OarError::InvalidParameter));
    assert_eq!(renderer.add_element(1, &mono_object()), Err(OarError::NotSupported));
}

#[test]
fn update_metadata_succeeds() {
    let mut renderer = DownmixRenderer::new(Layout::Layout51, Layout::Stereo);
    assert_eq!(renderer.update_element_downmix_mode(1, DownmixMode::Mode2NegOffset, None), Ok(()));
}

#[test]
fn unsupported_downmix_refuses_everything() {
    let mut renderer = DownmixRenderer::new(Layout::Stereo, Layout::Layout51);
    assert!(!renderer.is_supported());
    assert_eq!(renderer.set_mode_weight(DownmixMode::Mode1NegOffset, None), Err(OarError::NotSupported));
    assert_eq!(renderer.update_element_downmix_mode(1, DownmixMode::Mode1NegOffset, None), Err(OarError::NotSupported));
    assert_eq!(renderer.render_plan(2, 6, 8, 8), Err(OarError::InvalidParameter));
}

#[test]
fn render_fails_with_empty_inputs() {
    let mut renderer = DownmixRenderer::new(Layout::Layout51, Layout::Stereo);
    assert_eq!(renderer.render_plan(0, 2, 0, 10), Err(OarError::InvalidParameter));
    assert_eq!(renderer.render_plan(6, 2, 0, 0), Err(OarError::InvalidParameter));
}

#[test]
fn render_fails_with_mismatched_channel_count() {
    let mut renderer = DownmixRenderer::new(Layout::Layout51, Layout::Stereo);
    assert_eq!(renderer.render_plan(3, 2, 10, 10), Err(OarError::InvalidParameter));
    assert_eq!(renderer.render_plan(5, 2, 8, 8), Err(OarError::InvalidParameter));
    assert_eq!(renderer.render_plan(6, 1, 8, 8), Err(OarError::InvalidParameter));
}

#[test]
fn render_fails_with_mismatched_sample_lengths() {
    let mut renderer = DownmixRenderer::new(Layout::Layout51, Layout::Stereo);
    assert_eq!(renderer.render_plan(6, 2, 8, 7), Err(OarError::InvalidParameter));
}

#[test]
fn downmix_height_layouts_updates_metadata_mode() {
    let mut renderer = DownmixRenderer::new(Layout::Layout714, Layout::Layout512);
    renderer.update_element_downmix_mode(1, DownmixMode::Mode2PosOffset, Some(Samples(3))).unwrap();
    renderer.update_element_downmix_mode(1, DownmixMode::Mode3NegOffset, None).unwrap();
    let chunks = renderer.render_plan(12, 8, 8, 8).unwrap();
    assert_eq!(chunks.len(), 2);
    assert_eq!((chunks[0].offset, chunks[0].len, chunks[0].mode), (0, 3, DownmixMode::Mode2PosOffset));
    assert_eq!(chunks[0].weight_index.map(|w| w.value()), Some(0));
    assert_eq!((chunks[1].offset, chunks[1].len, chunks[1].mode), (3, 5, DownmixMode::Mode3NegOffset));
    assert_eq!(chunks[1].weight_index.map(|w| w.value()), Some(0));
    let (mode, w) = renderer.mode_weight();
    assert_eq!(mode, DownmixMode::Mode3NegOffset);
    assert_eq!(w.map(|w| w.value()), Some(0));
}

#[test]
fn set_mode_weight_shifts_the_weight_index() {
    let mut renderer = DownmixRenderer::new(Layout::Layout714, Layout::Layout512);
    renderer.set_mode_weight(DownmixMode::Mode1PosOffset, Some(WeightIndex::new(4).unwrap())).unwrap();
    renderer.set_mode_weight(DownmixMode::Mode1PosOffset, None).unwrap();
    assert_eq!(renderer.mode_weight().1.map(|w| w.value()), Some(5));
    renderer.set_mode_weight(DownmixMode::Mode2NegOffset, None).unwrap();
    renderer.set_mode_weight(DownmixMode::Mode2NegOffset, None).unwrap();
    assert_eq!(renderer.mode_weight().1.map(|w| w.value()), Some(3));
}

#[test]
fn ear_renderer_defaults() {
    let rdr = EarRenderer::new();
    assert_eq!(rdr.sample_rate.value(), 48000);
    assert_eq!(rdr.target_layout, Layout::Stereo);
    assert!(rdr.active_mode().is_none());
    let rdr = EarRenderer::with_output_layout(Layout::Layout51);
    assert_eq!(rdr.target_layout, Layout::Layout51);
    assert_eq!(rdr.sample_rate.value(), 48000);
    let rdr = EarRenderer::with_params(Layout::Layout714, SampleRate::new(44100).unwrap());
    assert_eq!(rdr.sample_rate.value(), 44100);
    assert_eq!(EarRenderer::default().target_layout, Layout::Stereo);
}

#[test]
fn ear_renderer_render_checks() {
    let mut rdr = EarRenderer::new();
    assert_eq!(rdr.check_render(1, 2, 4, 4), Err(OarError::NotSupported));
    assert_eq!(rdr.check_render(1, 2, 4, 3), Err(OarError::InvalidParameter));
    rdr.set_active_mode(Some(EarRenderingMode::ChannelPredefined { in_channels: 1, out_channels: 2 }));
    assert_eq!(rdr.check_render(1, 2, 4, 4), Ok(()));
    assert_eq!(rdr.check_render(2, 2, 4, 4), Err(OarError::InvalidParameter));
    rdr.set_active_mode(Some(EarRenderingMode::Scene { in_channels: 30, out_channels: 6 }));
    assert_eq!(rdr.check_render(30, 6, 4, 4), Err(OarError::InvalidParameter));
}

fn update(gain: u8, duration: u32) -> GainUpdate<u8> {
    GainUpdate { gain, duration: Samples(duration), elapsed: 0 }
}

#[test]
fn test_new_parameter() {
    let param: GainParameter<u8> = GainParameter::new(42);
    assert_eq!(param.id, 42);
    assert!(param.updates.is_empty());
}

#[test]
fn test_generate_multipliers_empty_queue() {
    let mut param: GainParameter<u8> = GainParameter::new(42);
    let segs = param.generate_gain_segments(10);
    assert_eq!(segs.len(), 1);
    assert_eq!(segs[0].source, GainSource::Hold);
    assert_eq!((segs[0].offset, segs[0].count), (0, 10));
}

#[test]
fn test_generate_multipliers_constant_gain() {
    let mut param: GainParameter<u8> = GainParameter::new(42);
    param.updates.push_back(update(8, 5));
    let segs = param.generate_gain_segments(10);
    assert_eq!(segs.len(), 2);
    assert_eq!(segs[0].source, GainSource::Finished(8));
    assert_eq!((segs[0].offset, segs[0].count, segs[0].elapsed, segs[0].duration), (0, 5, 0, 5));
    assert_eq!(segs[1].source, GainSource::Hold);
    assert_eq!((segs[1].offset, segs[1].count), (5, 5));
    assert!(param.updates.is_empty());
}

#[test]
fn test_generate_multipliers_constant_gain_split() {
    let mut param: GainParameter<u8> = GainParameter::new(42);
    param.updates.push_back(update(8, 5));
    param.updates.push_back(update(3, 5));
    let segs = param.generate_gain_segments(8);
    assert_eq!(segs.len(), 2);
    assert_eq!(segs[0].source, GainSource::Finished(8));
    assert_eq!(segs[1].source, GainSource::Front);
    assert_eq!((segs[1].offset, segs[1].count), (5, 3));
    assert_eq!(param.updates.len(), 1);
    assert_eq!(param.updates[0].elapsed, 3);
    assert_eq!(param.updates[0].gain, 3);
}

#[test]
fn gain_updates_continue_across_blocks() {
    let mut param: GainParameter<u8> = GainParameter::new(1);
    let mut q = VecDeque::new();
    q.push_back(update(1, 6));
    param.updates = q;
    let first = param.generate_gain_segments(4);
    assert_eq!(first[0].source, GainSource::Front);
    let second = param.generate_gain_segments(4);
    assert_eq!(second[0].source, GainSource::Finished(1));
    assert_eq!((second[0].offset, second[0].count, second[0].elapsed), (0, 2, 4));
    assert_eq!(second[1].source, GainSource::Hold);
    assert_eq!((second[1].offset, second[1].count), (2, 2));
}

#[test]
fn test_resampler_identity_passthrough() {
    let mut r = Resampler::new();
    r.set_rate_and_num_channels(48000, 48000, 1);
    assert_eq!(r.get_next_output_length(10), 10);
    let schedule = r.advance_clock(10);
    assert_eq!(schedule.len(), 10);
    assert_eq!(schedule[3], (3, 0));
}

#[test]
fn test_resampler_supported_rates() {
    assert!(Resampler::are_sample_rates_supported(48000, 44100));
    assert!(Resampler::are_sample_rates_supported(16000, 48000));
    assert!(!Resampler::are_sample_rates_supported(44100, 44101));
}

#[test]
fn resampler_reduces_rates_and_sizes_the_filter() {
    let mut r = Resampler::new();
    let update = r.set_rate_and_num_channels(24000, 48000, 1);
    assert_eq!(r.rates(), (2, 1));
    assert_eq!(update.filter_length, Some(26));
    assert_eq!(r.coeffs_per_phase(), 14);
    assert!(update.state_sizes.is_some());
    let again = r.set_rate_and_num_channels(24000, 48000, 1);
    assert_eq!(again.filter_length, None);
    assert_eq!(again.state_sizes, None);
}

#[test]
fn upsampling_block_has_the_announced_length() {
    let mut r = Resampler::new();
    r.set_rate_and_num_channels(24000, 48000, 1);
    r.reset_state();
    let expected = r.get_next_output_length(64);
    assert_eq!(r.get_max_output_length(64), 129);
    assert_eq!(expected, 128);
    let schedule = r.advance_clock(64);
    assert_eq!(schedule.len(), expected);
    assert_eq!(schedule[0], (0, 0));
    assert_eq!(schedule[1], (0, 1));
    assert_eq!(schedule[2], (1, 0));
}

#[test]
fn downsampling_blocks_keep_announced_lengths() {
    let mut r = Resampler::new();
    r.set_rate_and_num_channels(48000, 16000, 1);
    r.reset_state();
    let mut total = 0;
    for block in [10usize, 7, 13, 1, 5] {
        let expected = r.get_next_output_length(block);
        let schedule = r.advance_clock(block);
        assert_eq!(schedule.len(), expected);
        total += schedule.len();
    }
    assert_eq!(total, 12);
}

#[test]
fn partition_bookkeeping_rounds_to_blocks() {
    let f = PartitionedFftFilter::new(10, 4, 20, 16);
    assert_eq!(f.filter_size(), 12);
    assert_eq!(f.num_partitions(), 3);
    assert_eq!(f.max_num_partitions(), 5);
    let parts = f.kernel_partitions(10);
    assert_eq!(parts.len(), 3);
    assert_eq!((parts[2].offset, parts[2].num_frames), (8, 2));
}

#[test]
fn reset_freq_domain_buffers_preserves_and_rotates_active_partitions() {
    let mut f = PartitionedFftFilter::new(12, 4, 20, 16);
    let (slot, order) = f.advance_ring();
    assert_eq!(slot, 0);
    assert_eq!(order, vec![0, 1, 2]);
    let (slot, order) = f.advance_ring();
    assert_eq!(slot, 2);
    assert_eq!(order, vec![2, 0, 1]);
    let resize = f.reset_freq_domain_buffers(20);
    assert_eq!(resize.copy_order, vec![1, 2, 0]);
    assert_eq!((resize.clear_from, resize.clear_to), (3, 5));
    assert_eq!(f.num_partitions(), 5);
    let (slot, _) = f.advance_ring();
    assert_eq!(slot, 0);
}
