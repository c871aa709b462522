use scene_render::camera::CubeFace;
use scene_render::frame_loop::{
    command_for_key_release, frame_outcome, is_exit_key, should_write_logs, FrameOutcome, Key,
    SurfaceStatus,
};
use scene_render::render_scene::AlphaMode;
use scene_render::renderer::{
    bloom_contribution, plan_frame, AttachmentState, Extent, RenderPass, RenderSettings,
    RendererCommand,
};

#[test]
fn bloom_ramp_runs_from_threshold_to_threshold_plus_ramp() {
    assert_eq!(bloom_contribution(800, 800, 200), 0);
    assert_eq!(bloom_contribution(500, 800, 200), 0);
    assert_eq!(bloom_contribution(1000, 800, 200), 1000);
    assert_eq!(bloom_contribution(5000, 800, 200), 1000);
    assert_eq!(bloom_contribution(900, 800, 200), 500);
    assert_eq!(bloom_contribution(850, 800, 200), 250);
    assert_eq!(bloom_contribution(801, 800, 300), 3);
}

#[test]
fn settings_start_at_their_defaults_and_step_within_range() {
    let mut s = RenderSettings::new();
    assert_eq!(s.render_scale_milli, 1000);
    assert_eq!(s.exposure_milli, 500);
    assert_eq!(s.bloom_threshold_milli, 800);
    assert_eq!(s.bloom_ramp_size_milli, 200);
    s.increment_render_scale(true);
    assert_eq!(s.render_scale_milli, 1100);
    for _ in 0..100 {
        s.increment_render_scale(false);
    }
    assert_eq!(s.render_scale_milli, 100);
    s.increment_exposure(false);
    assert_eq!(s.exposure_milli, 450);
    s.increment_bloom_threshold(true);
    assert_eq!(s.bloom_threshold_milli, 850);
    s.set_bloom_ramp_size(0);
    assert_eq!(s.bloom_ramp_size_milli, 10);
    s.set_bloom_ramp_size(1_000_000);
    assert_eq!(s.bloom_ramp_size_milli, 10000);
    s.apply(RendererCommand::ToggleAnimations);
    assert!(!s.animations_enabled);
    for _ in 0..1000 {
        s.apply(RendererCommand::IncreaseRenderScale);
    }
    assert_eq!(s.render_scale_milli, 4000);
}

#[test]
fn attachments_are_recreated_once_per_change() {
    let mut settings = RenderSettings::new();
    let mut attachments = AttachmentState::new();
    let surface = Extent { width: 1920, height: 1080 };
    assert!(attachments.prepare(surface, &settings));
    assert!(!attachments.prepare(surface, &settings));
    assert_eq!(attachments.extent, Some(surface));

    let resized = Extent { width: 800, height: 600 };
    assert!(attachments.prepare(resized, &settings));
    assert!(!attachments.prepare(resized, &settings));

    settings.increment_render_scale(false);
    assert!(attachments.prepare(resized, &settings));
    assert_eq!(attachments.extent, Some(Extent { width: 720, height: 540 }));
    assert!(!attachments.prepare(resized, &settings));

    attachments.invalidate();
    assert_eq!(attachments.extent, None);
    assert!(attachments.prepare(resized, &settings));
    assert!(!attachments.prepare(resized, &settings));
}

#[test]
fn changes_that_keep_the_scaled_size_still_recreate() {
    // At scale 0.1 both surfaces scale to one pixel wide.
    let mut settings = RenderSettings::new();
    for _ in 0..9 {
        settings.increment_render_scale(false);
    }
    let mut attachments = AttachmentState::new();
    assert!(attachments.prepare(Extent { width: 5, height: 5 }, &settings));
    assert!(attachments.prepare(Extent { width: 5, height: 6 }, &settings));
    assert!(!attachments.prepare(Extent { width: 5, height: 6 }, &settings));

    // On a 5x5 surface, scales 1.0 and 1.1 both give 5x5.
    let mut settings = RenderSettings::new();
    let surface = Extent { width: 5, height: 5 };
    assert!(attachments.prepare(surface, &settings));
    settings.increment_render_scale(true);
    assert!(attachments.prepare(surface, &settings));
    assert_eq!(attachments.extent, Some(surface));
    assert!(!attachments.prepare(surface, &settings));
}

#[test]
fn scaled_render_extent_never_drops_below_one_pixel() {
    let mut settings = RenderSettings::new();
    for _ in 0..9 {
        settings.increment_render_scale(false);
    }
    assert_eq!(settings.render_scale_milli, 100);
    let mut attachments = AttachmentState::new();
    assert!(attachments.prepare(Extent { width: 5, height: 25 }, &settings));
    assert_eq!(attachments.extent, Some(Extent { width: 1, height: 2 }));
}

#[test]
fn frame_passes_follow_the_fixed_order() {
    let mut settings = RenderSettings::new();
    let plan = plan_frame(1, 1, 3, &settings);
    let mut expected: Vec<RenderPass> = [
        CubeFace::PositiveX,
        CubeFace::NegativeX,
        CubeFace::PositiveY,
        CubeFace::NegativeY,
        CubeFace::PositiveZ,
        CubeFace::NegativeZ,
    ]
    .iter()
    .map(|&face| RenderPass::ShadowCubeFace { light: 0, face })
    .collect();
    expected.extend([
        RenderPass::ShadowDirectional { light: 0 },
        RenderPass::Opaque,
        RenderPass::BloomExtract,
        RenderPass::BloomDownsample { level: 1 },
        RenderPass::BloomDownsample { level: 2 },
        RenderPass::BloomUpsample { level: 1 },
        RenderPass::BloomUpsample { level: 0 },
        RenderPass::Composite { resample: false },
    ]);
    assert_eq!(plan, expected);

    settings.increment_render_scale(true);
    let plan = plan_frame(2, 0, 0, &settings);
    assert_eq!(plan.len(), 12 + 3);
    assert_eq!(plan[6], RenderPass::ShadowCubeFace { light: 1, face: CubeFace::PositiveX });
    assert_eq!(plan[12], RenderPass::Opaque);
    assert_eq!(plan[14], RenderPass::Composite { resample: true });
}

#[test]
fn surface_errors_choose_the_next_step() {
    assert_eq!(frame_outcome(SurfaceStatus::Presented), FrameOutcome::Continue);
    assert_eq!(frame_outcome(SurfaceStatus::Lost), FrameOutcome::Reconfigure);
    assert_eq!(frame_outcome(SurfaceStatus::OutOfMemory), FrameOutcome::Exit);
    assert_eq!(frame_outcome(SurfaceStatus::Outdated), FrameOutcome::LogAndSkip);
    assert_eq!(frame_outcome(SurfaceStatus::Timeout), FrameOutcome::LogAndSkip);
}

#[test]
fn logs_are_rate_limited() {
    assert!(should_write_logs(None));
    assert!(!should_write_logs(Some(41_000_000)));
    assert!(should_write_logs(Some(41_000_001)));
}

#[test]
fn released_keys_map_to_commands() {
    assert_eq!(command_for_key_release(Key::Z), Some(RendererCommand::DecreaseRenderScale));
    assert_eq!(command_for_key_release(Key::X), Some(RendererCommand::IncreaseRenderScale));
    assert_eq!(command_for_key_release(Key::E), Some(RendererCommand::DecreaseExposure));
    assert_eq!(command_for_key_release(Key::R), Some(RendererCommand::IncreaseExposure));
    assert_eq!(command_for_key_release(Key::T), Some(RendererCommand::DecreaseBloomThreshold));
    assert_eq!(command_for_key_release(Key::Y), Some(RendererCommand::IncreaseBloomThreshold));
    assert_eq!(command_for_key_release(Key::P), Some(RendererCommand::ToggleAnimations));
    assert_eq!(command_for_key_release(Key::Other), None);
    assert!(is_exit_key(Key::Escape));
    assert!(!is_exit_key(Key::Z));
}

#[test]
fn masked_materials_use_alpha_testing() {
    assert!(AlphaMode::Mask.uses_alpha_test());
    assert!(!AlphaMode::Opaque.uses_alpha_test());
}
