use scene_render::animation::{
    find_keyframe_span, playback_time, sample_channel, AnimatedProperty, Animation, Channel,
    Interpolation, KeyframeSpan, PlaybackMode, ValuePart,
};

fn channel(interpolation: Interpolation, times: Vec<u64>, value_bytes: usize) -> Channel {
    Channel {
        node_index: 2,
        property: AnimatedProperty::Rotation,
        interpolation_type: interpolation,
        keyframe_timings: times,
        keyframe_values_u8: vec![0; value_bytes],
    }
}

#[test]
fn loop_wraps_and_clamp_holds_the_end() {
    assert_eq!(playback_time(2_500_000, 1_000_000, PlaybackMode::Loop), 500_000);
    assert_eq!(playback_time(1_000_000, 1_000_000, PlaybackMode::Loop), 0);
    assert_eq!(playback_time(2_500_000, 1_000_000, PlaybackMode::Clamp), 1_000_000);
    assert_eq!(playback_time(250_000, 1_000_000, PlaybackMode::Clamp), 250_000);
    assert_eq!(playback_time(7, 0, PlaybackMode::Loop), 0);
}

#[test]
fn keyframe_search_brackets_the_time() {
    let times = vec![0, 100, 250, 400, 1000];
    assert_eq!(
        find_keyframe_span(&times, 300),
        KeyframeSpan { prev: 2, next: 3, elapsed: 50, duration: 150 }
    );
    assert_eq!(
        find_keyframe_span(&times, 100),
        KeyframeSpan { prev: 1, next: 2, elapsed: 0, duration: 150 }
    );
    assert_eq!(
        find_keyframe_span(&times, 999),
        KeyframeSpan { prev: 3, next: 4, elapsed: 599, duration: 600 }
    );
}

#[test]
fn times_outside_the_keyframes_hold_the_nearest() {
    let times = vec![10, 20];
    assert_eq!(find_keyframe_span(&times, 5), KeyframeSpan { prev: 0, next: 0, elapsed: 0, duration: 0 });
    assert_eq!(find_keyframe_span(&times, 20), KeyframeSpan { prev: 1, next: 1, elapsed: 0, duration: 0 });
    assert_eq!(find_keyframe_span(&vec![3], 9), KeyframeSpan { prev: 0, next: 0, elapsed: 0, duration: 0 });
}

#[test]
fn rotation_channel_halfway_between_two_keyframes() {
    // Keyframes at 0 s and 1 s, sampled at 0.5 s: halfway through the span.
    let c = channel(Interpolation::Linear, vec![0, 1_000_000], 2 * 16);
    assert!(c.is_valid());
    let s = sample_channel(&c, 500_000);
    assert_eq!(s.node_index, 2);
    assert_eq!(s.property, AnimatedProperty::Rotation);
    assert_eq!(s.span, KeyframeSpan { prev: 0, next: 1, elapsed: 500_000, duration: 1_000_000 });
    assert_eq!(c.value_byte_range(0, ValuePart::Value), Some((0, 16)));
    assert_eq!(c.value_byte_range(1, ValuePart::Value), Some((16, 32)));
    assert_eq!(c.value_byte_range(1, ValuePart::InTangent), None);
}

#[test]
fn cubic_spline_values_are_stored_as_triplets() {
    // Two keyframes of translations (12 bytes): in-tangent, value, out-tangent each.
    let mut c = channel(Interpolation::CubicSpline, vec![0, 100], 2 * 3 * 12);
    c.property = AnimatedProperty::Translation;
    assert!(c.is_valid());
    assert_eq!(c.value_byte_range(0, ValuePart::InTangent), Some((0, 12)));
    assert_eq!(c.value_byte_range(0, ValuePart::Value), Some((12, 24)));
    assert_eq!(c.value_byte_range(0, ValuePart::OutTangent), Some((24, 36)));
    assert_eq!(c.value_byte_range(1, ValuePart::Value), Some((48, 60)));
}

#[test]
fn malformed_channels_are_refused() {
    assert!(!channel(Interpolation::Linear, vec![], 0).is_valid());
    assert!(!channel(Interpolation::Linear, vec![0, 0], 8).is_valid());
    assert!(!channel(Interpolation::Linear, vec![5, 1], 8).is_valid());
    assert!(!channel(Interpolation::CubicSpline, vec![0, 1], 8).is_valid());
    assert!(channel(Interpolation::Step, vec![0, 1], 32).is_valid());
    // Rotations are four floats, not two.
    assert!(!channel(Interpolation::Step, vec![0, 1], 16).is_valid());
    // Two translations of 12 bytes each, not two records of 24.
    let mut translation = channel(Interpolation::Linear, vec![0, 1], 48);
    translation.property = AnimatedProperty::Translation;
    assert!(!translation.is_valid());
    translation.keyframe_values_u8.truncate(24);
    assert!(translation.is_valid());
    // Morph weights: a whole number of floats per keyframe.
    let mut weights = channel(Interpolation::Linear, vec![0, 1], 24);
    weights.property = AnimatedProperty::MorphWeights;
    assert!(weights.is_valid());
    weights.keyframe_values_u8.truncate(22);
    assert!(!weights.is_valid());
}

#[test]
fn a_clip_samples_every_channel_in_order() {
    let first = channel(Interpolation::Step, vec![0, 400], 32);
    let mut second = channel(Interpolation::Linear, vec![0, 200, 600], 36);
    second.node_index = 5;
    second.property = AnimatedProperty::Scale;
    let clip = Animation { length_micros: 600, channels: vec![first, second] };
    assert!(clip.is_valid(6));
    // The second channel drives node 5, which a scene of 5 nodes lacks.
    assert!(!clip.is_valid(5));
    let samples = clip.sample(900, PlaybackMode::Loop);
    assert_eq!(samples.len(), 2);
    assert_eq!(samples[0].node_index, 2);
    assert_eq!(samples[0].span, KeyframeSpan { prev: 0, next: 1, elapsed: 300, duration: 400 });
    assert_eq!(samples[1].node_index, 5);
    assert_eq!(samples[1].property, AnimatedProperty::Scale);
    assert_eq!(samples[1].span, KeyframeSpan { prev: 1, next: 2, elapsed: 100, duration: 400 });
    let clamped = clip.sample(900, PlaybackMode::Clamp);
    assert_eq!(clamped[1].span, KeyframeSpan { prev: 2, next: 2, elapsed: 0, duration: 0 });
}
