use logic_nih_plug::gui::layout::animation_frame_rate::{AnimationFrameRate, Duration};

#[test]
fn default_fps_is_60() {
    let afr = AnimationFrameRate::default();
    assert_eq!(afr.fps(), 60);
    assert!(afr.is_enabled());
}

#[test]
fn first_frame_always_allowed() {
    let mut afr = AnimationFrameRate::new(60);
    assert!(afr.should_frame(0));
}

#[test]
fn frames_within_interval_are_throttled() {
    let mut afr = AnimationFrameRate::new(60);
    assert!(afr.should_frame(0));
    // 1 ms later — not enough for 60 fps (need ~16.67 ms)
    assert!(!afr.should_frame(1_000_000));
    assert!(!afr.should_frame(5_000_000));
    assert!(!afr.should_frame(10_000_000));
}

#[test]
fn frames_after_interval_are_allowed() {
    let mut afr = AnimationFrameRate::new(60);
    assert!(afr.should_frame(0));
    // 16.7 ms later — should be enough for 60 fps
    assert!(afr.should_frame(16_700_000));
}

#[test]
fn exact_interval_boundary() {
    let mut afr = AnimationFrameRate::new(60);
    assert!(afr.should_frame(0));
    // Exactly 16.666... ms = 16_666_666 ns (for 60 fps)
    assert!(afr.should_frame(16_666_667));
}

#[test]
fn just_below_interval() {
    let mut afr = AnimationFrameRate::new(60);
    assert!(afr.should_frame(0));
    // 16.66 ms — just below 16.667 ms
    assert!(!afr.should_frame(16_660_000));
}

#[test]
fn disabled_never_frames() {
    let mut afr = AnimationFrameRate::new(60);
    afr.set_enabled(false);
    assert!(!afr.should_frame(0));
    assert!(!afr.should_frame(100_000_000));
}

#[test]
fn reenable_after_disable() {
    let mut afr = AnimationFrameRate::new(60);
    afr.set_enabled(false);
    assert!(!afr.should_frame(0));
    afr.set_enabled(true);
    // First frame after re-enable should succeed (reset logic)
    // But last_frame_time is still None from never having recorded one
    assert!(afr.should_frame(0));
}

#[test]
fn custom_fps() {
    let mut afr = AnimationFrameRate::new(30);
    assert_eq!(afr.fps(), 30);
    assert!(afr.should_frame(0));
    // 33.33 ms for 30 fps
    assert!(!afr.should_frame(16_000_000));
    assert!(afr.should_frame(33_400_000));
}

#[test]
fn set_fps_updates_interval() {
    let mut afr = AnimationFrameRate::new(60);
    assert!(afr.should_frame(0));
    afr.set_fps(30);
    assert_eq!(afr.fps(), 30);
    // With new 30fps, 16ms is not enough
    assert!(!afr.should_frame(16_000_000));
}

#[test]
fn fps_zero_clamps_to_one() {
    let afr = AnimationFrameRate::new(0);
    assert_eq!(afr.fps(), 1);
}

#[test]
fn reset_allows_immediate_frame() {
    let mut afr = AnimationFrameRate::new(60);
    assert!(afr.should_frame(0));
    assert!(!afr.should_frame(1_000_000));
    afr.reset();
    assert!(afr.should_frame(1_000_000));
}

#[test]
fn time_until_next_frame_initial() {
    let afr = AnimationFrameRate::new(60);
    assert_eq!(afr.time_until_next_frame(0), 0);
}

#[test]
fn time_until_next_frame_after_frame() {
    let mut afr = AnimationFrameRate::new(60);
    afr.should_frame(0);
    // 5 ms after first frame, ~11.67 ms remaining
    let remaining = afr.time_until_next_frame(5_000_000);
    // Interval is 16_666_667 ns, elapsed is 5_000_000, remaining ~11_666_667
    assert!(remaining > 11_000_000);
    assert!(remaining <= 12_000_000);
}

#[test]
fn time_until_next_frame_ready() {
    let mut afr = AnimationFrameRate::new(60);
    afr.should_frame(0);
    assert_eq!(afr.time_until_next_frame(20_000_000), 0);
}

#[test]
fn duration_until_next_frame() {
    let mut afr = AnimationFrameRate::new(60);
    afr.should_frame_duration(Duration::zero());
    let remaining = afr.duration_until_next_frame(Duration::from_millis(5));
    assert!(remaining > Duration::from_millis(11));
    assert!(remaining <= Duration::from_millis(12));
}

#[test]
fn with_interval_constructor() {
    let mut afr = AnimationFrameRate::with_interval(Duration::from_millis(33));
    // Interval is 33ms, so 20ms should not pass
    assert!(afr.should_frame_duration(Duration::zero()));
    assert!(!afr.should_frame_duration(Duration::from_millis(20)));
    assert!(afr.should_frame_duration(Duration::from_millis(34)));
}

#[test]
fn consecutive_frames_track_time() {
    let mut afr = AnimationFrameRate::new(60);
    assert!(afr.should_frame(0));
    assert!(afr.should_frame(17_000_000)); // 17ms — OK
    assert!(!afr.should_frame(20_000_000)); // only 3ms after last — not OK
    assert!(afr.should_frame(37_000_000)); // 17ms after last — OK
}

#[test]
fn time_until_next_frame_exact() {
    let mut afr = AnimationFrameRate::new(60);
    assert_eq!(afr.min_interval().as_nanos(), 16_666_666);
    afr.should_frame(0);
    assert_eq!(afr.time_until_next_frame(5_000_000), 11_666_666);
    // A clock that went back counts as no time elapsed.
    afr.should_frame(16_666_666);
    assert_eq!(afr.time_until_next_frame(1), 16_666_666);
}

#[test]
fn with_zero_interval_targets_sixty() {
    let afr = AnimationFrameRate::with_interval(Duration::zero());
    assert_eq!(afr.fps(), 60);
    let afr = AnimationFrameRate::with_interval(Duration::from_millis(33));
    assert_eq!(afr.fps(), 30);
}
