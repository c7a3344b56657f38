use roonscape_renderer::FramePacing;

#[test]
fn selects_even_refreshes_under_the_ceiling() {
    for (rate, stride) in [
        (24_000, 1),
        (30_000, 1),
        (50_000, 1),
        (59_940, 1),
        (60_000, 1),
        (60_001, 2),
        (75_000, 2),
        (119_880, 2),
        (120_000, 2),
        (120_001, 3),
        (144_000, 3),
        (165_000, 3),
        (240_000, 4),
    ] {
        let mut pacing = FramePacing::default();
        let delivered: Vec<_> = (0..240)
            .filter(|frame| {
                let micros = (f64::from(*frame) * 1_000_000_000.0 / f64::from(rate)).round() as i64;
                pacing.update_due(micros, rate)
            })
            .collect();
        assert_eq!(
            delivered,
            (0..240).step_by(stride).collect::<Vec<_>>(),
            "{rate} mHz"
        );
    }
}

#[test]
fn follows_every_delivered_frame_at_or_below_the_ceiling() {
    for rate in [24_000, 30_000, 50_000, 59_940, 60_000] {
        let mut pacing = FramePacing::default();
        for time in [0, 30_143, 37_842, 50_000] {
            assert!(pacing.update_due(time, rate), "{rate} mHz at {time}");
        }
        assert!(!pacing.update_due(50_000, rate));
    }
}

#[test]
fn timestamp_jitter_does_not_change_the_refresh_stride() {
    let mut pacing = FramePacing::default();
    let delivered: Vec<_> = (0..120)
        .filter(|frame| {
            let jitter = if frame % 2 == 0 { 90 } else { -90 };
            pacing.update_due(frame * 1_000_000 / 120 + jitter, 120_000)
        })
        .collect();
    assert_eq!(delivered, (0..120).step_by(2).collect::<Vec<_>>());
}

#[test]
fn missed_updates_do_not_queue_old_frames_or_replay_the_same_time() {
    let mut pacing = FramePacing::default();
    assert!(pacing.update_due(0, 60_000));
    assert!(pacing.update_due(100_000, 60_000));
    assert!(!pacing.update_due(100_000, 60_000));
    assert!(!pacing.update_due(90_000, 60_000));
    assert!(pacing.update_due(116_667, 60_000));
}

#[test]
fn refresh_changes_adopt_the_new_cadence() {
    let mut pacing = FramePacing::default();
    assert!(pacing.update_due(0, 60_000));
    assert!(pacing.update_due(16_667, 120_000));
    assert!(!pacing.update_due(25_000, 120_000));
    assert!(pacing.update_due(33_333, 120_000));
    assert!(pacing.update_due(50_000, 50_000));
    assert!(pacing.update_due(70_000, 50_000));
}

#[test]
fn a_new_pacing_accepts_any_first_frame() {
    let mut pacing = FramePacing::new();
    assert!(pacing.update_due(-5, 240_000));
    assert!(!pacing.update_due(-5, 240_000));
}

#[test]
fn a_zero_refresh_rate_behaves_as_the_slowest_rate() {
    let mut pacing = FramePacing::new();
    assert!(pacing.update_due(0, 0));
    assert!(pacing.update_due(1, 0));
}
