use roonscape_renderer::inactivity::{
    InactivityConfiguration, InactivityConfigurationError, InactivitySettings, InactivityTracker,
};
use roonscape_renderer::presentation::{
    Availability, InactivityCondition, LayoutOffset, PresentationBehavior,
};

const SECOND: u128 = 1_000_000_000;

fn configuration(grace_seconds: u128, opacity: f64, cadence_seconds: u128) -> InactivityConfiguration {
    InactivityConfiguration::new(grace_seconds * SECOND, opacity.to_bits(), cadence_seconds * SECOND)
        .expect("the configuration is valid")
}

#[test]
fn the_default_configuration_waits_five_minutes_and_dims_to_a_third() {
    let configuration = InactivityConfiguration::default_configuration();
    assert_eq!(configuration.grace_period_nanos(), 300 * SECOND);
    assert_eq!(f64::from_bits(configuration.dimmed_opacity_bits()), 0.35);
    assert_eq!(configuration.reposition_cadence_nanos(), 60 * SECOND);
    assert_eq!(InactivityConfiguration::from_settings(None), Ok(configuration));
}

#[test]
fn inactivity_settings_are_checked_in_order() {
    assert_eq!(
        InactivityConfiguration::new(0, 2.0_f64.to_bits(), 0),
        Err(InactivityConfigurationError::ZeroGracePeriod)
    );
    for opacity in [0.0, -0.0, 1.0, 1.5, -0.5, f64::NAN, f64::INFINITY] {
        assert_eq!(
            InactivityConfiguration::new(SECOND, opacity.to_bits(), 0),
            Err(InactivityConfigurationError::DimmedOpacityOutOfRange),
            "{opacity}"
        );
    }
    assert_eq!(
        InactivityConfiguration::new(SECOND, 0.5_f64.to_bits(), 0),
        Err(InactivityConfigurationError::ZeroRepositionCadence)
    );
    assert!(InactivityConfiguration::new(SECOND, f64::MIN_POSITIVE.to_bits(), 1).is_ok());
    assert!(InactivityConfiguration::new(SECOND, 0.999_999_f64.to_bits(), 1).is_ok());
}

#[test]
fn settings_in_seconds_become_nanoseconds() {
    let configuration = InactivityConfiguration::from_settings(Some(InactivitySettings {
        grace_period_seconds: 2,
        dimmed_opacity_bits: 0.5_f64.to_bits(),
        reposition_cadence_seconds: 3,
    }))
    .expect("the settings are valid");
    assert_eq!(configuration.grace_period_nanos(), 2 * SECOND);
    assert_eq!(configuration.reposition_cadence_nanos(), 3 * SECOND);
    assert_eq!(
        InactivityConfiguration::from_settings(Some(InactivitySettings {
            grace_period_seconds: 0,
            dimmed_opacity_bits: 0.5_f64.to_bits(),
            reposition_cadence_seconds: 3,
        })),
        Err(InactivityConfigurationError::ZeroGracePeriod)
    );
}

#[test]
fn each_configuration_error_has_its_message() {
    assert_eq!(
        InactivityConfigurationError::ZeroGracePeriod.message(),
        "inactivity grace period must be greater than zero"
    );
    assert_eq!(
        InactivityConfigurationError::DimmedOpacityOutOfRange.message(),
        "dimmed opacity must be greater than zero and less than one"
    );
    assert_eq!(
        InactivityConfigurationError::ZeroRepositionCadence.message(),
        "reposition cadence must be greater than zero"
    );
}

#[test]
fn a_disconnected_display_dims_after_its_grace_period_and_moves_every_cadence() {
    let tracker = InactivityTracker::disconnected(
        10 * SECOND,
        configuration(2, 0.25, 3),
        PresentationBehavior::Dynamic,
    );
    assert_eq!(
        tracker.condition,
        Some(InactivityCondition::Unavailable(Availability::Disconnected))
    );
    let resting = tracker.transform_at(11 * SECOND);
    assert_eq!(f64::from_bits(resting.opacity_bits), 1.0);
    assert_eq!(resting.offset, LayoutOffset { x: 0, y: 0 });
    let dimmed = tracker.transform_at(12 * SECOND);
    assert_eq!(f64::from_bits(dimmed.opacity_bits), 0.25);
    assert_eq!(dimmed.offset, LayoutOffset { x: -18, y: -12 });
    assert_eq!(tracker.transform_at(15 * SECOND).offset, LayoutOffset { x: 12, y: 8 });
    assert_eq!(tracker.transform_at(5 * SECOND).offset, LayoutOffset { x: 0, y: 0 });
}

#[test]
fn an_active_display_stays_at_rest() {
    let mut tracker = InactivityTracker::disconnected(0, configuration(1, 0.5, 1), PresentationBehavior::Dynamic);
    tracker.observe(None, 4 * SECOND, false);
    assert_eq!(tracker.condition, None);
    assert_eq!(tracker.anchored_at_nanos, 4 * SECOND);
    let transform = tracker.transform_at(1_000 * SECOND);
    assert_eq!(f64::from_bits(transform.opacity_bits), 1.0);
    assert_eq!(transform.offset, LayoutOffset { x: 0, y: 0 });
}

#[test]
fn the_timer_restarts_only_when_the_condition_changes_or_a_fixture_is_selected() {
    let mut tracker = InactivityTracker::disconnected(0, configuration(1, 0.5, 1), PresentationBehavior::Dynamic);
    tracker.observe(Some(InactivityCondition::Paused), 5 * SECOND, false);
    assert_eq!(tracker.anchored_at_nanos, 5 * SECOND);
    tracker.observe(Some(InactivityCondition::Paused), 9 * SECOND, false);
    assert_eq!(tracker.anchored_at_nanos, 5 * SECOND);
    tracker.observe(Some(InactivityCondition::Paused), 9 * SECOND, true);
    assert_eq!(tracker.anchored_at_nanos, 9 * SECOND);
    tracker.observe(None, 12 * SECOND, false);
    tracker.observe(None, 20 * SECOND, true);
    assert_eq!(tracker.anchored_at_nanos, 12 * SECOND);
}

#[test]
fn a_still_fixture_is_never_dimmed() {
    let tracker = InactivityTracker::disconnected(0, configuration(1, 0.5, 1), PresentationBehavior::StaticFixture);
    let transform = tracker.transform_at(100 * SECOND);
    assert_eq!(f64::from_bits(transform.opacity_bits), 1.0);
    assert_eq!(transform.offset, LayoutOffset { x: 0, y: 0 });
}
