use roonscape_renderer::inactivity::InactivityConfiguration;
use roonscape_renderer::presentation::{
    presentation_status_for_playback, unavailable_presentation, Availability,
    NowPlayingPresentation, Playback, Presentation, PresentationBehavior, PresentationUpdate,
};
use roonscape_renderer::presentation_state::{PresentationState, SnapshotArrival};

const SECOND: u128 = 1_000_000_000;

fn playing(title: &str, playback: Playback) -> Presentation {
    Presentation::NowPlaying(NowPlayingPresentation {
        title: Some(title.to_owned()),
        artist: Some("Evelyn Lark".to_owned()),
        album: None,
        tracked_output: "Living Room".to_owned(),
        tracked_zone: "Main".to_owned(),
        status: presentation_status_for_playback(playback),
        progress: None,
        activity: None,
        artwork_revision: Some(1),
        artwork_path: None,
        lyrics: None,
    })
}

fn arrival(
    revision: u64,
    playback: Playback,
    previous: Presentation,
    next: Presentation,
    reconciles_provisional_timing: bool,
    at_nanos: u128,
) -> SnapshotArrival {
    SnapshotArrival {
        revision,
        availability: Availability::Available,
        playback: Some(playback),
        presentation: next.clone(),
        previous_at_arrival: previous,
        next_at_arrival: next,
        reconciles_provisional_timing,
        at_nanos,
    }
}

fn state() -> PresentationState {
    PresentationState::disconnected(
        0,
        InactivityConfiguration::default_configuration(),
        PresentationBehavior::Dynamic,
    )
}

#[test]
fn a_new_display_is_disconnected_at_revision_zero() {
    let state = state();
    assert_eq!(state.revision(), 0);
    assert_eq!(state.inactivity_transform_at(SECOND).offset.x, 0);
}

#[test]
fn a_snapshot_transitions_from_the_disconnected_message_and_records_its_revision() {
    let mut state = state();
    let disconnected = Presentation::FullField(unavailable_presentation(Availability::Disconnected, None));
    let update = state.update(
        arrival(4, Playback::Playing, disconnected, playing("Northern Lights", Playback::Playing), false, SECOND),
        false,
    );
    assert_eq!(update, PresentationUpdate::TransitionRequired);
    assert_eq!(state.revision(), 4);
}

#[test]
fn settling_provisional_timing_updates_in_place() {
    let mut state = state();
    let update = state.update(
        arrival(
            5,
            Playback::Playing,
            playing("Northern Lights", Playback::Playing),
            playing("Southern Lights", Playback::Playing),
            true,
            SECOND,
        ),
        false,
    );
    assert_eq!(update, PresentationUpdate::InPlace);
    let update = state.update(
        arrival(
            6,
            Playback::Paused,
            playing("Southern Lights", Playback::Playing),
            playing("Southern Lights", Playback::Paused),
            false,
            2 * SECOND,
        ),
        false,
    );
    assert_eq!(update, PresentationUpdate::InPlace);
}

#[test]
fn disconnecting_keeps_the_revision_and_a_second_disconnect_changes_nothing() {
    let mut state = state();
    state.update(
        arrival(
            9,
            Playback::Playing,
            playing("Northern Lights", Playback::Playing),
            playing("Northern Lights", Playback::Playing),
            false,
            SECOND,
        ),
        false,
    );
    assert_eq!(state.disconnect(10 * SECOND), PresentationUpdate::TransitionRequired);
    assert_eq!(state.revision(), 9);
    assert_eq!(state.disconnect(20 * SECOND), PresentationUpdate::InPlace);
    let grace = InactivityConfiguration::default_configuration().grace_period_nanos();
    assert_eq!(f64::from_bits(state.inactivity_transform_at(10 * SECOND + grace - 1).opacity_bits), 1.0);
    assert!(f64::from_bits(state.inactivity_transform_at(10 * SECOND + grace).opacity_bits) < 1.0);
}

#[test]
fn the_inactivity_timer_restarts_when_the_condition_changes_or_a_fixture_is_selected() {
    let mut state = state();
    let grace = InactivityConfiguration::default_configuration().grace_period_nanos();
    let paused = || playing("Northern Lights", Playback::Paused);
    state.update(arrival(1, Playback::Paused, paused(), paused(), false, 100 * SECOND), false);
    assert_eq!(f64::from_bits(state.inactivity_transform_at(100 * SECOND + grace - 1).opacity_bits), 1.0);
    state.update(arrival(2, Playback::Paused, paused(), paused(), false, 200 * SECOND), false);
    assert!(f64::from_bits(state.inactivity_transform_at(100 * SECOND + grace).opacity_bits) < 1.0);
    state.update(arrival(3, Playback::Paused, paused(), paused(), false, 300 * SECOND), true);
    assert_eq!(f64::from_bits(state.inactivity_transform_at(300 * SECOND + grace - 1).opacity_bits), 1.0);
}
