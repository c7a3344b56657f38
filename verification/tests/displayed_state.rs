use roonscape_renderer::displayed_state::{
    display_decision, DisplayedRevisions, IncomingDisplay, TimelineSource,
};

const PLAYING_REVISION: u64 = 7;

fn initial() -> DisplayedRevisions {
    DisplayedRevisions {
        state_revision: PLAYING_REVISION,
        state_generation: 1,
        timing_revision: PLAYING_REVISION,
    }
}

fn now_playing(revision: u64, generation: u64, assets_ready: bool, timing_ready: bool) -> IncomingDisplay {
    IncomingDisplay {
        revision,
        generation,
        assets_ready,
        timing_ready,
        incoming_is_now_playing: true,
        displayed_is_now_playing: true,
        retained_timing_is_now_playing: true,
    }
}

#[test]
fn waiting_for_another_song_preserves_live_updates_already_displayed() {
    let (state, paused) = display_decision(initial(), now_playing(8, 1, false, true));
    assert!(paused.display_incoming);
    assert!(paused.adopt_state);
    assert_eq!(paused.timeline, TimelineSource::Incoming);
    assert!(paused.show_retained_artwork);
    assert!(!paused.adopt_artwork);
    assert_eq!(paused.revision, 8);

    let (state, waiting) = display_decision(state, now_playing(9, 2, false, true));
    assert!(!waiting.display_incoming);
    assert_eq!(waiting.timeline, TimelineSource::Retained);
    assert!(waiting.show_retained_artwork);
    assert!(!waiting.show_retained_timeline);
    assert_eq!((waiting.revision, waiting.generation), (8, 1));

    let (_, ready) = display_decision(state, now_playing(9, 2, true, true));
    assert!(ready.display_incoming);
    assert!(ready.adopt_artwork);
    assert_eq!((ready.revision, ready.generation), (9, 2));
}

#[test]
fn reconnect_waits_on_the_displayed_disconnected_state() {
    let disconnected = IncomingDisplay {
        incoming_is_now_playing: false,
        ..now_playing(PLAYING_REVISION, 2, true, true)
    };
    let (state, shown) = display_decision(initial(), disconnected);
    assert!(shown.display_incoming);
    assert_eq!(shown.revision, PLAYING_REVISION);

    let reconnected = IncomingDisplay {
        displayed_is_now_playing: false,
        retained_timing_is_now_playing: false,
        ..now_playing(PLAYING_REVISION + 1, 2, false, true)
    };
    let (after, waiting) = display_decision(state, reconnected);
    assert!(!waiting.display_incoming);
    assert_eq!(after, state);
    assert!(!waiting.show_retained_artwork);
    assert_eq!(waiting.revision, PLAYING_REVISION);
}

#[test]
fn unprepared_seek_retains_an_advancing_timeline_until_ready() {
    let (state, before) = display_decision(initial(), now_playing(8, 1, false, false));
    assert!(before.display_incoming);
    assert_eq!(before.timeline, TimelineSource::Synchronized);
    assert!(before.show_retained_timeline);
    assert_eq!(before.revision, PLAYING_REVISION);
    let (state, after) = display_decision(state, now_playing(8, 1, false, false));
    assert!(!after.adopt_state);
    assert!(after.show_retained_timeline);
    assert_eq!(after.revision, PLAYING_REVISION);
    let (_, ready) = display_decision(state, now_playing(8, 1, true, true));
    assert_eq!(ready.timeline, TimelineSource::Incoming);
    assert!(!ready.show_retained_timeline);
    assert_eq!(ready.revision, 8);
}

#[test]
fn unprepared_seek_keeps_its_revision_and_playback_when_another_song_arrives() {
    let (state, waiting) = display_decision(initial(), now_playing(8, 1, false, false));
    assert_eq!(waiting.revision, PLAYING_REVISION);
    assert!(waiting.show_retained_timeline);
    let (state, paused) = display_decision(state, now_playing(8, 1, false, false));
    assert_eq!(paused.revision, PLAYING_REVISION);
    let (_, outgoing) = display_decision(state, now_playing(9, 2, false, true));
    assert!(!outgoing.display_incoming);
    assert_eq!(outgoing.revision, PLAYING_REVISION);
    assert!(outgoing.show_retained_timeline);
}

#[test]
fn outgoing_playback_advances_without_replaying_a_pending_destination() {
    let (state, waiting) = display_decision(initial(), now_playing(8, 2, false, true));
    assert!(!waiting.display_incoming);
    assert_eq!(state, initial());
    assert_eq!(waiting.timeline, TimelineSource::Retained);
    assert_eq!((waiting.revision, waiting.generation), (PLAYING_REVISION, 1));
}
