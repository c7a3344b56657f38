use roonscape_renderer::presentation::lyric_text_within_limit;
use roonscape_renderer::presentation::lyric_presentation_at;
use roonscape_renderer::text::{clock_text, remaining_clock_text};
use roonscape_renderer::keyboard::RendererKey;
use roonscape_renderer::lyric_motion::{
    cues_adjacent, decide_lyric_update, CueMotionKind, LyricChange, LyricMotionCause, LyricUpdate,
};
use roonscape_renderer::presentation::{
    available_full_field, classify_presentation_update, indeterminate_activity,
    is_usable_metadata_line, presentation_status_for_availability, presentation_status_for_playback,
    trackless_full_field, unavailable_presentation, usable_metadata_line, Availability,
    FullFieldPresentation, NowPlayingPresentation, Playback, Presentation, PresentationBehavior,
    PresentationIdentity, PresentationStatusMotion, PresentationStatusSymbol, PresentationUpdate,
    TrackedOutput, TrackedZone,
};
use roonscape_renderer::palette::PresentationPalette;
use roonscape_renderer::presentation::{
    inactivity_transform_at, presentation_from_parts, ArtworkReference, LayoutOffset, NowPlaying,
    PresentationError, SnapshotParts,
};
use roonscape_renderer::resolution::resolve_without_artwork_palette;
use roonscape_renderer::runtime_event::{decode_runtime_event, RuntimeEvent};

fn now_playing(title: &str) -> NowPlayingPresentation {
    NowPlayingPresentation {
        title: Some(title.to_owned()),
        artist: Some("Evelyn Lark".to_owned()),
        album: None,
        tracked_output: "Living Room".to_owned(),
        tracked_zone: "Main".to_owned(),
        status: presentation_status_for_playback(Playback::Playing),
        progress: None,
        activity: None,
        artwork_revision: Some(1),
        artwork_path: Some("artwork/playing.svg".to_owned()),
        lyrics: None,
    }
}

#[test]
fn playback_states_have_their_statuses() {
    let playing = presentation_status_for_playback(Playback::Playing);
    assert_eq!(playing.label, "PLAYING");
    assert_eq!(playing.symbol, PresentationStatusSymbol::Playing);
    let starting = presentation_status_for_playback(Playback::Loading);
    assert_eq!(starting.label, "STARTING");
    assert_eq!(
        starting.motion,
        PresentationStatusMotion::ContinuousRotation { period_nanos: 1_800_000_000 }
    );
    assert_eq!(presentation_status_for_playback(Playback::Stopped).label, "IDLE");
    assert_eq!(presentation_status_for_playback(Playback::Paused).label, "PAUSED");
    assert_eq!(
        presentation_status_for_availability(Availability::OutputUnavailable).label,
        "OUTPUT UNAVAILABLE"
    );
}

#[test]
fn blank_metadata_is_not_usable() {
    assert!(!is_usable_metadata_line(" \t\u{3000}"));
    assert!(is_usable_metadata_line("  x "));
    assert_eq!(usable_metadata_line(Some("   ")), None);
    assert_eq!(usable_metadata_line(Some(" Moon ")).as_deref(), Some(" Moon "));
    assert_eq!(usable_metadata_line(None), None);
    let mut presentation = now_playing(" ");
    presentation.artist = None;
    assert!(!presentation.has_usable_metadata());
    presentation.album = Some("Album".to_owned());
    assert!(presentation.has_usable_metadata());
}

#[test]
fn full_field_messages_name_what_they_can() {
    let output = TrackedOutput { name: "Den".to_owned() };
    let zone = TrackedZone { name: "Den Zone".to_owned() };
    let available = available_full_field(
        presentation_status_for_playback(Playback::Stopped),
        "Nothing playing",
        &output,
        &zone,
    );
    assert_eq!(
        available.identity,
        Some(PresentationIdentity::OutputAndZone {
            tracked_output: "Den".to_owned(),
            tracked_zone: "Den Zone".to_owned(),
        })
    );
    let pairing = unavailable_presentation(Availability::PairingRequired, Some(&output));
    assert_eq!(pairing.heading, "Enable RoonScape");
    assert_eq!(pairing.identity, None);
    let output_missing = unavailable_presentation(Availability::OutputUnavailable, Some(&output));
    assert_eq!(output_missing.heading, "Check the selected output");
    assert_eq!(
        output_missing.identity,
        Some(PresentationIdentity::OutputOnly { tracked_output: "Den".to_owned() })
    );
    let disconnected = unavailable_presentation(Availability::Disconnected, None);
    assert_eq!(disconnected.explanation, Some("Check Roon Server and the network."));
    let mut starting = now_playing("Song");
    starting.status = presentation_status_for_playback(Playback::Loading);
    assert_eq!(trackless_full_field(&starting).heading, "Preparing playback");
    assert_eq!(
        trackless_full_field(&now_playing("Song")).heading,
        "Now Playing details unavailable"
    );
}

#[test]
fn the_indeterminate_activity_eases_seven_bars() {
    let activity = indeterminate_activity();
    assert_eq!(activity.waveform.reference_heights_percent, [30, 70, 100, 48, 100, 70, 30]);
    assert_eq!(activity.waveform.phase_offsets_nanos[6], 540_000_000);
    assert_eq!(activity.heading, "Audio active");
    assert_eq!(activity.detail, "Timing unavailable");
}

#[test]
fn status_and_progress_updates_happen_in_place() {
    let previous = Presentation::NowPlaying(now_playing("Song"));
    let mut paused = now_playing("Song");
    paused.status = presentation_status_for_playback(Playback::Paused);
    assert_eq!(
        classify_presentation_update(&previous, &Presentation::NowPlaying(paused)),
        PresentationUpdate::InPlace
    );
    assert_eq!(
        classify_presentation_update(&previous, &previous.clone()),
        PresentationUpdate::InPlace
    );
    assert_eq!(
        classify_presentation_update(&previous, &Presentation::NowPlaying(now_playing("Other"))),
        PresentationUpdate::TransitionRequired
    );
    let full_field = Presentation::FullField(FullFieldPresentation {
        status: presentation_status_for_availability(Availability::Disconnected),
        heading: "Waiting for Roon",
        explanation: None,
        identity: None,
    });
    assert_eq!(
        classify_presentation_update(&previous, &full_field),
        PresentationUpdate::TransitionRequired
    );
}

#[test]
fn animations_need_a_dynamic_presentation_and_the_system_setting() {
    assert!(PresentationBehavior::Dynamic.animations_enabled(true));
    assert!(!PresentationBehavior::Dynamic.animations_enabled(false));
    assert!(!PresentationBehavior::StaticFixture.animations_enabled(true));
    assert_eq!(PresentationBehavior::default(), PresentationBehavior::Dynamic);
}

fn change() -> LyricChange {
    LyricChange {
        revision_changed: false,
        animations_enabled: true,
        same_lyrics: false,
        timing_discontinuity: false,
        was_present: true,
        is_present: true,
        timelines_differ: false,
        motion_interrupted: false,
        interrupted_blank_entry: false,
        source_blank: false,
        target_blank: false,
        adjacent: true,
    }
}

#[test]
fn adjacent_cues_hand_off_naturally() {
    assert_eq!(
        decide_lyric_update(change()),
        LyricUpdate::Handoff {
            motion: Some(CueMotionKind::Natural),
            cause: LyricMotionCause::NaturalCueHandoff,
            from_interrupted_frame: false,
        }
    );
    assert_eq!(
        decide_lyric_update(LyricChange { adjacent: false, ..change() }),
        LyricUpdate::Handoff {
            motion: None,
            cause: LyricMotionCause::SkippedCueDestination,
            from_interrupted_frame: false,
        }
    );
    assert_eq!(
        decide_lyric_update(LyricChange { revision_changed: true, timelines_differ: true, ..change() }),
        LyricUpdate::Handoff {
            motion: None,
            cause: LyricMotionCause::TimelineRevision,
            from_interrupted_frame: false,
        }
    );
    assert_eq!(
        decide_lyric_update(LyricChange { is_present: false, ..change() }),
        LyricUpdate::Composition { entering: false }
    );
    assert_eq!(
        decide_lyric_update(LyricChange { same_lyrics: true, animations_enabled: false, ..change() }),
        LyricUpdate::Settle
    );
    assert_eq!(
        decide_lyric_update(LyricChange { source_blank: true, target_blank: true, ..change() }),
        LyricUpdate::BlankContinuation { keep_motion: false }
    );
}

#[test]
fn cue_adjacency_follows_the_timeline() {
    assert!(cues_adjacent(3, 4, Some(3), false, false));
    assert!(cues_adjacent(3, 6, Some(3), false, false));
    assert!(!cues_adjacent(3, 6, Some(5), false, false));
    assert!(cues_adjacent(3, 6, Some(2), true, false));
    assert!(cues_adjacent(usize::MAX, usize::MAX, None, false, false));
    assert_eq!(CueMotionKind::BlankEntry.duration_nanos(), 440_000_000);
    assert!(CueMotionKind::Natural.is_active_at(100, 619_999_999 + 100));
    assert!(!CueMotionKind::Natural.is_active_at(100, 620_000_000 + 100));
    assert!(CueMotionKind::Natural.is_active_at(100, 0));
}

#[test]
fn runtime_events_are_decoded_by_number() {
    assert_eq!(decode_runtime_event(1), Some(RuntimeEvent::Wake));
    assert_eq!(decode_runtime_event(4), Some(RuntimeEvent::Tick));
    assert_eq!(decode_runtime_event(100), Some(RuntimeEvent::Pressed(RendererKey::Escape)));
    assert_eq!(decode_runtime_event(202), Some(RuntimeEvent::Released(RendererKey::Right)));
    assert_eq!(decode_runtime_event(5), None);
}

#[test]
fn inactive_displays_dim_and_wander_within_the_envelope() {
    let second: u128 = 1_000_000_000;
    let dimmed = 0.4f64.to_bits();
    let at_rest = inactivity_transform_at(PresentationBehavior::Dynamic, true, 4 * second, 5 * second, 60 * second, dimmed);
    assert_eq!(at_rest.offset, LayoutOffset { x: 0, y: 0 });
    assert_eq!(at_rest.opacity_bits, 1.0f64.to_bits());
    let first = inactivity_transform_at(PresentationBehavior::Dynamic, true, 5 * second, 5 * second, 60 * second, dimmed);
    assert_eq!(first.offset, LayoutOffset { x: -18, y: -12 });
    assert_eq!(first.opacity_bits, dimmed);
    let ninth = inactivity_transform_at(PresentationBehavior::Dynamic, true, 5 * second + 8 * 60 * second, 5 * second, 60 * second, dimmed);
    assert_eq!(ninth.offset, LayoutOffset { x: -18, y: -12 });
    let second_position = inactivity_transform_at(PresentationBehavior::Dynamic, true, 65 * second, 5 * second, 60 * second, dimmed);
    assert_eq!(second_position.offset, LayoutOffset { x: 12, y: 8 });
    let fixture = inactivity_transform_at(PresentationBehavior::StaticFixture, true, 65 * second, 5 * second, 60 * second, dimmed);
    assert_eq!(fixture.offset, LayoutOffset { x: 0, y: 0 });
}

#[test]
fn snapshots_present_by_availability_and_playback() {
    let output = TrackedOutput { name: "Den".to_owned() };
    let zone = TrackedZone { name: "Main".to_owned() };
    let fields = NowPlaying { title: Some("Song".to_owned()), artist: Some("  ".to_owned()), album: None };
    let artwork = ArtworkReference { revision: 3, path: "artwork/a.jpg".to_owned() };
    let parts = |availability, playback, now_playing, artwork, timing_complete| SnapshotParts {
        availability,
        playback,
        tracked_output: Some(&output),
        tracked_zone: Some(&zone),
        now_playing,
        artwork,
        progress: None,
        timing_complete,
        lyrics: None,
    };
    let Ok(Presentation::NowPlaying(shown)) =
        presentation_from_parts(parts(Availability::Available, Some(Playback::Playing), Some(&fields), Some(&artwork), false))
    else {
        panic!("a playing snapshot should present Now Playing");
    };
    assert_eq!(shown.title.as_deref(), Some("Song"));
    assert_eq!(shown.artist, None);
    assert_eq!(shown.artwork_revision, Some(3));
    assert!(shown.activity.is_some());
    let Ok(Presentation::NowPlaying(paused)) =
        presentation_from_parts(parts(Availability::Available, Some(Playback::Paused), Some(&fields), None, false))
    else {
        panic!("a paused snapshot should present Now Playing");
    };
    assert!(paused.activity.is_none());
    let Ok(Presentation::FullField(stopped)) =
        presentation_from_parts(parts(Availability::Available, Some(Playback::Stopped), Some(&fields), None, true))
    else {
        panic!("a stopped snapshot should present a full-field message");
    };
    assert_eq!(stopped.heading, "Nothing is playing");
    let Ok(Presentation::FullField(trackless)) =
        presentation_from_parts(parts(Availability::Available, Some(Playback::Loading), None, None, true))
    else {
        panic!("a snapshot without metadata or artwork should present a full-field message");
    };
    assert_eq!(trackless.heading, "Preparing playback");
    assert_eq!(
        presentation_from_parts(parts(Availability::Available, None, None, None, true)).err(),
        Some(PresentationError("an available snapshot requires playback state"))
    );
    let Ok(Presentation::FullField(waiting)) =
        presentation_from_parts(parts(Availability::Disconnected, None, None, None, true))
    else {
        panic!("a disconnected snapshot should present a full-field message");
    };
    assert_eq!(waiting.heading, "Waiting for Roon");
}

#[test]
fn resolving_without_artwork_drops_the_artwork_or_falls_back_to_a_message() {
    let resolved = resolve_without_artwork_palette(&Presentation::NowPlaying(now_playing("Song")));
    assert_eq!(resolved.palette, PresentationPalette::fallback());
    let Presentation::NowPlaying(shown) = &resolved.presentation else {
        panic!("usable metadata keeps Now Playing");
    };
    assert_eq!(shown.artwork_path, None);
    assert_eq!(shown.title.as_deref(), Some("Song"));
    assert_eq!(resolved.status().label, "PLAYING");
    let mut blank = now_playing(" ");
    blank.artist = None;
    let resolved = resolve_without_artwork_palette(&Presentation::NowPlaying(blank));
    let Presentation::FullField(message) = &resolved.presentation else {
        panic!("no usable metadata shows a message");
    };
    assert_eq!(message.heading, "Now Playing details unavailable");
}

fn cue_texts(texts: &[&str]) -> Vec<String> {
    texts.iter().map(|text| (*text).to_owned()).collect()
}

#[test]
fn a_lyric_shows_its_usable_neighbours() {
    let cues = cue_texts(&["one", " ", "two", "three", "", "four"]);
    let near = vec![false; 6];
    let lyrics = lyric_presentation_at(&cues, 2, &near);
    assert_eq!(lyrics.current_index, 2);
    assert_eq!(lyrics.current, "two");
    assert_eq!(lyrics.previous.as_deref(), Some("one"));
    assert_eq!(lyrics.next.as_deref(), Some("three"));
    let last = lyric_presentation_at(&cues, 5, &near);
    assert_eq!(last.previous.as_deref(), Some("three"));
    assert_eq!(last.next, None);
}

#[test]
fn a_blank_cue_shows_the_next_lyric_only_within_the_preparation_window() {
    let cues = cue_texts(&["one", "\u{3000}", "", "two"]);
    let far = vec![false; 4];
    let blank = lyric_presentation_at(&cues, 1, &far);
    assert_eq!(blank.current, "\u{3000}");
    assert_eq!(blank.previous.as_deref(), Some("one"));
    assert_eq!(blank.next, None);
    let mut near = far.clone();
    near[3] = true;
    assert_eq!(lyric_presentation_at(&cues, 1, &near).next.as_deref(), Some("two"));
    let first = lyric_presentation_at(&cues, 0, &far);
    assert_eq!(first.previous, None);
    assert_eq!(first.next.as_deref(), Some("two"));
}

#[test]
fn times_are_written_as_minutes_and_two_digit_seconds() {
    assert_eq!(clock_text(0), "0:00");
    assert_eq!(clock_text(59), "0:59");
    assert_eq!(clock_text(61), "1:01");
    assert_eq!(clock_text(3_725), "62:05");
    assert_eq!(remaining_clock_text(125), "\u{2212}2:05");
}

#[test]
fn lyric_texts_hold_at_most_sixteen_thousand_code_points_together() {
    let exact = vec!["é".repeat(16_000), "ab".repeat(192)];
    assert!(lyric_text_within_limit(&exact));
    let over = vec!["é".repeat(16_000), "ab".repeat(192), "x".to_owned()];
    assert!(!lyric_text_within_limit(&over));
    assert!(lyric_text_within_limit(&Vec::new()));
}
