use roonscape_renderer::presentation::{
    presentation_status_for_availability, presentation_status_for_playback, Availability,
    FullFieldPresentation, NowPlayingPresentation, Playback, Presentation, PresentationProgress,
};
use roonscape_renderer::render_decision::{
    continuous_motion, hold_unrevealed_metadata, motion_after_paint, render_decision, PaletteSource,
    RenderEvent, RenderState, ViewChange,
};

fn quiet() -> RenderEvent {
    RenderEvent {
        prepared_ready: false,
        prepared_has_artwork: false,
        installed_key_current: true,
        artwork_path_pending: false,
        generation_changed: false,
        update_requires_transition: false,
        departure_complete: false,
        view_exists: true,
        selected_generation_current: true,
        animated: true,
        static_fixture: false,
    }
}

fn start() -> RenderState {
    RenderState { animating: false, motion: false, paint_records: 0 }
}

fn song(title: &str, output: &str) -> NowPlayingPresentation {
    NowPlayingPresentation {
        title: Some(title.to_owned()),
        artist: Some("Evelyn Lark".to_owned()),
        album: Some("Night Roads".to_owned()),
        tracked_output: output.to_owned(),
        tracked_zone: "Main".to_owned(),
        status: presentation_status_for_playback(Playback::Playing),
        progress: None,
        activity: None,
        artwork_revision: Some(1),
        artwork_path: None,
        lyrics: None,
    }
}

#[test]
fn the_first_prepared_content_creates_the_view() {
    let event = RenderEvent {
        prepared_ready: true,
        prepared_has_artwork: true,
        installed_key_current: false,
        view_exists: false,
        static_fixture: true,
        ..quiet()
    };
    let (state, action) = render_decision(start(), event);
    assert_eq!(action.incoming_palette, PaletteSource::Prepared);
    assert!(action.reveal_ready);
    assert_eq!(action.view_change, ViewChange::Create);
    assert!(action.paint);
    assert!(action.capture_ready);
    assert_eq!(state.paint_records, 1);
}

#[test]
fn a_new_song_departs_before_it_is_revealed() {
    let pending = RenderEvent {
        prepared_ready: true,
        prepared_has_artwork: true,
        installed_key_current: false,
        generation_changed: true,
        ..quiet()
    };
    let (_, departing) = render_decision(start(), pending);
    assert!(departing.replacement);
    assert!(departing.begin_departure);
    assert!(!departing.reveal_ready);
    assert!(departing.hold_previous_metadata);
    assert_eq!(departing.shown_palette, PaletteSource::Installed);
    assert_eq!(departing.view_change, ViewChange::Keep);
    let (_, revealed) = render_decision(start(), RenderEvent { departure_complete: true, ..pending });
    assert!(revealed.reveal_ready);
    assert_eq!(revealed.view_change, ViewChange::Replace);
    assert_eq!(revealed.shown_palette, PaletteSource::Prepared);
}

#[test]
fn palettes_come_from_the_preparation_the_installed_view_or_the_fallback() {
    let (_, action) = render_decision(start(), RenderEvent { prepared_ready: true, ..quiet() });
    assert_eq!(action.incoming_palette, PaletteSource::Absent);
    assert_eq!(action.view_change, ViewChange::Install);
    let (_, action) = render_decision(start(), quiet());
    assert_eq!(action.incoming_palette, PaletteSource::Installed);
    let waiting = RenderEvent { installed_key_current: false, artwork_path_pending: true, ..quiet() };
    let (_, action) = render_decision(start(), waiting);
    assert_eq!(action.incoming_palette, PaletteSource::Fallback);
    assert!(!action.reveal_ready);
    let (_, action) = render_decision(start(), RenderEvent { artwork_path_pending: false, ..waiting });
    assert_eq!(action.incoming_palette, PaletteSource::Absent);
}

#[test]
fn paint_records_are_kept_to_sixteen_and_nothing_is_painted_without_a_view() {
    let mut state = start();
    for _ in 0..20 {
        state = render_decision(state, quiet()).0;
    }
    assert_eq!(state.paint_records, 16);
    let (after, action) = render_decision(start(), RenderEvent { view_exists: false, ..quiet() });
    assert!(!action.paint);
    assert!(!action.capture_ready);
    assert_eq!(after.paint_records, 0);
}

#[test]
fn a_still_fixture_is_captured_only_once_its_current_generation_is_installed() {
    let fixture = RenderEvent { static_fixture: true, ..quiet() };
    assert!(render_decision(start(), fixture).1.capture_ready);
    assert!(!render_decision(start(), RenderEvent { generation_changed: true, ..fixture }).1.capture_ready);
    assert!(!render_decision(start(), RenderEvent { installed_key_current: false, ..fixture }).1.capture_ready);
}

#[test]
fn motion_continues_while_the_content_or_the_view_moves() {
    let (state, request) = motion_after_paint(start(), true, true, true, false);
    assert!(state.motion && state.animating);
    assert_eq!(request, Some(true));
    let (state, request) = motion_after_paint(state, true, true, false, true);
    assert_eq!(request, None);
    let (state, request) = motion_after_paint(state, true, true, false, false);
    assert_eq!(request, Some(false));
    let (unchanged, request) = motion_after_paint(state, false, true, true, true);
    assert_eq!(unchanged, state);
    assert_eq!(request, None);
    assert_eq!(motion_after_paint(start(), true, false, true, true).1, None);
}

#[test]
fn playing_progress_below_the_end_keeps_the_display_moving() {
    let mut playing = song("Northern Lights", "Living Room");
    assert!(!continuous_motion(&Presentation::NowPlaying(playing.clone())));
    playing.progress = Some(PresentationProgress {
        fraction_bits: 0.5_f64.to_bits(),
        elapsed: "1:00".to_owned(),
        remaining: "-1:00".to_owned(),
    });
    assert!(continuous_motion(&Presentation::NowPlaying(playing.clone())));
    for fraction in [1.0_f64, 1.5, f64::NAN] {
        playing.progress.as_mut().unwrap().fraction_bits = fraction.to_bits();
        assert!(!continuous_motion(&Presentation::NowPlaying(playing.clone())));
    }
    playing.progress.as_mut().unwrap().fraction_bits = (-0.0_f64).to_bits();
    assert!(continuous_motion(&Presentation::NowPlaying(playing.clone())));
    playing.status = presentation_status_for_playback(Playback::Paused);
    assert!(!continuous_motion(&Presentation::NowPlaying(playing)));
    let disconnected = presentation_status_for_availability(Availability::Disconnected);
    let waiting = FullFieldPresentation { status: disconnected, heading: "Waiting", explanation: None, identity: None };
    assert!(!continuous_motion(&Presentation::FullField(waiting.clone())));
    let starting = FullFieldPresentation { status: presentation_status_for_playback(Playback::Loading), ..waiting };
    assert!(continuous_motion(&Presentation::FullField(starting)));
}

#[test]
fn unrevealed_content_keeps_the_rendered_metadata() {
    let rendered = Presentation::NowPlaying(song("Northern Lights", "Living Room"));
    let incoming = song("Southern Lights", "Kitchen");
    let mut held = Presentation::NowPlaying(incoming.clone());
    hold_unrevealed_metadata(&mut held, &rendered, false);
    let Presentation::NowPlaying(held) = held else { panic!("Now Playing") };
    assert_eq!(held.title.as_deref(), Some("Northern Lights"));
    assert_eq!(held.tracked_output, "Living Room");
    assert_eq!(held.status, incoming.status);
    let mut revealed = Presentation::NowPlaying(incoming.clone());
    hold_unrevealed_metadata(&mut revealed, &rendered, true);
    assert_eq!(revealed, Presentation::NowPlaying(incoming));
}
