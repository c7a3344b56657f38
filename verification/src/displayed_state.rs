use vstd::prelude::*;

verus! {

/// What a displayed state keeps of the presentation states it shows: the
/// revision and Now Playing generation of the state on display, and the
/// revision of the state whose timeline is shown.
#[derive(Clone, Copy, Debug, PartialEq, Eq, Structural)]
pub struct DisplayedRevisions {
    pub state_revision: u64,
    pub state_generation: u64,
    pub timing_revision: u64,
}

/// What is known when a frame of the incoming presentation state is due.
#[derive(Clone, Copy, Debug, PartialEq, Eq, Structural)]
pub struct IncomingDisplay {
    pub revision: u64,
    pub generation: u64,
    /// The incoming presentation's graphics are prepared.
    pub assets_ready: bool,
    /// The incoming presentation's timed content (lyrics) is prepared.
    pub timing_ready: bool,
    /// The incoming frame is Now Playing.
    pub incoming_is_now_playing: bool,
    /// The frame of the state on display is Now Playing.
    pub displayed_is_now_playing: bool,
    /// The frame of the state whose timeline is shown is Now Playing.
    pub retained_timing_is_now_playing: bool,
}

/// Where the shown timeline comes from.
#[derive(Clone, Copy, Debug, PartialEq, Eq, Structural)]
pub enum TimelineSource {
    /// The incoming state's timeline is adopted.
    Incoming,
    /// The retained timeline keeps its revision and follows the incoming
    /// state's playback.
    Synchronized,
    /// The retained timeline is kept as it is.
    Retained,
}

/// What a displayed state does with a frame.
#[derive(Clone, Copy, Debug, PartialEq, Eq, Structural)]
pub struct DisplayDecision {
    /// The incoming frame is displayed (else the state on display is).
    pub display_incoming: bool,
    /// The incoming state becomes the state on display.
    pub adopt_state: bool,
    pub timeline: TimelineSource,
    /// The incoming artwork becomes the retained artwork.
    pub adopt_artwork: bool,
    /// The frame shows the retained artwork in place of its own.
    pub show_retained_artwork: bool,
    /// The frame takes lyrics and progress from the retained timeline.
    pub show_retained_timeline: bool,
    /// The revision and generation reported with the frame.
    pub revision: u64,
    pub generation: u64,
}

/// The incoming frame is displayed when its graphics are ready, or when it
/// continues the same Now Playing generation as the state on display.
pub open spec fn displays_incoming(state: DisplayedRevisions, incoming: IncomingDisplay) -> bool {
    incoming.assets_ready || (incoming.generation == state.state_generation
        && incoming.incoming_is_now_playing && incoming.displayed_is_now_playing)
}

pub open spec fn display_decision_spec(state: DisplayedRevisions, incoming: IncomingDisplay) -> (
    DisplayedRevisions,
    DisplayDecision,
) {
    let display = displays_incoming(state, incoming);
    let adopt_state = display && (incoming.revision != state.state_revision || incoming.generation
        != state.state_generation);
    let timeline = if !display {
        TimelineSource::Retained
    } else if incoming.assets_ready || incoming.timing_ready {
        TimelineSource::Incoming
    } else {
        TimelineSource::Synchronized
    };
    let next = DisplayedRevisions {
        state_revision: if adopt_state {
            incoming.revision
        } else {
            state.state_revision
        },
        state_generation: if adopt_state {
            incoming.generation
        } else {
            state.state_generation
        },
        timing_revision: if timeline == TimelineSource::Incoming {
            incoming.revision
        } else {
            state.timing_revision
        },
    };
    let frame_is_now_playing = if display {
        incoming.incoming_is_now_playing
    } else {
        incoming.displayed_is_now_playing
    };
    let timeline_is_now_playing = if timeline == TimelineSource::Incoming {
        incoming.incoming_is_now_playing
    } else {
        incoming.retained_timing_is_now_playing
    };
    (
        next,
        DisplayDecision {
            display_incoming: display,
            adopt_state,
            timeline,
            adopt_artwork: display && incoming.assets_ready,
            show_retained_artwork: !incoming.assets_ready && frame_is_now_playing,
            show_retained_timeline: next.timing_revision != next.state_revision
                && frame_is_now_playing && timeline_is_now_playing,
            revision: next.timing_revision,
            generation: next.state_generation,
        },
    )
}

/// Decides which presentation state a frame shows, which timeline it
/// follows, and which artwork it keeps, so that the visible song keeps its
/// timeline until a replacement's graphics are ready.
pub fn display_decision(state: DisplayedRevisions, incoming: IncomingDisplay) -> (step: (
    DisplayedRevisions,
    DisplayDecision,
))
    ensures
        step == display_decision_spec(state, incoming),
{
    let display = incoming.assets_ready || (incoming.generation == state.state_generation
        && incoming.incoming_is_now_playing && incoming.displayed_is_now_playing);
    let adopt_state = display && (incoming.revision != state.state_revision || incoming.generation
        != state.state_generation);
    let timeline = if !display {
        TimelineSource::Retained
    } else if incoming.assets_ready || incoming.timing_ready {
        TimelineSource::Incoming
    } else {
        TimelineSource::Synchronized
    };
    let adopts_timeline = matches!(timeline, TimelineSource::Incoming);
    let next = DisplayedRevisions {
        state_revision: if adopt_state {
            incoming.revision
        } else {
            state.state_revision
        },
        state_generation: if adopt_state {
            incoming.generation
        } else {
            state.state_generation
        },
        timing_revision: if adopts_timeline {
            incoming.revision
        } else {
            state.timing_revision
        },
    };
    let frame_is_now_playing = if display {
        incoming.incoming_is_now_playing
    } else {
        incoming.displayed_is_now_playing
    };
    let timeline_is_now_playing = if adopts_timeline {
        incoming.incoming_is_now_playing
    } else {
        incoming.retained_timing_is_now_playing
    };
    let decision = DisplayDecision {
        display_incoming: display,
        adopt_state,
        timeline,
        adopt_artwork: display && incoming.assets_ready,
        show_retained_artwork: !incoming.assets_ready && frame_is_now_playing,
        show_retained_timeline: next.timing_revision != next.state_revision
            && frame_is_now_playing && timeline_is_now_playing,
        revision: next.timing_revision,
        generation: next.state_generation,
    };
    (next, decision)
}

/// While another song's graphics are not ready, the visible song stays on
/// display with its own timeline, revision and generation.
pub proof fn lemma_visible_song_keeps_its_timeline(
    state: DisplayedRevisions,
    incoming: IncomingDisplay,
)
    requires
        !incoming.assets_ready,
        incoming.generation != state.state_generation,
    ensures
        !display_decision_spec(state, incoming).1.display_incoming,
        display_decision_spec(state, incoming).0 == state,
        display_decision_spec(state, incoming).1.timeline == TimelineSource::Retained,
        display_decision_spec(state, incoming).1.revision == state.timing_revision,
        display_decision_spec(state, incoming).1.generation == state.state_generation,
{
}

/// Live updates of the song on display are shown whether or not their
/// graphics are ready.
pub proof fn lemma_same_song_updates_are_shown(state: DisplayedRevisions, incoming: IncomingDisplay)
    requires
        incoming.generation == state.state_generation,
        incoming.incoming_is_now_playing,
        incoming.displayed_is_now_playing,
    ensures
        display_decision_spec(state, incoming).1.display_incoming,
        display_decision_spec(state, incoming).0.state_revision == incoming.revision,
{
}

/// Once everything is prepared, the incoming state is shown with its own
/// timeline, artwork and revision.
pub proof fn lemma_prepared_frames_show_the_incoming_state(
    state: DisplayedRevisions,
    incoming: IncomingDisplay,
)
    requires
        incoming.assets_ready,
    ensures
        display_decision_spec(state, incoming).1.display_incoming,
        display_decision_spec(state, incoming).1.timeline == TimelineSource::Incoming,
        display_decision_spec(state, incoming).1.adopt_artwork,
        !display_decision_spec(state, incoming).1.show_retained_artwork,
        !display_decision_spec(state, incoming).1.show_retained_timeline,
        display_decision_spec(state, incoming).1.revision == incoming.revision,
        display_decision_spec(state, incoming).1.generation == incoming.generation,
{
}

} // verus!
