use vstd::prelude::*;

use crate::presentation::{
    NowPlayingPresentation, Presentation, PresentationStatusMotion, PresentationStatusSymbol,
};

verus! {

/// The most paint records a renderer keeps.
pub const PAINT_RECORD_LIMIT: usize = 16;

/// Where the palette of the incoming presentation comes from.
#[derive(Clone, Copy, Debug, PartialEq, Eq, Structural)]
pub enum PaletteSource {
    /// The palette of the preparation that just completed.
    Prepared,
    /// The palette of the content already installed in the view.
    Installed,
    /// The fixed fallback, while the incoming artwork is still decoding.
    Fallback,
    /// No artwork palette.
    Absent,
}

/// What happens to the native view when prepared content is revealed.
#[derive(Clone, Copy, Debug, PartialEq, Eq, Structural)]
pub enum ViewChange {
    /// The view departs from its content and reveals the prepared content.
    Replace,
    /// The prepared content is installed into the view in place.
    Install,
    /// The first view is created from the prepared content.
    Create,
    /// Nothing is revealed this frame.
    Keep,
}

/// What a renderer carries from frame to frame: whether it asked its window
/// for animation frames, whether its content was still moving at the last
/// paint, and how many paint records it keeps.
#[derive(Clone, Copy, Debug, PartialEq, Eq, Structural)]
pub struct RenderState {
    pub animating: bool,
    pub motion: bool,
    pub paint_records: usize,
}

/// What a renderer observes when a frame is due.
#[derive(Clone, Copy, Debug, PartialEq, Eq, Structural)]
pub struct RenderEvent {
    /// A preparation for the current key has completed and is not installed.
    pub prepared_ready: bool,
    /// That preparation holds artwork.
    pub prepared_has_artwork: bool,
    /// The installed content was prepared for the current key.
    pub installed_key_current: bool,
    /// The incoming presentation is Now Playing with an artwork path.
    pub artwork_path_pending: bool,
    /// The Now Playing generation differs from the one last revealed.
    pub generation_changed: bool,
    /// The update from the shown presentation needs a transition.
    pub update_requires_transition: bool,
    /// The view's departure is complete, after any departure this frame
    /// begins.
    pub departure_complete: bool,
    /// A native view exists.
    pub view_exists: bool,
    /// The generation of the displayed frame is the current one.
    pub selected_generation_current: bool,
    /// Animations are enabled.
    pub animated: bool,
    /// The renderer shows a still fixture.
    pub static_fixture: bool,
}

/// What a renderer does with a frame.
#[derive(Clone, Copy, Debug, PartialEq, Eq, Structural)]
pub struct RenderAction {
    /// The palette of the incoming presentation.
    pub incoming_palette: PaletteSource,
    /// The palette the painted presentation is resolved with.
    pub shown_palette: PaletteSource,
    /// The incoming presentation replaces the shown one.
    pub replacement: bool,
    /// The view begins to depart from its content.
    pub begin_departure: bool,
    /// The incoming content is ready to be revealed.
    pub reveal_ready: bool,
    /// The painted presentation keeps the metadata already rendered.
    pub hold_previous_metadata: bool,
    pub view_change: ViewChange,
    /// A view is painted this frame.
    pub paint: bool,
    /// The painted scene may be captured.
    pub capture_ready: bool,
}

/// The palette of the incoming presentation: a completed preparation's own
/// (none without artwork), else the installed one when it is current, else
/// the fallback while artwork is pending.
pub open spec fn incoming_palette_spec(event: RenderEvent) -> PaletteSource {
    if event.prepared_ready {
        if event.prepared_has_artwork {
            PaletteSource::Prepared
        } else {
            PaletteSource::Absent
        }
    } else if event.installed_key_current {
        PaletteSource::Installed
    } else if event.artwork_path_pending {
        PaletteSource::Fallback
    } else {
        PaletteSource::Absent
    }
}

/// A new generation, or an update that needs a transition, replaces the
/// shown presentation.
pub open spec fn replacement_spec(event: RenderEvent) -> bool {
    event.generation_changed || event.update_requires_transition
}

/// Content is ready to reveal once it is prepared (or already installed)
/// and any replacement has finished departing.
pub open spec fn reveal_ready_spec(event: RenderEvent) -> bool {
    (event.prepared_ready || event.installed_key_current) && (!replacement_spec(event)
        || !event.view_exists || event.departure_complete)
}

pub open spec fn view_change_spec(event: RenderEvent) -> ViewChange {
    if !(reveal_ready_spec(event) && event.prepared_ready) {
        ViewChange::Keep
    } else if !event.view_exists {
        ViewChange::Create
    } else if replacement_spec(event) {
        ViewChange::Replace
    } else {
        ViewChange::Install
    }
}

/// A paint adds a record; beyond the limit the oldest records go.
pub open spec fn paint_records_after(records: usize) -> usize {
    if records >= PAINT_RECORD_LIMIT {
        PAINT_RECORD_LIMIT
    } else {
        (records + 1) as usize
    }
}

pub open spec fn render_decision_spec(state: RenderState, event: RenderEvent) -> (
    RenderState,
    RenderAction,
) {
    let reveal_ready = reveal_ready_spec(event);
    let view_change = view_change_spec(event);
    let installs = view_change != ViewChange::Keep;
    let paint = event.view_exists || view_change == ViewChange::Create;
    let action = RenderAction {
        incoming_palette: incoming_palette_spec(event),
        shown_palette: if reveal_ready {
            incoming_palette_spec(event)
        } else {
            PaletteSource::Installed
        },
        replacement: replacement_spec(event),
        begin_departure: replacement_spec(event) && event.view_exists,
        reveal_ready,
        hold_previous_metadata: !reveal_ready,
        view_change,
        paint,
        capture_ready: paint && event.static_fixture && (event.installed_key_current || installs)
            && if installs {
            event.selected_generation_current
        } else {
            !event.generation_changed
        },
    };
    let next = RenderState {
        paint_records: if paint {
            paint_records_after(state.paint_records)
        } else {
            state.paint_records
        },
        ..state
    };
    (next, action)
}

/// Decides a frame: the palettes, whether the incoming presentation replaces
/// the shown one, whether it is revealed and how the view takes it, and
/// whether the painted scene may be captured.
pub fn render_decision(state: RenderState, event: RenderEvent) -> (step: (RenderState, RenderAction))
    ensures
        step == render_decision_spec(state, event),
{
    let incoming_palette = if event.prepared_ready {
        if event.prepared_has_artwork {
            PaletteSource::Prepared
        } else {
            PaletteSource::Absent
        }
    } else if event.installed_key_current {
        PaletteSource::Installed
    } else if event.artwork_path_pending {
        PaletteSource::Fallback
    } else {
        PaletteSource::Absent
    };
    let replacement = event.generation_changed || event.update_requires_transition;
    let reveal_ready = (event.prepared_ready || event.installed_key_current) && (!replacement
        || !event.view_exists || event.departure_complete);
    let view_change = if !(reveal_ready && event.prepared_ready) {
        ViewChange::Keep
    } else if !event.view_exists {
        ViewChange::Create
    } else if replacement {
        ViewChange::Replace
    } else {
        ViewChange::Install
    };
    let installs = !matches!(view_change, ViewChange::Keep);
    let paint = event.view_exists || matches!(view_change, ViewChange::Create);
    let generation_current = if installs {
        event.selected_generation_current
    } else {
        !event.generation_changed
    };
    let action = RenderAction {
        incoming_palette,
        shown_palette: if reveal_ready {
            incoming_palette
        } else {
            PaletteSource::Installed
        },
        replacement,
        begin_departure: replacement && event.view_exists,
        reveal_ready,
        hold_previous_metadata: !reveal_ready,
        view_change,
        paint,
        capture_ready: paint && event.static_fixture && (event.installed_key_current || installs)
            && generation_current,
    };
    let paint_records = if !paint {
        state.paint_records
    } else if state.paint_records >= PAINT_RECORD_LIMIT {
        PAINT_RECORD_LIMIT
    } else {
        state.paint_records + 1
    };
    (RenderState { paint_records, ..state }, action)
}

/// After a paint: the content keeps moving while animations are enabled and
/// the presentation moves continuously or the view is still active; the
/// window is asked to start or stop animation frames when that changes.
pub open spec fn motion_after_paint_spec(
    state: RenderState,
    painted: bool,
    animated: bool,
    continuous: bool,
    view_active: bool,
) -> (RenderState, Option<bool>) {
    let motion = if painted {
        animated && (continuous || view_active)
    } else {
        state.motion
    };
    (
        RenderState { animating: motion, motion, ..state },
        if state.animating != motion {
            Some(motion)
        } else {
            None
        },
    )
}

/// Settles motion at the end of a frame; the second result, when present,
/// is the animation request to send to the window.
pub fn motion_after_paint(
    state: RenderState,
    painted: bool,
    animated: bool,
    continuous: bool,
    view_active: bool,
) -> (step: (RenderState, Option<bool>))
    ensures
        step == motion_after_paint_spec(state, painted, animated, continuous, view_active),
{
    let motion = if painted {
        animated && (continuous || view_active)
    } else {
        state.motion
    };
    let request = if state.animating != motion {
        Some(motion)
    } else {
        None
    };
    (RenderState { animating: motion, motion, ..state }, request)
}

/// Whether a double, given by its bits, is less than 1.0.
pub open spec fn below_one_spec(bits: u64) -> bool {
    if bits >= 0x8000_0000_0000_0000 {
        bits - 0x8000_0000_0000_0000 <= 0x7ff0_0000_0000_0000
    } else {
        bits < 0x3ff0_0000_0000_0000
    }
}

/// Whether a presentation moves by itself: audio activity, a moving status
/// symbol, or playback whose progress has not reached its end.
pub open spec fn continuous_motion_spec(presentation: Presentation) -> bool {
    match presentation {
        Presentation::NowPlaying(value) => {
            ||| value.activity is Some
            ||| value.status.motion != PresentationStatusMotion::Static
            ||| (value.status.symbol == PresentationStatusSymbol::Playing && (
            value.progress matches Some(progress) && below_one_spec(progress.fraction_bits)))
        },
        Presentation::FullField(value) => value.status.motion != PresentationStatusMotion::Static,
    }
}

fn below_one(bits: u64) -> (below: bool)
    ensures
        below == below_one_spec(bits),
{
    if bits >= 0x8000_0000_0000_0000 {
        bits - 0x8000_0000_0000_0000 <= 0x7ff0_0000_0000_0000
    } else {
        bits < 0x3ff0_0000_0000_0000
    }
}

fn is_static(motion: PresentationStatusMotion) -> (still: bool)
    ensures
        still == (motion == PresentationStatusMotion::Static),
{
    match motion {
        PresentationStatusMotion::Static => true,
        PresentationStatusMotion::ContinuousRotation { .. } => false,
    }
}

/// Whether the presentation keeps the display moving between snapshots.
pub fn continuous_motion(presentation: &Presentation) -> (continuous: bool)
    ensures
        continuous == continuous_motion_spec(*presentation),
{
    match presentation {
        Presentation::NowPlaying(value) => {
            value.activity.is_some() || !is_static(value.status.motion) || (matches!(
                value.status.symbol,
                PresentationStatusSymbol::Playing
            ) && match &value.progress {
                Some(progress) => below_one(progress.fraction_bits),
                None => false,
            })
        },
        Presentation::FullField(value) => !is_static(value.status.motion),
    }
}

/// The presentation that is painted: until the incoming content is revealed,
/// a Now Playing presentation following a rendered Now Playing presentation
/// keeps its title, artist, album, output and zone.
pub open spec fn held_presentation(
    presentation: Presentation,
    rendered: Presentation,
    reveal_ready: bool,
) -> Presentation {
    match (presentation, rendered) {
        (Presentation::NowPlaying(value), Presentation::NowPlaying(old)) if !reveal_ready => {
            Presentation::NowPlaying(
                NowPlayingPresentation {
                    title: old.title,
                    artist: old.artist,
                    album: old.album,
                    tracked_output: old.tracked_output,
                    tracked_zone: old.tracked_zone,
                    ..value
                },
            )
        },
        _ => presentation,
    }
}

fn copied_text(text: &String) -> (copy: String)
    ensures
        copy@ == text@,
        copy == *text,
{
    text.clone()
}

fn copied_optional_text(text: &Option<String>) -> (copy: Option<String>)
    ensures
        copy == *text,
{
    match text {
        Some(value) => Some(copied_text(value)),
        None => None,
    }
}

/// Keeps the rendered metadata on the presentation until its content is
/// revealed.
pub fn hold_unrevealed_metadata(
    presentation: &mut Presentation,
    rendered: &Presentation,
    reveal_ready: bool,
)
    ensures
        *final(presentation) == held_presentation(*old(presentation), *rendered, reveal_ready),
{
    if reveal_ready {
        return ;
    }
    if let Presentation::NowPlaying(old) = rendered {
        if let Presentation::NowPlaying(value) = presentation {
            value.title = copied_optional_text(&old.title);
            value.artist = copied_optional_text(&old.artist);
            value.album = copied_optional_text(&old.album);
            value.tracked_output = copied_text(&old.tracked_output);
            value.tracked_zone = copied_text(&old.tracked_zone);
        }
    }
}

/// The renderer never keeps more paint records than its limit.
pub proof fn lemma_paint_records_stay_within_the_limit(state: RenderState, event: RenderEvent)
    requires
        state.paint_records <= PAINT_RECORD_LIMIT,
    ensures
        render_decision_spec(state, event).0.paint_records <= PAINT_RECORD_LIMIT,
{
}

/// Content is revealed only when it is prepared or already installed, and
/// never while the view is still departing from the content it replaces.
pub proof fn lemma_no_reveal_during_a_departure(state: RenderState, event: RenderEvent)
    requires
        replacement_spec(event),
        event.view_exists,
        !event.departure_complete,
    ensures
        !render_decision_spec(state, event).1.reveal_ready,
        render_decision_spec(state, event).1.hold_previous_metadata,
        render_decision_spec(state, event).1.view_change == ViewChange::Keep,
        render_decision_spec(state, event).1.shown_palette == PaletteSource::Installed,
{
}

} // verus!
