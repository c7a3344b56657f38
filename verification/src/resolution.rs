use vstd::prelude::*;

use crate::palette::{fallback_palette, PresentationPalette};
use crate::presentation::{
    trackless_full_field, FullFieldPresentation, LyricPresentation, NowPlayingPresentation,
    Presentation, PresentationActivity, PresentationIdentity, PresentationProgress,
    PresentationStatus, PresentationStatusSymbol, is_usable_text,
};

verus! {

/// A presentation with the palette it is drawn in.
#[derive(Clone, Debug, PartialEq)]
pub struct ResolvedPresentation {
    pub presentation: Presentation,
    pub palette: PresentationPalette,
}

/// The status a presentation shows.
pub open spec fn presentation_status(presentation: Presentation) -> PresentationStatus {
    match presentation {
        Presentation::NowPlaying(now_playing) => now_playing.status,
        Presentation::FullField(full_field) => full_field.status,
    }
}

impl ResolvedPresentation {
    pub fn status(&self) -> (status: &PresentationStatus)
        ensures
            *status == presentation_status(self.presentation),
    {
        match &self.presentation {
            Presentation::NowPlaying(now_playing) => &now_playing.status,
            Presentation::FullField(full_field) => &full_field.status,
        }
    }
}

fn copy_text(text: &Option<String>) -> (copy: Option<String>)
    ensures
        copy == *text,
{
    match text {
        Some(value) => Some(value.clone()),
        None => None,
    }
}

fn copy_progress(progress: &Option<PresentationProgress>) -> (copy: Option<PresentationProgress>)
    ensures
        copy == *progress,
{
    match progress {
        Some(value) => Some(
            PresentationProgress {
                fraction_bits: value.fraction_bits,
                elapsed: value.elapsed.clone(),
                remaining: value.remaining.clone(),
            },
        ),
        None => None,
    }
}

fn copy_activity(activity: &Option<Box<PresentationActivity>>) -> (copy: Option<Box<PresentationActivity>>)
    ensures
        copy == *activity,
{
    match activity {
        Some(value) => Some(
            Box::new(
                PresentationActivity {
                    waveform: value.waveform,
                    heading: value.heading,
                    detail: value.detail,
                },
            ),
        ),
        None => None,
    }
}

fn copy_lyrics(lyrics: &Option<Box<LyricPresentation>>) -> (copy: Option<Box<LyricPresentation>>)
    ensures
        copy == *lyrics,
{
    match lyrics {
        Some(value) => Some(
            Box::new(
                LyricPresentation {
                    current_index: value.current_index,
                    previous: copy_text(&value.previous),
                    current: value.current.clone(),
                    next: copy_text(&value.next),
                },
            ),
        ),
        None => None,
    }
}

fn copy_identity(identity: &Option<PresentationIdentity>) -> (copy: Option<PresentationIdentity>)
    ensures
        copy == *identity,
{
    match identity {
        Some(PresentationIdentity::OutputAndZone { tracked_output, tracked_zone }) => Some(
            PresentationIdentity::OutputAndZone {
                tracked_output: tracked_output.clone(),
                tracked_zone: tracked_zone.clone(),
            },
        ),
        Some(PresentationIdentity::OutputOnly { tracked_output }) => Some(
            PresentationIdentity::OutputOnly { tracked_output: tracked_output.clone() },
        ),
        None => None,
    }
}

/// Whether Now Playing content has a usable Title, Artist or Album.
pub open spec fn has_usable_metadata_spec(now_playing: NowPlayingPresentation) -> bool {
    ||| (now_playing.title matches Some(text) && is_usable_text(text@))
    ||| (now_playing.artist matches Some(text) && is_usable_text(text@))
    ||| (now_playing.album matches Some(text) && is_usable_text(text@))
}

/// A presentation resolved without an artwork palette: in the fallback
/// palette; full-field messages unchanged; Now Playing content without usable
/// metadata replaced by its trackless full-field message; other Now Playing
/// content kept without its artwork.
pub open spec fn resolved_without_artwork(presentation: Presentation, resolved: ResolvedPresentation) -> bool {
    &&& resolved.palette == fallback_palette()
    &&& match presentation {
        Presentation::FullField(full_field) => resolved.presentation == Presentation::FullField(
            full_field,
        ),
        Presentation::NowPlaying(now_playing) => if has_usable_metadata_spec(now_playing) {
            resolved.presentation == Presentation::NowPlaying(
                NowPlayingPresentation { artwork_revision: None, artwork_path: None, ..now_playing },
            )
        } else {
            resolved.presentation matches Presentation::FullField(full_field) && {
                &&& full_field.status == now_playing.status
                &&& full_field.heading == if now_playing.status.symbol
                    == PresentationStatusSymbol::Starting {
                    "Preparing playback"
                } else {
                    "Now Playing details unavailable"
                }
                &&& full_field.explanation is None
                &&& full_field.identity matches Some(PresentationIdentity::OutputAndZone {
                    tracked_output: output,
                    tracked_zone: zone,
                }) && output@ == now_playing.tracked_output@ && zone@ == now_playing.tracked_zone@
            }
        },
    }
}

/// The presentation in the fallback palette, without its artwork; see
/// `resolved_without_artwork`. Now Playing content without usable metadata
/// shows a playback status.
pub fn resolve_without_artwork_palette(presentation: &Presentation) -> (resolved: ResolvedPresentation)
    requires
        presentation matches Presentation::NowPlaying(now_playing) ==> {
            ||| now_playing.status.symbol == PresentationStatusSymbol::Starting
            ||| now_playing.status.symbol == PresentationStatusSymbol::Paused
            ||| now_playing.status.symbol == PresentationStatusSymbol::Playing
            ||| has_usable_metadata_spec(*now_playing)
        },
    ensures
        resolved_without_artwork(*presentation, resolved),
{
    let palette = PresentationPalette::fallback();
    match presentation {
        Presentation::FullField(full_field) => ResolvedPresentation {
            presentation: Presentation::FullField(
                FullFieldPresentation {
                    status: full_field.status,
                    heading: full_field.heading,
                    explanation: full_field.explanation,
                    identity: copy_identity(&full_field.identity),
                },
            ),
            palette,
        },
        Presentation::NowPlaying(now_playing) => {
            if !now_playing.has_usable_metadata() {
                return ResolvedPresentation {
                    presentation: Presentation::FullField(trackless_full_field(now_playing)),
                    palette,
                };
            }
            ResolvedPresentation {
                presentation: Presentation::NowPlaying(
                    NowPlayingPresentation {
                        title: copy_text(&now_playing.title),
                        artist: copy_text(&now_playing.artist),
                        album: copy_text(&now_playing.album),
                        tracked_output: now_playing.tracked_output.clone(),
                        tracked_zone: now_playing.tracked_zone.clone(),
                        status: now_playing.status,
                        progress: copy_progress(&now_playing.progress),
                        activity: copy_activity(&now_playing.activity),
                        artwork_revision: None,
                        artwork_path: None,
                        lyrics: copy_lyrics(&now_playing.lyrics),
                    },
                ),
                palette,
            }
        },
    }
}

} // verus!
