use vstd::prelude::*;

verus! {

/// How long a cue hands off to the next: 620 ms.
pub const CUE_HANDOFF_NANOS: u128 = 620_000_000;

/// How long a blank cue takes to open: 440 ms.
pub const BLANK_TRANSITION_NANOS: u128 = 440_000_000;

/// Why the lyrics show what they show.
#[derive(Clone, Copy, Debug, PartialEq, Eq, Structural)]
pub enum LyricMotionCause {
    Settled,
    NaturalCueHandoff,
    IntentionalBlankEntry,
    IntentionalBlankExit,
    IntentionalBlankContinuation,
    SkippedCueDestination,
    InterruptedHandoffDestination,
    ExternalSeek,
    TimelineRevision,
    CompositionEntry,
    CompositionExit,
}

/// The animated hand-offs between cues.
#[derive(Clone, Copy, Debug, PartialEq, Eq, Structural)]
pub enum CueMotionKind {
    Natural,
    BlankEntry,
    BlankExit,
}

/// How long a hand-off of this kind runs.
pub open spec fn cue_motion_nanos(kind: CueMotionKind) -> u128 {
    match kind {
        CueMotionKind::BlankEntry => BLANK_TRANSITION_NANOS,
        _ => CUE_HANDOFF_NANOS,
    }
}

impl CueMotionKind {
    /// How long a hand-off of this kind runs.
    pub fn duration_nanos(self) -> (nanos: u128)
        ensures
            nanos == cue_motion_nanos(self),
    {
        match self {
            CueMotionKind::BlankEntry => BLANK_TRANSITION_NANOS,
            _ => CUE_HANDOFF_NANOS,
        }
    }

    /// Whether a hand-off started at `started_at_nanos` still runs at
    /// `now_nanos`; a clock that reads earlier than the start counts as no
    /// time elapsed.
    pub fn is_active_at(self, started_at_nanos: u128, now_nanos: u128) -> (active: bool)
        ensures
            active == (if now_nanos >= started_at_nanos {
                now_nanos - started_at_nanos
            } else {
                0
            } < cue_motion_nanos(self)),
    {
        let elapsed = now_nanos.saturating_sub(started_at_nanos);
        elapsed < self.duration_nanos()
    }
}

/// Whether the target cue follows the source cue: it is the next entry, or
/// a non-blank target whose previous entry is the source, or a non-blank
/// target after a blank source with no earlier entry between them.
pub open spec fn adjacent_cues(
    source_index: usize,
    target_index: usize,
    target_previous_index: Option<usize>,
    source_blank: bool,
    target_blank: bool,
) -> bool {
    let next_index = if source_index == usize::MAX {
        source_index as int
    } else {
        source_index + 1
    };
    ||| target_index == next_index
    ||| (!target_blank && target_previous_index == Some(source_index))
    ||| (source_blank && !target_blank && target_index >= source_index && match target_previous_index {
        None => true,
        Some(previous) => previous < source_index,
    })
}

/// Whether the target cue follows the source cue; see `adjacent_cues`.
pub fn cues_adjacent(
    source_index: usize,
    target_index: usize,
    target_previous_index: Option<usize>,
    source_blank: bool,
    target_blank: bool,
) -> (adjacent: bool)
    ensures
        adjacent == adjacent_cues(
            source_index,
            target_index,
            target_previous_index,
            source_blank,
            target_blank,
        ),
{
    let next_index = source_index.saturating_add(1);
    let follows_previous = match target_previous_index {
        Some(previous) => !target_blank && previous == source_index,
        None => false,
    };
    let leaves_blank = source_blank && !target_blank && target_index >= source_index
        && match target_previous_index {
        None => true,
        Some(previous) => previous < source_index,
    };
    target_index == next_index || follows_previous || leaves_blank
}

/// What is known of a change of the lyrics presented.
#[derive(Clone, Copy, Debug, PartialEq, Eq, Structural)]
pub struct LyricChange {
    /// Whether the snapshot revision changed.
    pub revision_changed: bool,
    /// Whether animations run.
    pub animations_enabled: bool,
    /// Whether the new lyrics equal the current ones.
    pub same_lyrics: bool,
    /// Whether the playback clock jumped since the last sample.
    pub timing_discontinuity: bool,
    /// Whether lyrics were shown.
    pub was_present: bool,
    /// Whether lyrics are shown now.
    pub is_present: bool,
    /// Whether the two lyrics have different timelines.
    pub timelines_differ: bool,
    /// Whether a hand-off is still running.
    pub motion_interrupted: bool,
    /// Whether that running hand-off is a blank entry.
    pub interrupted_blank_entry: bool,
    /// Whether the current cue is blank.
    pub source_blank: bool,
    /// Whether the new cue is blank.
    pub target_blank: bool,
    /// Whether the new cue follows the current one.
    pub adjacent: bool,
}

/// What the lyric motion does with a change.
#[derive(Clone, Copy, Debug, PartialEq, Eq, Structural)]
pub enum LyricUpdate {
    /// Show the new lyrics at once, with no motion.
    Settle,
    /// Nothing changes.
    Unchanged,
    /// Show the new lyrics at once after a seek.
    Seek,
    /// Lyrics appear or leave as a whole.
    Composition { entering: bool },
    /// One blank cue follows another; a running motion is kept when asked.
    BlankContinuation { keep_motion: bool },
    /// Hand the cue off, animated when `motion` is present.
    Handoff { motion: Option<CueMotionKind>, cause: LyricMotionCause, from_interrupted_frame: bool },
}

/// The decision for a change of lyrics: without animations an unchanged
/// value settles; an unchanged value is a seek only on a new revision with
/// a clock jump; appearing or leaving lyrics move as a whole; consecutive
/// blank cues continue; otherwise the cue hands off — cut on a new revision
/// (a new timeline or a seek), cut to the destination of an interrupted or
/// skipping hand-off, and animated (when animations run) into or out of a
/// blank or naturally.
pub open spec fn lyric_update(change: LyricChange) -> LyricUpdate {
    let continuing_blank_departure = change.motion_interrupted && !change.target_blank
        && change.interrupted_blank_entry;
    if !change.animations_enabled && change.same_lyrics {
        LyricUpdate::Settle
    } else if change.same_lyrics {
        if change.revision_changed && change.timing_discontinuity {
            LyricUpdate::Seek
        } else {
            LyricUpdate::Unchanged
        }
    } else if change.was_present != change.is_present {
        LyricUpdate::Composition { entering: change.is_present }
    } else if !change.is_present {
        LyricUpdate::Settle
    } else if !change.revision_changed && change.adjacent && change.source_blank
        && change.target_blank {
        LyricUpdate::BlankContinuation {
            keep_motion: change.animations_enabled && change.motion_interrupted,
        }
    } else {
        let (kind, cause) = if change.revision_changed {
            (
                None,
                if change.timelines_differ {
                    LyricMotionCause::TimelineRevision
                } else {
                    LyricMotionCause::ExternalSeek
                },
            )
        } else if change.motion_interrupted && !continuing_blank_departure {
            (None, LyricMotionCause::InterruptedHandoffDestination)
        } else if !change.adjacent {
            (None, LyricMotionCause::SkippedCueDestination)
        } else if change.target_blank {
            (Some(CueMotionKind::BlankEntry), LyricMotionCause::IntentionalBlankEntry)
        } else if change.source_blank {
            (Some(CueMotionKind::BlankExit), LyricMotionCause::IntentionalBlankExit)
        } else {
            (Some(CueMotionKind::Natural), LyricMotionCause::NaturalCueHandoff)
        };
        LyricUpdate::Handoff {
            motion: if change.animations_enabled {
                kind
            } else {
                None
            },
            cause,
            from_interrupted_frame: continuing_blank_departure,
        }
    }
}

/// The decision for a change of lyrics; see `lyric_update`.
pub fn decide_lyric_update(change: LyricChange) -> (update: LyricUpdate)
    ensures
        update == lyric_update(change),
{
    if !change.animations_enabled && change.same_lyrics {
        return LyricUpdate::Settle;
    }
    if change.same_lyrics {
        if change.revision_changed && change.timing_discontinuity {
            return LyricUpdate::Seek;
        }
        return LyricUpdate::Unchanged;
    }
    if change.was_present != change.is_present {
        return LyricUpdate::Composition { entering: change.is_present };
    }
    if !change.is_present {
        return LyricUpdate::Settle;
    }
    if !change.revision_changed && change.adjacent && change.source_blank && change.target_blank {
        return LyricUpdate::BlankContinuation {
            keep_motion: change.animations_enabled && change.motion_interrupted,
        };
    }
    let continuing_blank_departure = change.motion_interrupted && !change.target_blank
        && change.interrupted_blank_entry;
    let (kind, cause) = if change.revision_changed {
        (
            None,
            if change.timelines_differ {
                LyricMotionCause::TimelineRevision
            } else {
                LyricMotionCause::ExternalSeek
            },
        )
    } else if change.motion_interrupted && !continuing_blank_departure {
        (None, LyricMotionCause::InterruptedHandoffDestination)
    } else if !change.adjacent {
        (None, LyricMotionCause::SkippedCueDestination)
    } else if change.target_blank {
        (Some(CueMotionKind::BlankEntry), LyricMotionCause::IntentionalBlankEntry)
    } else if change.source_blank {
        (Some(CueMotionKind::BlankExit), LyricMotionCause::IntentionalBlankExit)
    } else {
        (Some(CueMotionKind::Natural), LyricMotionCause::NaturalCueHandoff)
    };
    LyricUpdate::Handoff {
        motion: if change.animations_enabled {
            kind
        } else {
            None
        },
        cause,
        from_interrupted_frame: continuing_blank_departure,
    }
}

/// Without animations no hand-off is ever animated.
pub proof fn lemma_no_motion_without_animations(change: LyricChange)
    requires
        !change.animations_enabled,
    ensures
        lyric_update(change) matches LyricUpdate::Handoff { motion, .. } ==> motion is None,
        !(lyric_update(change) matches LyricUpdate::BlankContinuation { keep_motion: true }),
{
}

/// A new revision never animates a hand-off: the lyrics cut to the new cue.
pub proof fn lemma_new_revision_cuts(change: LyricChange)
    requires
        change.revision_changed,
    ensures
        lyric_update(change) matches LyricUpdate::Handoff { motion, .. } ==> motion is None,
{
}

/// A hand-off between adjacent cues of the same timeline, with no motion
/// interrupted, follows the blanks: entering an instrumental blank is the
/// short blank entry, leaving one is a blank exit, and between two sung
/// lines the hand-off is natural; each is animated exactly when animations
/// run, and none starts from an interrupted frame.
pub proof fn lemma_adjacent_handoffs_follow_the_blanks(change: LyricChange)
    requires
        !change.same_lyrics,
        change.was_present,
        change.is_present,
        !change.revision_changed,
        !change.motion_interrupted,
        change.adjacent,
        !(change.source_blank && change.target_blank),
    ensures
        change.target_blank ==> lyric_update(change) == (LyricUpdate::Handoff {
            motion: if change.animations_enabled {
                Some(CueMotionKind::BlankEntry)
            } else {
                None
            },
            cause: LyricMotionCause::IntentionalBlankEntry,
            from_interrupted_frame: false,
        }),
        change.source_blank ==> lyric_update(change) == (LyricUpdate::Handoff {
            motion: if change.animations_enabled {
                Some(CueMotionKind::BlankExit)
            } else {
                None
            },
            cause: LyricMotionCause::IntentionalBlankExit,
            from_interrupted_frame: false,
        }),
        !change.source_blank && !change.target_blank ==> lyric_update(change) == (
        LyricUpdate::Handoff {
            motion: if change.animations_enabled {
                Some(CueMotionKind::Natural)
            } else {
                None
            },
            cause: LyricMotionCause::NaturalCueHandoff,
            from_interrupted_frame: false,
        }),
{
}

/// Entering a blank runs 440 ms; every other hand-off runs 620 ms.
pub proof fn lemma_blank_entry_is_shorter(kind: CueMotionKind)
    ensures
        cue_motion_nanos(kind) == if kind == CueMotionKind::BlankEntry {
            440_000_000u128
        } else {
            620_000_000u128
        },
{
}

/// A hand-off that skips cues, or that interrupts a running motion (other
/// than one leaving a blank it was entering), cuts to its destination.
pub proof fn lemma_skips_and_interruptions_cut(change: LyricChange)
    requires
        !change.same_lyrics,
        change.was_present,
        change.is_present,
        !change.revision_changed,
        !(change.adjacent && change.source_blank && change.target_blank),
    ensures
        change.motion_interrupted && (change.target_blank || !change.interrupted_blank_entry)
            ==> lyric_update(change) == (LyricUpdate::Handoff {
            motion: None,
            cause: LyricMotionCause::InterruptedHandoffDestination,
            from_interrupted_frame: false,
        }),
        !change.motion_interrupted && !change.adjacent ==> lyric_update(change) == (
        LyricUpdate::Handoff {
            motion: None,
            cause: LyricMotionCause::SkippedCueDestination,
            from_interrupted_frame: false,
        }),
{
}

/// Unchanged lyrics never move: without animations they settle, and with
/// them they stay put unless a new revision jumps the clock, which is a
/// seek. Lyrics that appear or leave move as a whole, absent lyrics settle,
/// and adjacent blank cues on the same timeline continue one another.
pub proof fn lemma_whole_lyric_changes(change: LyricChange)
    ensures
        change.same_lyrics && !change.animations_enabled ==> lyric_update(change)
            == LyricUpdate::Settle,
        change.same_lyrics && change.animations_enabled ==> lyric_update(change) == if change.revision_changed
            && change.timing_discontinuity {
            LyricUpdate::Seek
        } else {
            LyricUpdate::Unchanged
        },
        !change.same_lyrics && change.was_present != change.is_present ==> lyric_update(change)
            == (LyricUpdate::Composition { entering: change.is_present }),
        !change.same_lyrics && !change.was_present && !change.is_present ==> lyric_update(change)
            == LyricUpdate::Settle,
        !change.same_lyrics && change.was_present && change.is_present && !change.revision_changed
            && change.adjacent && change.source_blank && change.target_blank ==> lyric_update(
            change,
        ) == (LyricUpdate::BlankContinuation {
            keep_motion: change.animations_enabled && change.motion_interrupted,
        }),
{
}

} // verus!
