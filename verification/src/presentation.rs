use vstd::prelude::*;

use crate::metadata::is_white_space;
use crate::text::same_text;

verus! {

/// Horizontal bound, in pixels, of the inactive movement envelope.
pub const INACTIVE_HORIZONTAL_BOUND: i32 = 18;

/// Vertical bound, in pixels, of the inactive movement envelope.
pub const INACTIVE_VERTICAL_BOUND: i32 = 12;

/// The bit pattern of a fully opaque presentation (opacity 1.0).
pub const FULL_OPACITY_BITS: u64 = 0x3FF0_0000_0000_0000;

/// What a display shows: Now Playing content or a full-field status message.
#[derive(Clone, Debug, PartialEq)]
pub enum Presentation {
    NowPlaying(NowPlayingPresentation),
    FullField(FullFieldPresentation),
}

/// The label, symbol, motion and emphasis of the presentation status.
#[derive(Clone, Copy, Debug, PartialEq, Eq)]
pub struct PresentationStatus {
    pub label: &'static str,
    pub symbol: PresentationStatusSymbol,
    pub motion: PresentationStatusMotion,
    pub emphasis: PresentationStatusEmphasis,
}

#[derive(Clone, Copy, Debug, PartialEq, Eq, Structural)]
pub enum PresentationStatusSymbol {
    Playing,
    Paused,
    Starting,
    Idle,
    PairingRequired,
    Disconnected,
    OutputUnavailable,
}

/// Static, or a continuous rotation with a period in nanoseconds.
#[derive(Clone, Copy, Debug, PartialEq, Eq, Structural)]
pub enum PresentationStatusMotion {
    Static,
    ContinuousRotation { period_nanos: u128 },
}

#[derive(Clone, Copy, Debug, PartialEq, Eq, Structural)]
pub enum PresentationStatusEmphasis {
    FullAccent,
    MutedAccent,
}

/// Now Playing content. Progress fractions are carried as the bit pattern of
/// their IEEE 754 double value.
#[derive(Clone, Debug, PartialEq)]
pub struct NowPlayingPresentation {
    pub title: Option<String>,
    pub artist: Option<String>,
    pub album: Option<String>,
    pub tracked_output: String,
    pub tracked_zone: String,
    pub status: PresentationStatus,
    pub progress: Option<PresentationProgress>,
    pub activity: Option<Box<PresentationActivity>>,
    pub artwork_revision: Option<u64>,
    pub artwork_path: Option<String>,
    pub lyrics: Option<Box<LyricPresentation>>,
}

/// The lyric cue on display and its visible neighbours.
#[derive(Clone, Debug, PartialEq, Eq)]
pub struct LyricPresentation {
    pub current_index: usize,
    pub previous: Option<String>,
    pub current: String,
    pub next: Option<String>,
}

#[derive(Clone, Debug, PartialEq, Eq)]
pub enum PresentationIdentity {
    OutputAndZone { tracked_output: String, tracked_zone: String },
    OutputOnly { tracked_output: String },
}

/// A full-field status message with an optional explanation and identity.
#[derive(Clone, Debug, PartialEq, Eq)]
pub struct FullFieldPresentation {
    pub status: PresentationStatus,
    pub heading: &'static str,
    pub explanation: Option<&'static str>,
    pub identity: Option<PresentationIdentity>,
}

/// Determinate progress: the played fraction (as IEEE 754 bits) and the
/// elapsed and remaining time texts.
#[derive(Clone, Debug, PartialEq, Eq)]
pub struct PresentationProgress {
    pub fraction_bits: u64,
    pub elapsed: String,
    pub remaining: String,
}

/// Indeterminate audio activity shown when timing is unavailable.
#[derive(Clone, Debug, PartialEq, Eq)]
pub struct PresentationActivity {
    pub waveform: PresentationActivityWaveform,
    pub heading: &'static str,
    pub detail: &'static str,
}

/// The waveform bars, with phase offsets in nanoseconds.
#[derive(Clone, Copy, Debug, PartialEq, Eq)]
pub struct PresentationActivityWaveform {
    pub reference_heights_percent: [u8; 7],
    pub minimum_scale_percent: u8,
    pub phase_offsets_nanos: [u128; 7],
    pub motion: PresentationActivityMotion,
}

#[derive(Clone, Copy, Debug, PartialEq, Eq, Structural)]
pub enum PresentationActivityMotion {
    AlternatingEaseInOut { period_nanos: u128 },
}

/// A pixel offset of the whole composition.
#[derive(Clone, Copy, Debug, Default, PartialEq, Eq, Structural)]
pub struct LayoutOffset {
    pub x: i32,
    pub y: i32,
}

/// Dimming and movement applied while a display is inactive. The opacity is
/// carried as the bit pattern of its IEEE 754 double value.
#[derive(Clone, Copy, Debug, PartialEq, Eq, Structural)]
pub struct InactivityTransform {
    pub opacity_bits: u64,
    pub offset: LayoutOffset,
}

impl InactivityTransform {
    /// Whether this is the resting transform: full opacity and no offset.
    pub open spec fn is_at_rest(self) -> bool {
        self.opacity_bits == FULL_OPACITY_BITS && self.offset.x == 0 && self.offset.y == 0
    }

    /// The resting transform: full opacity and no offset.
    pub fn at_rest() -> (transform: Self)
        ensures
            transform.is_at_rest(),
    {
        Self { opacity_bits: FULL_OPACITY_BITS, offset: LayoutOffset { x: 0, y: 0 } }
    }
}

/// Whether the Roon connection can present Now Playing content.
#[derive(Clone, Copy, Debug, PartialEq, Eq, Structural)]
pub enum Availability {
    PairingRequired,
    Disconnected,
    OutputUnavailable,
    Available,
}

/// The playback state of the tracked zone.
#[derive(Clone, Copy, Debug, PartialEq, Eq, Structural)]
pub enum Playback {
    Playing,
    Paused,
    Loading,
    Stopped,
}

/// The output being tracked.
#[derive(Clone, Debug, PartialEq, Eq)]
pub struct TrackedOutput {
    pub name: String,
}

/// The zone being tracked.
#[derive(Clone, Debug, PartialEq, Eq)]
pub struct TrackedZone {
    pub name: String,
}

/// An artwork file of a snapshot.
#[derive(Clone, Debug, PartialEq, Eq)]
pub struct ArtworkReference {
    pub revision: u64,
    pub path: String,
}

/// The Now Playing fields of a snapshot.
#[derive(Clone, Debug, PartialEq, Eq)]
pub struct NowPlaying {
    pub title: Option<String>,
    pub artist: Option<String>,
    pub album: Option<String>,
}

/// Whether a new presentation can replace the shown one in place or needs a
/// transition.
#[derive(Clone, Copy, Debug, PartialEq, Eq, Structural)]
pub enum PresentationUpdate {
    InPlace,
    TransitionRequired,
}

/// Whether the presentation follows the live clock or shows a still fixture.
#[derive(Clone, Copy, Debug, Default, PartialEq, Eq, Structural)]
pub enum PresentationBehavior {
    #[default]
    Dynamic,
    StaticFixture,
}

impl PresentationBehavior {
    /// Animations run only for a dynamic presentation on a system that has
    /// them enabled.
    pub fn animations_enabled(self, system_animations_enabled: bool) -> (enabled: bool)
        ensures
            enabled == (self == PresentationBehavior::Dynamic && system_animations_enabled),
    {
        match self {
            PresentationBehavior::Dynamic => system_animations_enabled,
            PresentationBehavior::StaticFixture => false,
        }
    }
}

/// The period of the Starting symbol's rotation: 1.8 seconds.
pub const STARTING_ROTATION_NANOS: u128 = 1_800_000_000;

/// The status shown for a playback state.
pub open spec fn playback_status(playback: Playback) -> PresentationStatus {
    match playback {
        Playback::Playing => PresentationStatus {
            label: "PLAYING",
            symbol: PresentationStatusSymbol::Playing,
            motion: PresentationStatusMotion::Static,
            emphasis: PresentationStatusEmphasis::FullAccent,
        },
        Playback::Paused => PresentationStatus {
            label: "PAUSED",
            symbol: PresentationStatusSymbol::Paused,
            motion: PresentationStatusMotion::Static,
            emphasis: PresentationStatusEmphasis::MutedAccent,
        },
        Playback::Loading => PresentationStatus {
            label: "STARTING",
            symbol: PresentationStatusSymbol::Starting,
            motion: PresentationStatusMotion::ContinuousRotation {
                period_nanos: STARTING_ROTATION_NANOS,
            },
            emphasis: PresentationStatusEmphasis::FullAccent,
        },
        Playback::Stopped => PresentationStatus {
            label: "IDLE",
            symbol: PresentationStatusSymbol::Idle,
            motion: PresentationStatusMotion::Static,
            emphasis: PresentationStatusEmphasis::MutedAccent,
        },
    }
}

/// The status shown for a playback state.
pub fn presentation_status_for_playback(playback: Playback) -> (status: PresentationStatus)
    ensures
        status == playback_status(playback),
{
    match playback {
        Playback::Playing => PresentationStatus {
            label: "PLAYING",
            symbol: PresentationStatusSymbol::Playing,
            motion: PresentationStatusMotion::Static,
            emphasis: PresentationStatusEmphasis::FullAccent,
        },
        Playback::Paused => PresentationStatus {
            label: "PAUSED",
            symbol: PresentationStatusSymbol::Paused,
            motion: PresentationStatusMotion::Static,
            emphasis: PresentationStatusEmphasis::MutedAccent,
        },
        Playback::Loading => PresentationStatus {
            label: "STARTING",
            symbol: PresentationStatusSymbol::Starting,
            motion: PresentationStatusMotion::ContinuousRotation {
                period_nanos: STARTING_ROTATION_NANOS,
            },
            emphasis: PresentationStatusEmphasis::FullAccent,
        },
        Playback::Stopped => PresentationStatus {
            label: "IDLE",
            symbol: PresentationStatusSymbol::Idle,
            motion: PresentationStatusMotion::Static,
            emphasis: PresentationStatusEmphasis::MutedAccent,
        },
    }
}

/// The status shown for a connection that cannot present Now Playing.
pub open spec fn availability_status(availability: Availability) -> PresentationStatus {
    let (label, symbol) = match availability {
        Availability::PairingRequired => ("PAIRING REQUIRED", PresentationStatusSymbol::PairingRequired),
        Availability::Disconnected => ("DISCONNECTED", PresentationStatusSymbol::Disconnected),
        _ => ("OUTPUT UNAVAILABLE", PresentationStatusSymbol::OutputUnavailable),
    };
    PresentationStatus {
        label,
        symbol,
        motion: PresentationStatusMotion::Static,
        emphasis: PresentationStatusEmphasis::FullAccent,
    }
}

/// Each connection that cannot present Now Playing is named by its own
/// status: pairing, a lost connection and an unavailable output each have
/// their own label and symbol, static and in full accent.
pub proof fn lemma_unavailable_statuses_name_their_cause(first: Availability, second: Availability)
    requires
        first != Availability::Available,
        second != Availability::Available,
    ensures
        availability_status(Availability::PairingRequired).label == "PAIRING REQUIRED",
        availability_status(Availability::PairingRequired).symbol
            == PresentationStatusSymbol::PairingRequired,
        availability_status(Availability::Disconnected).label == "DISCONNECTED",
        availability_status(Availability::Disconnected).symbol
            == PresentationStatusSymbol::Disconnected,
        availability_status(Availability::OutputUnavailable).label == "OUTPUT UNAVAILABLE",
        availability_status(Availability::OutputUnavailable).symbol
            == PresentationStatusSymbol::OutputUnavailable,
        availability_status(first).motion == PresentationStatusMotion::Static,
        availability_status(first).emphasis == PresentationStatusEmphasis::FullAccent,
        first != second ==> availability_status(first).symbol != availability_status(second).symbol,
{
}

/// Each playback state is named by its own status: playing and starting in
/// full accent, paused and idle muted, and only starting rotates, once every
/// 1.8 seconds.
pub proof fn lemma_playback_statuses_name_their_state(first: Playback, second: Playback)
    ensures
        playback_status(Playback::Playing).label == "PLAYING",
        playback_status(Playback::Playing).symbol == PresentationStatusSymbol::Playing,
        playback_status(Playback::Paused).label == "PAUSED",
        playback_status(Playback::Paused).symbol == PresentationStatusSymbol::Paused,
        playback_status(Playback::Loading).label == "STARTING",
        playback_status(Playback::Loading).symbol == PresentationStatusSymbol::Starting,
        playback_status(Playback::Stopped).label == "IDLE",
        playback_status(Playback::Stopped).symbol == PresentationStatusSymbol::Idle,
        playback_status(first).motion == if first == Playback::Loading {
            PresentationStatusMotion::ContinuousRotation { period_nanos: 1_800_000_000 }
        } else {
            PresentationStatusMotion::Static
        },
        playback_status(first).emphasis == if first == Playback::Playing || first
            == Playback::Loading {
            PresentationStatusEmphasis::FullAccent
        } else {
            PresentationStatusEmphasis::MutedAccent
        },
        first != second ==> playback_status(first).symbol != playback_status(second).symbol,
{
}

/// The status shown for a connection that cannot present Now Playing.
pub fn presentation_status_for_availability(availability: Availability) -> (status: PresentationStatus)
    requires
        availability != Availability::Available,
    ensures
        status == availability_status(availability),
{
    let (label, symbol) = match availability {
        Availability::PairingRequired => ("PAIRING REQUIRED", PresentationStatusSymbol::PairingRequired),
        Availability::Disconnected => ("DISCONNECTED", PresentationStatusSymbol::Disconnected),
        _ => ("OUTPUT UNAVAILABLE", PresentationStatusSymbol::OutputUnavailable),
    };
    PresentationStatus {
        label,
        symbol,
        motion: PresentationStatusMotion::Static,
        emphasis: PresentationStatusEmphasis::FullAccent,
    }
}

/// Whether a metadata value has a character other than white space.
pub open spec fn is_usable_text(text: Seq<char>) -> bool {
    exists|index: int| 0 <= index < text.len() && !is_white_space(#[trigger] text[index])
}

/// Whether a metadata value has a character other than white space.
pub fn is_usable_metadata_line(value: &str) -> (usable: bool)
    ensures
        usable == is_usable_text(value@),
{
    let length = value.unicode_len();
    let mut index: usize = 0;
    while index < length
        invariant
            length == value@.len(),
            index <= length,
            forall|earlier: int| 0 <= earlier < index ==> is_white_space(#[trigger] value@[earlier]),
        decreases length - index,
    {
        let c = value.get_char(index);
        if !(('\u{9}' <= c && c <= '\u{d}') || c == ' ' || c == '\u{85}' || c == '\u{a0}' || c
            == '\u{1680}' || ('\u{2000}' <= c && c <= '\u{200a}') || c == '\u{2028}' || c
            == '\u{2029}' || c == '\u{202f}' || c == '\u{205f}' || c == '\u{3000}') {
            return true;
        }
        index = index + 1;
    }
    false
}

/// The value, when it is usable.
pub open spec fn usable_line(value: Option<Seq<char>>) -> Option<Seq<char>> {
    match value {
        Some(text) => if is_usable_text(text) {
            Some(text)
        } else {
            None
        },
        None => None,
    }
}

/// The characters of an optional string.
pub open spec fn optional_text(value: Option<String>) -> Option<Seq<char>> {
    match value {
        Some(text) => Some(text@),
        None => None,
    }
}

/// The value as an owned string, when it is usable.
pub fn usable_metadata_line(value: Option<&str>) -> (line: Option<String>)
    ensures
        optional_text(line) == usable_line(
            match value {
                Some(text) => Some(text@),
                None => None,
            },
        ),
{
    match value {
        Some(text) => if is_usable_metadata_line(text) {
            Some(String::from_str(text))
        } else {
            None
        },
        None => None,
    }
}

impl NowPlayingPresentation {
    /// Whether Title, Artist or Album is usable.
    pub fn has_usable_metadata(&self) -> (usable: bool)
        ensures
            usable == ((self.title matches Some(text) && is_usable_text(text@)) || (
            self.artist matches Some(text) && is_usable_text(text@)) || (self.album matches Some(
                text,
            ) && is_usable_text(text@))),
    {
        let title = match &self.title {
            Some(text) => is_usable_metadata_line(text.as_str()),
            None => false,
        };
        let artist = match &self.artist {
            Some(text) => is_usable_metadata_line(text.as_str()),
            None => false,
        };
        let album = match &self.album {
            Some(text) => is_usable_metadata_line(text.as_str()),
            None => false,
        };
        title || artist || album
    }
}

/// The activity shown while audio plays without timing: a seven-bar
/// waveform easing in and out over 1.1 seconds.
pub open spec fn indeterminate_activity_spec() -> PresentationActivity {
    PresentationActivity {
        waveform: PresentationActivityWaveform {
            reference_heights_percent: [30, 70, 100, 48, 100, 70, 30],
            minimum_scale_percent: 28,
            phase_offsets_nanos: [
                0,
                90_000_000,
                180_000_000,
                270_000_000,
                360_000_000,
                450_000_000,
                540_000_000,
            ],
            motion: PresentationActivityMotion::AlternatingEaseInOut { period_nanos: 1_100_000_000 },
        },
        heading: "Audio active",
        detail: "Timing unavailable",
    }
}

/// The activity shown while audio plays without timing.
pub fn indeterminate_activity() -> (activity: PresentationActivity)
    ensures
        activity == indeterminate_activity_spec(),
{
    PresentationActivity {
        waveform: PresentationActivityWaveform {
            reference_heights_percent: [30, 70, 100, 48, 100, 70, 30],
            minimum_scale_percent: 28,
            phase_offsets_nanos: [
                0,
                90_000_000,
                180_000_000,
                270_000_000,
                360_000_000,
                450_000_000,
                540_000_000,
            ],
            motion: PresentationActivityMotion::AlternatingEaseInOut { period_nanos: 1_100_000_000 },
        },
        heading: "Audio active",
        detail: "Timing unavailable",
    }
}

/// A full-field message naming the tracked output and zone.
pub fn available_full_field(
    status: PresentationStatus,
    heading: &'static str,
    tracked_output: &TrackedOutput,
    tracked_zone: &TrackedZone,
) -> (presentation: FullFieldPresentation)
    ensures
        presentation.status == status,
        presentation.heading == heading,
        presentation.explanation is None,
        presentation.identity matches Some(PresentationIdentity::OutputAndZone {
            tracked_output: output,
            tracked_zone: zone,
        }) && output@ == tracked_output.name@ && zone@ == tracked_zone.name@,
{
    FullFieldPresentation {
        status,
        heading,
        explanation: None,
        identity: Some(
            PresentationIdentity::OutputAndZone {
                tracked_output: tracked_output.name.clone(),
                tracked_zone: tracked_zone.name.clone(),
            },
        ),
    }
}

/// The full-field message shown in place of Now Playing content that has
/// no usable metadata: "Preparing playback" while starting, else "Now
/// Playing details unavailable", with the output and zone.
pub fn trackless_full_field(presentation: &NowPlayingPresentation) -> (full_field: FullFieldPresentation)
    requires
        presentation.status.symbol == PresentationStatusSymbol::Starting
            || presentation.status.symbol == PresentationStatusSymbol::Paused
            || presentation.status.symbol == PresentationStatusSymbol::Playing,
    ensures
        full_field.status == presentation.status,
        full_field.heading == if presentation.status.symbol == PresentationStatusSymbol::Starting {
            "Preparing playback"
        } else {
            "Now Playing details unavailable"
        },
        full_field.explanation is None,
        full_field.identity matches Some(PresentationIdentity::OutputAndZone {
            tracked_output: output,
            tracked_zone: zone,
        }) && output@ == presentation.tracked_output@ && zone@ == presentation.tracked_zone@,
{
    let heading = match presentation.status.symbol {
        PresentationStatusSymbol::Starting => "Preparing playback",
        _ => "Now Playing details unavailable",
    };
    FullFieldPresentation {
        status: presentation.status,
        heading,
        explanation: None,
        identity: Some(
            PresentationIdentity::OutputAndZone {
                tracked_output: presentation.tracked_output.clone(),
                tracked_zone: presentation.tracked_zone.clone(),
            },
        ),
    }
}

/// The heading, explanation and identity shown for a connection that cannot
/// present Now Playing.
pub open spec fn unavailable_spec(
    availability: Availability,
    tracked_output: Option<Seq<char>>,
    presentation: FullFieldPresentation,
) -> bool {
    &&& presentation.status == availability_status(availability)
    &&& match availability {
        Availability::PairingRequired => {
            &&& presentation.heading == "Enable RoonScape"
            &&& presentation.explanation == Some(
                "In a Roon client, open Settings \u{2192} Extensions and enable RoonScape.",
            )
            &&& presentation.identity is None
        },
        Availability::Disconnected => {
            &&& presentation.heading == "Waiting for Roon"
            &&& presentation.explanation == Some("Check Roon Server and the network.")
            &&& presentation.identity is None
        },
        _ => {
            &&& presentation.heading == "Check the selected output"
            &&& presentation.explanation == Some(
                "Open RoonScape setup to choose another Tracked Output, or make the selected output available in Roon.",
            )
            &&& match tracked_output {
                Some(name) => presentation.identity matches Some(
                    PresentationIdentity::OutputOnly { tracked_output: output },
                ) && output@ == name,
                None => presentation.identity is None,
            }
        },
    }
}

/// The full-field message for a connection that cannot present Now Playing.
pub fn unavailable_presentation(
    availability: Availability,
    tracked_output: Option<&TrackedOutput>,
) -> (presentation: FullFieldPresentation)
    requires
        availability != Availability::Available,
    ensures
        unavailable_spec(
            availability,
            match tracked_output {
                Some(output) => Some(output.name@),
                None => None,
            },
            presentation,
        ),
{
    let status = presentation_status_for_availability(availability);
    match availability {
        Availability::PairingRequired => FullFieldPresentation {
            status,
            heading: "Enable RoonScape",
            explanation: Some("In a Roon client, open Settings \u{2192} Extensions and enable RoonScape."),
            identity: None,
        },
        Availability::Disconnected => FullFieldPresentation {
            status,
            heading: "Waiting for Roon",
            explanation: Some("Check Roon Server and the network."),
            identity: None,
        },
        _ => FullFieldPresentation {
            status,
            heading: "Check the selected output",
            explanation: Some(
                "Open RoonScape setup to choose another Tracked Output, or make the selected output available in Roon.",
            ),
            identity: match tracked_output {
                Some(output) => Some(
                    PresentationIdentity::OutputOnly { tracked_output: output.name.clone() },
                ),
                None => None,
            },
        },
    }
}

// ---------------------------------------------------------------------------
// Classifying updates
// ---------------------------------------------------------------------------
/// Whether two optional strings have the same characters.
pub open spec fn same_optional_text(first: Option<String>, second: Option<String>) -> bool {
    optional_text(first) == optional_text(second)
}

fn optional_texts_match(first: &Option<String>, second: &Option<String>) -> (same: bool)
    ensures
        same == same_optional_text(*first, *second),
{
    match (first, second) {
        (Some(left), Some(right)) => same_text(left.as_str(), right.as_str()),
        (None, None) => true,
        _ => false,
    }
}

/// Whether two identities name the same output and zone.
pub open spec fn same_identity(first: Option<PresentationIdentity>, second: Option<PresentationIdentity>) -> bool {
    match (first, second) {
        (None, None) => true,
        (
            Some(PresentationIdentity::OutputAndZone { tracked_output: left_output, tracked_zone: left_zone }),
            Some(PresentationIdentity::OutputAndZone { tracked_output: right_output, tracked_zone: right_zone }),
        ) => left_output@ == right_output@ && left_zone@ == right_zone@,
        (
            Some(PresentationIdentity::OutputOnly { tracked_output: left_output }),
            Some(PresentationIdentity::OutputOnly { tracked_output: right_output }),
        ) => left_output@ == right_output@,
        _ => false,
    }
}

fn identities_match(first: &Option<PresentationIdentity>, second: &Option<PresentationIdentity>) -> (same: bool)
    ensures
        same == same_identity(*first, *second),
{
    match (first, second) {
        (None, None) => true,
        (
            Some(PresentationIdentity::OutputAndZone { tracked_output: left_output, tracked_zone: left_zone }),
            Some(PresentationIdentity::OutputAndZone { tracked_output: right_output, tracked_zone: right_zone }),
        ) => same_text(left_output.as_str(), right_output.as_str()) && same_text(
            left_zone.as_str(),
            right_zone.as_str(),
        ),
        (
            Some(PresentationIdentity::OutputOnly { tracked_output: left_output }),
            Some(PresentationIdentity::OutputOnly { tracked_output: right_output }),
        ) => same_text(left_output.as_str(), right_output.as_str()),
        _ => false,
    }
}

/// Whether two optional static texts have the same characters.
pub open spec fn same_optional_static(first: Option<&'static str>, second: Option<&'static str>) -> bool {
    match (first, second) {
        (None, None) => true,
        (Some(left), Some(right)) => left@ == right@,
        _ => false,
    }
}

fn optional_statics_match(first: Option<&'static str>, second: Option<&'static str>) -> (same: bool)
    ensures
        same == same_optional_static(first, second),
{
    match (first, second) {
        (None, None) => true,
        (Some(left), Some(right)) => same_text(left, right),
        _ => false,
    }
}

/// Whether two activities show the same waveform and texts.
pub open spec fn same_activity(first: Option<Box<PresentationActivity>>, second: Option<Box<PresentationActivity>>) -> bool {
    match (first, second) {
        (None, None) => true,
        (Some(left), Some(right)) => {
            &&& same_waveform(left.waveform, right.waveform)
            &&& left.heading@ == right.heading@
            &&& left.detail@ == right.detail@
        },
        _ => false,
    }
}

/// Whether two waveforms have the same bars, scale and motion.
pub open spec fn same_waveform(first: PresentationActivityWaveform, second: PresentationActivityWaveform) -> bool {
    &&& first.reference_heights_percent@ == second.reference_heights_percent@
    &&& first.minimum_scale_percent == second.minimum_scale_percent
    &&& first.phase_offsets_nanos@ == second.phase_offsets_nanos@
    &&& first.motion == second.motion
}

fn waveforms_match(first: &PresentationActivityWaveform, second: &PresentationActivityWaveform) -> (same: bool)
    ensures
        same == same_waveform(*first, *second),
{
    let mut index: usize = 0;
    while index < 7
        invariant
            index <= 7,
            forall|earlier: int| 0 <= earlier < index ==> first.reference_heights_percent@[earlier]
                == second.reference_heights_percent@[earlier] && first.phase_offsets_nanos@[earlier]
                == second.phase_offsets_nanos@[earlier],
        decreases 7 - index,
    {
        if first.reference_heights_percent[index] != second.reference_heights_percent[index]
            || first.phase_offsets_nanos[index] != second.phase_offsets_nanos[index] {
            assert(first.reference_heights_percent@[index as int] != second.reference_heights_percent@[index as int]
                || first.phase_offsets_nanos@[index as int] != second.phase_offsets_nanos@[index as int]);
            return false;
        }
        index = index + 1;
    }
    assert(first.reference_heights_percent@ =~= second.reference_heights_percent@);
    assert(first.phase_offsets_nanos@ =~= second.phase_offsets_nanos@);
    first.minimum_scale_percent == second.minimum_scale_percent && first.motion == second.motion
}

fn activities_match(first: &Option<Box<PresentationActivity>>, second: &Option<Box<PresentationActivity>>) -> (same: bool)
    ensures
        same == same_activity(*first, *second),
{
    match (first, second) {
        (None, None) => true,
        (Some(left), Some(right)) => waveforms_match(&left.waveform, &right.waveform) && same_text(
            left.heading,
            right.heading,
        ) && same_text(left.detail, right.detail),
        _ => false,
    }
}

/// Whether replacing `previous` by `next` needs no transition: both show
/// Now Playing content that differs only in status, in progress that is
/// present in both, and in lyrics present in both; or both show full-field
/// messages that differ only in status.
pub open spec fn updates_in_place(previous: Presentation, next: Presentation) -> bool {
    match (previous, next) {
        (Presentation::NowPlaying(left), Presentation::NowPlaying(right)) => {
            &&& same_optional_text(left.title, right.title)
            &&& same_optional_text(left.artist, right.artist)
            &&& same_optional_text(left.album, right.album)
            &&& left.tracked_output@ == right.tracked_output@
            &&& left.tracked_zone@ == right.tracked_zone@
            &&& (left.progress is Some <==> right.progress is Some)
            &&& same_activity(left.activity, right.activity)
            &&& left.artwork_revision == right.artwork_revision
            &&& same_optional_text(left.artwork_path, right.artwork_path)
            &&& (left.lyrics is Some <==> right.lyrics is Some)
        },
        (Presentation::FullField(left), Presentation::FullField(right)) => {
            &&& left.heading@ == right.heading@
            &&& same_optional_static(left.explanation, right.explanation)
            &&& same_identity(left.identity, right.identity)
        },
        _ => false,
    }
}

/// Whether `next` can replace `previous` in place or needs a transition.
pub fn classify_presentation_update(previous: &Presentation, next: &Presentation) -> (update: PresentationUpdate)
    ensures
        update == if updates_in_place(*previous, *next) {
            PresentationUpdate::InPlace
        } else {
            PresentationUpdate::TransitionRequired
        },
{
    let same = match (previous, next) {
        (Presentation::NowPlaying(left), Presentation::NowPlaying(right)) => {
            optional_texts_match(&left.title, &right.title) && optional_texts_match(
                &left.artist,
                &right.artist,
            ) && optional_texts_match(&left.album, &right.album) && same_text(
                left.tracked_output.as_str(),
                right.tracked_output.as_str(),
            ) && same_text(left.tracked_zone.as_str(), right.tracked_zone.as_str())
                && left.progress.is_some() == right.progress.is_some() && activities_match(
                &left.activity,
                &right.activity,
            ) && left.artwork_revision == right.artwork_revision && optional_texts_match(
                &left.artwork_path,
                &right.artwork_path,
            ) && left.lyrics.is_some() == right.lyrics.is_some()
        },
        (Presentation::FullField(left), Presentation::FullField(right)) => {
            same_text(left.heading, right.heading) && optional_statics_match(
                left.explanation,
                right.explanation,
            ) && identities_match(&left.identity, &right.identity)
        },
        _ => false,
    };
    if same {
        PresentationUpdate::InPlace
    } else {
        PresentationUpdate::TransitionRequired
    }
}

/// A presentation replaced by itself needs no transition.
pub proof fn lemma_same_presentation_updates_in_place(presentation: Presentation)
    ensures
        updates_in_place(presentation, presentation),
{
}

/// Whether the update is in place does not depend on the order of the two
/// presentations.
pub proof fn lemma_in_place_is_symmetric(previous: Presentation, next: Presentation)
    ensures
        updates_in_place(previous, next) == updates_in_place(next, previous),
{
}

// ---------------------------------------------------------------------------
// Inactivity
// ---------------------------------------------------------------------------
/// The eight positions an inactive composition visits in turn, each within
/// the inactive movement envelope.
pub open spec fn inactive_position(index: int) -> LayoutOffset {
    if index == 0 {
        LayoutOffset { x: (-INACTIVE_HORIZONTAL_BOUND) as i32, y: (-INACTIVE_VERTICAL_BOUND) as i32 }
    } else if index == 1 {
        LayoutOffset { x: 12, y: 8 }
    } else if index == 2 {
        LayoutOffset { x: (-8) as i32, y: INACTIVE_VERTICAL_BOUND }
    } else if index == 3 {
        LayoutOffset { x: INACTIVE_HORIZONTAL_BOUND, y: (-6) as i32 }
    } else if index == 4 {
        LayoutOffset { x: 6, y: (-INACTIVE_VERTICAL_BOUND) as i32 }
    } else if index == 5 {
        LayoutOffset { x: (-INACTIVE_HORIZONTAL_BOUND) as i32, y: 4 }
    } else if index == 6 {
        LayoutOffset { x: 16, y: INACTIVE_VERTICAL_BOUND }
    } else {
        LayoutOffset { x: (-4) as i32, y: (-10) as i32 }
    }
}

/// The position an inactive composition takes `index` steps after its grace
/// period.
pub fn inactive_position_at(index: u128) -> (offset: LayoutOffset)
    requires
        index < 8,
    ensures
        offset == inactive_position(index as int),
{
    match index {
        0 => LayoutOffset { x: -INACTIVE_HORIZONTAL_BOUND, y: -INACTIVE_VERTICAL_BOUND },
        1 => LayoutOffset { x: 12, y: 8 },
        2 => LayoutOffset { x: -8, y: INACTIVE_VERTICAL_BOUND },
        3 => LayoutOffset { x: INACTIVE_HORIZONTAL_BOUND, y: -6 },
        4 => LayoutOffset { x: 6, y: -INACTIVE_VERTICAL_BOUND },
        5 => LayoutOffset { x: -INACTIVE_HORIZONTAL_BOUND, y: 4 },
        6 => LayoutOffset { x: 16, y: INACTIVE_VERTICAL_BOUND },
        _ => LayoutOffset { x: -4, y: -10 },
    }
}

/// How a display is transformed `inactive_for_nanos` after it became
/// inactive: at rest for a still fixture, for an active display and during
/// the grace period; after it, dimmed to `dimmed_opacity_bits` and moved to
/// the next of the eight positions every `cadence_nanos`.
pub open spec fn inactivity_transform_spec(
    behavior: PresentationBehavior,
    inactive: bool,
    inactive_for_nanos: u128,
    grace_nanos: u128,
    cadence_nanos: u128,
    dimmed_opacity_bits: u64,
) -> InactivityTransform {
    if behavior == PresentationBehavior::StaticFixture || !inactive || inactive_for_nanos
        < grace_nanos {
        InactivityTransform {
            opacity_bits: FULL_OPACITY_BITS,
            offset: LayoutOffset { x: 0, y: 0 },
        }
    } else {
        InactivityTransform {
            opacity_bits: dimmed_opacity_bits,
            offset: inactive_position((((inactive_for_nanos - grace_nanos) as u128 / cadence_nanos) % 8) as int),
        }
    }
}

/// How a display is transformed after a time of inactivity; see
/// `inactivity_transform_spec`.
pub fn inactivity_transform_at(
    behavior: PresentationBehavior,
    inactive: bool,
    inactive_for_nanos: u128,
    grace_nanos: u128,
    cadence_nanos: u128,
    dimmed_opacity_bits: u64,
) -> (transform: InactivityTransform)
    requires
        cadence_nanos > 0,
    ensures
        transform == inactivity_transform_spec(
            behavior,
            inactive,
            inactive_for_nanos,
            grace_nanos,
            cadence_nanos,
            dimmed_opacity_bits,
        ),
{
    if behavior == PresentationBehavior::StaticFixture || !inactive || inactive_for_nanos
        < grace_nanos {
        return InactivityTransform::at_rest();
    }
    let repositioning_for = inactive_for_nanos - grace_nanos;
    let index = (repositioning_for / cadence_nanos) % 8;
    InactivityTransform { opacity_bits: dimmed_opacity_bits, offset: inactive_position_at(index) }
}

/// Every inactive position stays within the inactive movement envelope, so
/// the layout's inactive margins always hold the composition.
pub proof fn lemma_inactive_offsets_within_bounds(
    behavior: PresentationBehavior,
    inactive: bool,
    inactive_for_nanos: u128,
    grace_nanos: u128,
    cadence_nanos: u128,
    dimmed_opacity_bits: u64,
)
    requires
        cadence_nanos > 0,
    ensures
        ({
            let offset = inactivity_transform_spec(
                behavior,
                inactive,
                inactive_for_nanos,
                grace_nanos,
                cadence_nanos,
                dimmed_opacity_bits,
            ).offset;
            &&& -INACTIVE_HORIZONTAL_BOUND <= offset.x <= INACTIVE_HORIZONTAL_BOUND
            &&& -INACTIVE_VERTICAL_BOUND <= offset.y <= INACTIVE_VERTICAL_BOUND
        }),
{
}

/// Why a display is inactive: the connection cannot present, or playback
/// is paused or stopped.
#[derive(Clone, Copy, Debug, PartialEq, Eq, Structural)]
pub enum InactivityCondition {
    Unavailable(Availability),
    Paused,
    Stopped,
}

/// Why a display with this availability and playback is inactive, if it is.
pub fn inactivity_condition(availability: Availability, playback: Option<Playback>) -> (condition: Option<InactivityCondition>)
    ensures
        condition == if availability != Availability::Available {
            Some(InactivityCondition::Unavailable(availability))
        } else {
            match playback {
                Some(Playback::Paused) => Some(InactivityCondition::Paused),
                Some(Playback::Stopped) => Some(InactivityCondition::Stopped),
                _ => None,
            }
        },
{
    if availability != Availability::Available {
        return Some(InactivityCondition::Unavailable(availability));
    }
    match playback {
        Some(Playback::Paused) => Some(InactivityCondition::Paused),
        Some(Playback::Stopped) => Some(InactivityCondition::Stopped),
        _ => None,
    }
}

// ---------------------------------------------------------------------------
// Known Now Playing fields
// ---------------------------------------------------------------------------
/// The usable Now Playing fields seen so far.
#[derive(Clone, Debug)]
pub struct KnownNowPlaying {
    pub title: Option<String>,
    pub artist: Option<String>,
    pub album: Option<String>,
}

/// Whether two optional values can describe the same song: either is
/// unknown, or they agree.
pub open spec fn compatible_field(first: Option<String>, second: Option<String>) -> bool {
    first is None || second is None || same_optional_text(first, second)
}

/// The second value when it is known, else the first.
pub open spec fn enriched_field(first: Option<String>, second: Option<String>) -> Option<Seq<char>> {
    match second {
        Some(text) => Some(text@),
        None => optional_text(first),
    }
}

fn field_compatible(first: &Option<String>, second: &Option<String>) -> (compatible: bool)
    ensures
        compatible == compatible_field(*first, *second),
{
    match (first, second) {
        (Some(left), Some(right)) => same_text(left.as_str(), right.as_str()),
        _ => true,
    }
}

impl KnownNowPlaying {
    /// The usable fields of a snapshot's Now Playing.
    pub fn from_now_playing(now_playing: &NowPlaying) -> (known: Self)
        ensures
            optional_text(known.title) == usable_line(optional_text(now_playing.title)),
            optional_text(known.artist) == usable_line(optional_text(now_playing.artist)),
            optional_text(known.album) == usable_line(optional_text(now_playing.album)),
    {
        Self {
            title: usable_optional(&now_playing.title),
            artist: usable_optional(&now_playing.artist),
            album: usable_optional(&now_playing.album),
        }
    }

    /// Whether the two could describe the same song: no field known to both
    /// differs.
    pub fn is_compatible_with(&self, other: &Self) -> (compatible: bool)
        ensures
            compatible == (compatible_field(self.title, other.title) && compatible_field(
                self.artist,
                other.artist,
            ) && compatible_field(self.album, other.album)),
    {
        field_compatible(&self.title, &other.title) && field_compatible(&self.artist, &other.artist)
            && field_compatible(&self.album, &other.album)
    }

    /// The other's fields, with this one's where the other does not know
    /// them.
    pub fn enriched_with(self, other: Self) -> (enriched: Self)
        ensures
            optional_text(enriched.title) == enriched_field(self.title, other.title),
            optional_text(enriched.artist) == enriched_field(self.artist, other.artist),
            optional_text(enriched.album) == enriched_field(self.album, other.album),
    {
        Self {
            title: match other.title {
                Some(text) => Some(text),
                None => self.title,
            },
            artist: match other.artist {
                Some(text) => Some(text),
                None => self.artist,
            },
            album: match other.album {
                Some(text) => Some(text),
                None => self.album,
            },
        }
    }
}

fn usable_optional(value: &Option<String>) -> (line: Option<String>)
    ensures
        optional_text(line) == usable_line(optional_text(*value)),
{
    match value {
        Some(text) => usable_metadata_line(Some(text.as_str())),
        None => None,
    }
}

/// The grace given to a song whose timing is still provisional: five
/// seconds.
pub const PROVISIONAL_TIMING_GRACE_NANOS: u128 = 5_000_000_000;

/// Whether provisional timing is awaited, and since when.
#[derive(Clone, Copy, Debug, PartialEq, Eq, Structural)]
pub enum TimingGrace {
    Ready,
    Active { started_at_nanos: u128 },
    Expired,
}

/// The time since `started_at_nanos`, zero when the clock reads earlier.
pub open spec fn elapsed_since(now_nanos: u128, started_at_nanos: u128) -> u128 {
    if now_nanos >= started_at_nanos {
        (now_nanos - started_at_nanos) as u128
    } else {
        0
    }
}

impl TimingGrace {
    /// Whether the grace is running at `now_nanos`.
    pub fn is_active_at(self, now_nanos: u128) -> (active: bool)
        ensures
            active == (self matches TimingGrace::Active { started_at_nanos } && elapsed_since(
                now_nanos,
                started_at_nanos,
            ) < PROVISIONAL_TIMING_GRACE_NANOS),
    {
        match self {
            TimingGrace::Active { started_at_nanos } => now_nanos.saturating_sub(started_at_nanos)
                < PROVISIONAL_TIMING_GRACE_NANOS,
            _ => false,
        }
    }

    /// Whether a running grace has run out at `now_nanos`.
    pub fn has_expired_at(self, now_nanos: u128) -> (expired: bool)
        ensures
            expired == (self matches TimingGrace::Active { started_at_nanos } && elapsed_since(
                now_nanos,
                started_at_nanos,
            ) >= PROVISIONAL_TIMING_GRACE_NANOS),
    {
        match self {
            TimingGrace::Active { started_at_nanos } => now_nanos.saturating_sub(started_at_nanos)
                >= PROVISIONAL_TIMING_GRACE_NANOS,
            _ => false,
        }
    }
}

// ---------------------------------------------------------------------------
// Presentations of snapshots
// ---------------------------------------------------------------------------
/// Why a snapshot has no presentation.
#[derive(Clone, Copy, Debug, PartialEq, Eq)]
pub struct PresentationError(pub &'static str);

/// The parts of a snapshot a presentation is made of. The timing-derived
/// parts (progress, lyrics, and whether both position and duration are
/// known) are computed from the snapshot's clock readings by the caller.
pub struct SnapshotParts<'a> {
    pub availability: Availability,
    pub playback: Option<Playback>,
    pub tracked_output: Option<&'a TrackedOutput>,
    pub tracked_zone: Option<&'a TrackedZone>,
    pub now_playing: Option<&'a NowPlaying>,
    pub artwork: Option<&'a ArtworkReference>,
    pub progress: Option<PresentationProgress>,
    pub timing_complete: bool,
    pub lyrics: Option<LyricPresentation>,
}

/// A Now Playing field of the snapshot, when there is Now Playing content.
pub open spec fn snapshot_field(now_playing: Option<&NowPlaying>, field: int) -> Option<Seq<char>> {
    match now_playing {
        Some(fields) => optional_text(
            if field == 0 {
                fields.title
            } else if field == 1 {
                fields.artist
            } else {
                fields.album
            },
        ),
        None => None,
    }
}

/// The presentation of a snapshot: an unavailable connection shows its
/// full-field message; an available one needs playback, output and zone
/// (else an error); a stopped zone shows "Nothing is playing"; otherwise Now
/// Playing content with the usable metadata, the playback status, the
/// progress, an activity while playing without complete timing, the artwork
/// and the lyrics — or, with neither usable metadata nor artwork, the
/// trackless full-field message.
pub open spec fn presentation_of(parts: SnapshotParts, result: Result<Presentation, PresentationError>) -> bool {
    if parts.availability != Availability::Available {
        result matches Ok(Presentation::FullField(full_field)) && unavailable_spec(
            parts.availability,
            match parts.tracked_output {
                Some(output) => Some(output.name@),
                None => None,
            },
            full_field,
        )
    } else if parts.playback is None {
        result == Err::<Presentation, PresentationError>(
            PresentationError("an available snapshot requires playback state"),
        )
    } else if parts.tracked_output is None {
        result == Err::<Presentation, PresentationError>(
            PresentationError("an available snapshot requires a Tracked Output"),
        )
    } else if parts.tracked_zone is None {
        result == Err::<Presentation, PresentationError>(
            PresentationError("an available snapshot requires a Tracked Zone"),
        )
    } else {
        let playback = parts.playback->0;
        let output = parts.tracked_output->0;
        let zone = parts.tracked_zone->0;
        if playback == Playback::Stopped {
            result matches Ok(Presentation::FullField(full_field)) && {
                &&& full_field.status == playback_status(playback)
                &&& full_field.heading == "Nothing is playing"
                &&& full_field.explanation is None
                &&& full_field.identity matches Some(PresentationIdentity::OutputAndZone {
                    tracked_output: shown_output,
                    tracked_zone: shown_zone,
                }) && shown_output@ == output.name@ && shown_zone@ == zone.name@
            }
        } else {
            let title = usable_line(snapshot_field(parts.now_playing, 0));
            let artist = usable_line(snapshot_field(parts.now_playing, 1));
            let album = usable_line(snapshot_field(parts.now_playing, 2));
            let usable = title is Some || artist is Some || album is Some;
            if !usable && parts.artwork is None {
                result matches Ok(Presentation::FullField(full_field)) && {
                    &&& full_field.status == playback_status(playback)
                    &&& full_field.heading == if playback == Playback::Loading {
                        "Preparing playback"
                    } else {
                        "Now Playing details unavailable"
                    }
                    &&& full_field.explanation is None
                    &&& full_field.identity matches Some(PresentationIdentity::OutputAndZone {
                        tracked_output: shown_output,
                        tracked_zone: shown_zone,
                    }) && shown_output@ == output.name@ && shown_zone@ == zone.name@
                }
            } else {
                result matches Ok(Presentation::NowPlaying(shown)) && {
                    &&& optional_text(shown.title) == title
                    &&& optional_text(shown.artist) == artist
                    &&& optional_text(shown.album) == album
                    &&& shown.tracked_output@ == output.name@
                    &&& shown.tracked_zone@ == zone.name@
                    &&& shown.status == playback_status(playback)
                    &&& shown.progress == parts.progress
                    &&& (shown.activity is Some <==> (playback == Playback::Playing
                        && !parts.timing_complete))
                    &&& (shown.activity matches Some(activity) ==> *activity
                        == indeterminate_activity_spec())
                    &&& shown.artwork_revision == match parts.artwork {
                        Some(artwork) => Some(artwork.revision),
                        None => None::<u64>,
                    }
                    &&& optional_text(shown.artwork_path) == match parts.artwork {
                        Some(artwork) => Some(artwork.path@),
                        None => None::<Seq<char>>,
                    }
                    &&& shown.lyrics == match parts.lyrics {
                        Some(lyrics) => Some(Box::new(lyrics)),
                        None => None::<Box<LyricPresentation>>,
                    }
                }
            }
        }
    }
}

fn snapshot_line(now_playing: Option<&NowPlaying>, field: usize) -> (line: Option<String>)
    requires
        field < 3,
    ensures
        optional_text(line) == usable_line(snapshot_field(now_playing, field as int)),
{
    match now_playing {
        Some(fields) => {
            let value = if field == 0 {
                &fields.title
            } else if field == 1 {
                &fields.artist
            } else {
                &fields.album
            };
            usable_optional(value)
        },
        None => None,
    }
}

/// The presentation of a snapshot; see `presentation_of`.
pub fn presentation_from_parts(parts: SnapshotParts) -> (result: Result<Presentation, PresentationError>)
    ensures
        presentation_of(parts, result),
{
    if parts.availability != Availability::Available {
        return Ok(
            Presentation::FullField(unavailable_presentation(parts.availability, parts.tracked_output)),
        );
    }
    let playback = match parts.playback {
        Some(playback) => playback,
        None => {
            return Err(PresentationError("an available snapshot requires playback state"));
        },
    };
    let tracked_output = match parts.tracked_output {
        Some(output) => output,
        None => {
            return Err(PresentationError("an available snapshot requires a Tracked Output"));
        },
    };
    let tracked_zone = match parts.tracked_zone {
        Some(zone) => zone,
        None => {
            return Err(PresentationError("an available snapshot requires a Tracked Zone"));
        },
    };
    if playback == Playback::Stopped {
        return Ok(
            Presentation::FullField(
                available_full_field(
                    presentation_status_for_playback(playback),
                    "Nothing is playing",
                    tracked_output,
                    tracked_zone,
                ),
            ),
        );
    }
    let activity = if playback == Playback::Playing && !parts.timing_complete {
        Some(Box::new(indeterminate_activity()))
    } else {
        None
    };
    let now_playing = NowPlayingPresentation {
        title: snapshot_line(parts.now_playing, 0),
        artist: snapshot_line(parts.now_playing, 1),
        album: snapshot_line(parts.now_playing, 2),
        tracked_output: tracked_output.name.clone(),
        tracked_zone: tracked_zone.name.clone(),
        status: presentation_status_for_playback(playback),
        progress: parts.progress,
        activity,
        artwork_revision: match parts.artwork {
            Some(artwork) => Some(artwork.revision),
            None => None,
        },
        artwork_path: match parts.artwork {
            Some(artwork) => Some(artwork.path.clone()),
            None => None,
        },
        lyrics: match parts.lyrics {
            Some(lyrics) => Some(Box::new(lyrics)),
            None => None,
        },
    };
    if !now_playing.has_usable_metadata() && now_playing.artwork_path.is_none() {
        return Ok(Presentation::FullField(trackless_full_field(&now_playing)));
    }
    Ok(Presentation::NowPlaying(now_playing))
}

// ---------------------------------------------------------------------------
// Lyric cues
// ---------------------------------------------------------------------------
/// The last cue before `index` whose text is usable.
pub open spec fn last_usable_before(texts: Seq<Seq<char>>, index: int) -> Option<int>
    decreases index,
{
    if index <= 0 {
        None
    } else if is_usable_text(texts[index - 1]) {
        Some(index - 1)
    } else {
        last_usable_before(texts, index - 1)
    }
}

/// The first cue from `index` on whose text is usable.
pub open spec fn first_usable_from(texts: Seq<Seq<char>>, index: int) -> Option<int>
    decreases texts.len() - index,
{
    if index >= texts.len() || index < 0 {
        None
    } else if is_usable_text(texts[index]) {
        Some(index)
    } else {
        first_usable_from(texts, index + 1)
    }
}

/// The characters of each string.
pub open spec fn string_texts(strings: Seq<String>) -> Seq<Seq<char>> {
    Seq::new(strings.len(), |index: int| strings[index]@)
}

/// The lyric presentation around cue `current_index`: the last usable cue
/// before it, and the first usable cue after it, which shows while the
/// current cue is usable or once it starts within the preparation window
/// (`near`).
pub open spec fn lyric_neighbours(
    texts: Seq<Seq<char>>,
    current_index: int,
    near: Seq<bool>,
) -> (Option<Seq<char>>, Option<Seq<char>>) {
    let previous = match last_usable_before(texts, current_index) {
        Some(index) => Some(texts[index]),
        None => None,
    };
    let next = match first_usable_from(texts, current_index + 1) {
        Some(index) => if is_usable_text(texts[current_index]) || near[index] {
            Some(texts[index])
        } else {
            None
        },
        None => None,
    };
    (previous, next)
}

/// The lyric presentation of cue `current_index` of `cues`; `near` says of
/// each cue whether it starts within the preparation window.
pub fn lyric_presentation_at(
    cues: &Vec<String>,
    current_index: usize,
    near: &Vec<bool>,
) -> (lyrics: LyricPresentation)
    requires
        current_index < cues.len(),
        near.len() == cues.len(),
    ensures
        lyrics.current_index == current_index,
        lyrics.current@ == cues@[current_index as int]@,
        (optional_text(lyrics.previous), optional_text(lyrics.next)) == lyric_neighbours(
            string_texts(cues@),
            current_index as int,
            near@,
        ),
{
    let ghost texts = string_texts(cues@);
    let mut before = current_index;
    while before > 0 && !is_usable_metadata_line(cues[before - 1].as_str())
        invariant
            before <= current_index < cues.len(),
            texts == string_texts(cues@),
            last_usable_before(texts, before as int) == last_usable_before(
                texts,
                current_index as int,
            ),
        decreases before,
    {
        before = before - 1;
    }
    let previous = if before > 0 {
        Some(String::from_str(cues[before - 1].as_str()))
    } else {
        None
    };
    let mut after = current_index + 1;
    while after < cues.len() && !is_usable_metadata_line(cues[after].as_str())
        invariant
            current_index < after <= cues.len(),
            texts == string_texts(cues@),
            first_usable_from(texts, after as int) == first_usable_from(
                texts,
                current_index + 1,
            ),
        decreases cues.len() - after,
    {
        after = after + 1;
    }
    let next = if after < cues.len() && (is_usable_metadata_line(cues[current_index].as_str())
        || near[after]) {
        Some(String::from_str(cues[after].as_str()))
    } else {
        None
    };
    LyricPresentation {
        current_index,
        previous,
        current: String::from_str(cues[current_index].as_str()),
        next,
    }
}

/// The most code points that the texts of a song's lyric cues may hold together.
pub const MAX_LYRIC_TOTAL_CODE_POINTS: usize = 16384;

/// The number of code points of all `texts` together.
pub open spec fn total_code_points(texts: Seq<Seq<char>>) -> int
    decreases texts.len(),
{
    if texts.len() == 0 {
        0
    } else {
        total_code_points(texts.drop_last()) + texts.last().len()
    }
}

proof fn lemma_total_code_points_grows(texts: Seq<Seq<char>>, count: int)
    requires
        0 <= count <= texts.len(),
    ensures
        total_code_points(texts.take(count)) <= total_code_points(texts),
    decreases texts.len() - count,
{
    if count < texts.len() {
        lemma_total_code_points_grows(texts, count + 1);
        assert(texts.take(count + 1).drop_last() =~= texts.take(count));
    } else {
        assert(texts.take(count) =~= texts);
    }
}

/// Whether the texts of a song's lyric cues hold at most
/// `MAX_LYRIC_TOTAL_CODE_POINTS` code points together.
pub fn lyric_text_within_limit(cues: &Vec<String>) -> (within: bool)
    ensures
        within == (total_code_points(string_texts(cues@)) <= MAX_LYRIC_TOTAL_CODE_POINTS),
{
    let ghost texts = string_texts(cues@);
    let mut total: usize = 0;
    let mut index: usize = 0;
    while index < cues.len()
        invariant
            texts == string_texts(cues@),
            index <= cues.len(),
            total == total_code_points(texts.take(index as int)),
            total <= MAX_LYRIC_TOTAL_CODE_POINTS,
        decreases cues.len() - index,
    {
        let length = cues[index].as_str().unicode_len();
        assert(texts.take(index + 1).drop_last() =~= texts.take(index as int));
        assert(texts.take(index + 1).last() == cues@[index as int]@);
        if length > MAX_LYRIC_TOTAL_CODE_POINTS - total {
            proof {
                lemma_total_code_points_grows(texts, index + 1);
            }
            return false;
        }
        total = total + length;
        index = index + 1;
    }
    assert(texts.take(index as int) =~= texts);
    true
}

} // verus!
