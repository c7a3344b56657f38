use vstd::prelude::*;

use crate::inactivity::{InactivityConfiguration, InactivityTracker, tracker_after, tracker_transform};
use crate::presentation::{
    Availability, InactivityCondition, InactivityTransform, Playback, Presentation,
    PresentationBehavior, PresentationUpdate, classify_presentation_update, inactivity_condition,
    unavailable_presentation, unavailable_spec, updates_in_place,
};

verus! {

/// The presentation of a display whose connection is gone.
pub open spec fn is_disconnected_presentation(presentation: Presentation) -> bool {
    presentation matches Presentation::FullField(full_field) && unavailable_spec(
        Availability::Disconnected,
        None,
        full_field,
    )
}

/// How the display changes from `previous` to `next`.
pub open spec fn update_between(previous: Presentation, next: Presentation) -> PresentationUpdate {
    if updates_in_place(previous, next) {
        PresentationUpdate::InPlace
    } else {
        PresentationUpdate::TransitionRequired
    }
}

/// The inactivity condition of a display with this availability and playback.
pub open spec fn condition_of(availability: Availability, playback: Option<Playback>) -> Option<
    InactivityCondition,
> {
    if availability != Availability::Available {
        Some(InactivityCondition::Unavailable(availability))
    } else {
        match playback {
            Some(Playback::Paused) => Some(InactivityCondition::Paused),
            Some(Playback::Stopped) => Some(InactivityCondition::Stopped),
            _ => None,
        }
    }
}

/// What a display keeps between snapshots: the presentation of the retained
/// snapshot (without timing), the snapshot's revision and the inactivity
/// tracker.
pub struct PresentationStateView {
    pub retained: Presentation,
    pub revision: u64,
    pub inactivity: InactivityTracker,
}

/// A snapshot as it arrives: its revision, availability and playback, its
/// presentation without timing, and the presentations on screen just before
/// and just after it, both with the timing resolved at its arrival.
pub struct SnapshotArrival {
    pub revision: u64,
    pub availability: Availability,
    pub playback: Option<Playback>,
    pub presentation: Presentation,
    pub previous_at_arrival: Presentation,
    pub next_at_arrival: Presentation,
    /// Whether the snapshot only settles a provisional duration of the same
    /// composition while the provisional timing is still shown.
    pub reconciles_provisional_timing: bool,
    pub at_nanos: u128,
}

/// The decisions a display takes as snapshots arrive and the connection
/// drops: how the display changes, and when the inactivity timer restarts.
pub struct PresentationState {
    retained: Presentation,
    revision: u64,
    inactivity: InactivityTracker,
}

impl View for PresentationState {
    type V = PresentationStateView;

    closed spec fn view(&self) -> PresentationStateView {
        PresentationStateView {
            retained: self.retained,
            revision: self.revision,
            inactivity: self.inactivity,
        }
    }
}

fn disconnected_presentation() -> (presentation: Presentation)
    ensures
        is_disconnected_presentation(presentation),
{
    Presentation::FullField(unavailable_presentation(Availability::Disconnected, None))
}

impl PresentationState {
    /// A display that starts without a connection, at revision 0.
    pub fn disconnected(
        anchored_at_nanos: u128,
        configuration: InactivityConfiguration,
        behavior: PresentationBehavior,
    ) -> (state: Self)
        ensures
            is_disconnected_presentation(state@.retained),
            state@.revision == 0,
            state@.inactivity == (InactivityTracker {
                configuration,
                behavior,
                condition: Some(InactivityCondition::Unavailable(Availability::Disconnected)),
                anchored_at_nanos,
            }),
    {
        PresentationState {
            retained: disconnected_presentation(),
            revision: 0,
            inactivity: InactivityTracker::disconnected(anchored_at_nanos, configuration, behavior),
        }
    }

    /// Takes in a snapshot. The display changes in place when the snapshot
    /// only settles provisional timing, and otherwise as the presentations
    /// before and after its arrival differ; the inactivity timer restarts
    /// when the inactivity condition changes, or, for a fixture selection
    /// (`restart_inactivity`), whenever the display is inactive.
    pub fn update(&mut self, arrival: SnapshotArrival, restart_inactivity: bool) -> (update:
        PresentationUpdate)
        ensures
            update == if arrival.reconciles_provisional_timing {
                PresentationUpdate::InPlace
            } else {
                update_between(arrival.previous_at_arrival, arrival.next_at_arrival)
            },
            final(self)@ == (PresentationStateView {
                retained: arrival.presentation,
                revision: arrival.revision,
                inactivity: tracker_after(
                    old(self)@.inactivity,
                    condition_of(arrival.availability, arrival.playback),
                    arrival.at_nanos,
                    restart_inactivity,
                ),
            }),
    {
        let update = if arrival.reconciles_provisional_timing {
            PresentationUpdate::InPlace
        } else {
            classify_presentation_update(&arrival.previous_at_arrival, &arrival.next_at_arrival)
        };
        let condition = inactivity_condition(arrival.availability, arrival.playback);
        self.inactivity.observe(condition, arrival.at_nanos, restart_inactivity);
        self.retained = arrival.presentation;
        self.revision = arrival.revision;
        update
    }

    /// Drops the connection at `at_nanos`: the display changes from the
    /// retained presentation to the disconnected one, the revision stays, and
    /// the inactivity timer restarts unless the display was already
    /// disconnected.
    pub fn disconnect(&mut self, at_nanos: u128) -> (update: PresentationUpdate)
        ensures
            update == update_between(old(self)@.retained, final(self)@.retained),
            is_disconnected_presentation(final(self)@.retained),
            final(self)@.revision == old(self)@.revision,
            final(self)@.inactivity == tracker_after(
                old(self)@.inactivity,
                Some(InactivityCondition::Unavailable(Availability::Disconnected)),
                at_nanos,
                false,
            ),
    {
        let next = disconnected_presentation();
        let update = classify_presentation_update(&self.retained, &next);
        self.inactivity.observe(
            Some(InactivityCondition::Unavailable(Availability::Disconnected)),
            at_nanos,
            false,
        );
        self.retained = next;
        update
    }

    /// The revision of the retained snapshot.
    pub fn revision(&self) -> (revision: u64)
        ensures
            revision == self@.revision,
    {
        self.revision
    }

    /// How the display is dimmed and moved at `now_nanos`.
    pub fn inactivity_transform_at(&self, now_nanos: u128) -> (transform: InactivityTransform)
        requires
            self@.inactivity.configuration.well_formed(),
        ensures
            transform == tracker_transform(self@.inactivity, now_nanos),
    {
        self.inactivity.transform_at(now_nanos)
    }
}

/// Once disconnected, dropping the connection again changes the display in
/// place and leaves the inactivity timer where it was.
pub proof fn lemma_disconnecting_again_changes_nothing(
    state: PresentationStateView,
    next: Presentation,
    at_nanos: u128,
)
    requires
        is_disconnected_presentation(state.retained),
        is_disconnected_presentation(next),
        state.inactivity.condition == Some(
            InactivityCondition::Unavailable(Availability::Disconnected),
        ),
    ensures
        update_between(state.retained, next) == PresentationUpdate::InPlace,
        tracker_after(
            state.inactivity,
            Some(InactivityCondition::Unavailable(Availability::Disconnected)),
            at_nanos,
            false,
        ) == state.inactivity,
{
}

} // verus!
