use vstd::prelude::*;

verus! {

/// A fixture scenario selection by name and snapshot revision.
#[derive(Clone, Debug, PartialEq, Eq)]
pub struct FixtureSelectionIdentity {
    scenario: String,
    revision: u64,
}

impl View for FixtureSelectionIdentity {
    type V = (Seq<char>, u64);

    closed spec fn view(&self) -> (Seq<char>, u64) {
        (self.scenario@, self.revision)
    }
}

pub open spec fn optional_identity_view(identity: Option<FixtureSelectionIdentity>) -> Option<
    (Seq<char>, u64),
> {
    match identity {
        Some(identity) => Some(identity@),
        None => None,
    }
}

impl FixtureSelectionIdentity {
    pub fn new(scenario: &str, revision: u64) -> (identity: Self)
        ensures
            identity@ == (scenario@, revision),
    {
        Self { scenario: scenario.to_owned(), revision }
    }

    pub fn scenario(&self) -> (scenario: &str)
        ensures
            scenario@ == self@.0,
    {
        self.scenario.as_str()
    }

    pub fn revision(&self) -> (revision: u64)
        ensures
            revision == self@.1,
    {
        self.revision
    }

    fn duplicate(&self) -> (copy: Self)
        ensures
            copy@ == self@,
    {
        Self { scenario: self.scenario.clone(), revision: self.revision }
    }

    fn same_as(&self, other: &Self) -> (same: bool)
        ensures
            same == (self@ == other@),
    {
        self.revision == other.revision && self.scenario == other.scenario
    }
}

/// The abstract state: the selection waiting to be acknowledged, and the one
/// whose presentation is complete and awaits its first paint.
pub struct PaintState {
    pub pending: Option<(Seq<char>, u64)>,
    pub ready_for_paint: Option<(Seq<char>, u64)>,
}

impl PaintState {
    /// A new selection replaces the pending one and cancels readiness.
    pub open spec fn selected(self, selection: (Seq<char>, u64)) -> PaintState {
        PaintState { pending: Some(selection), ready_for_paint: None }
    }

    /// The presentation of `revision` is complete: the pending selection of
    /// that revision becomes ready for paint.
    pub open spec fn completed(self, revision: u64) -> PaintState {
        match self.pending {
            Some(pending) if pending.1 == revision => PaintState {
                ready_for_paint: self.pending,
                ..self
            },
            _ => self,
        }
    }

    /// What a paint acknowledges: the ready selection, when it is still the
    /// pending one.
    pub open spec fn painted_selection(self) -> Option<(Seq<char>, u64)> {
        match self.ready_for_paint {
            Some(ready) if self.pending == Some(ready) => Some(ready),
            _ => None,
        }
    }

    /// The state after a paint: readiness is consumed, and an acknowledged
    /// selection is no longer pending.
    pub open spec fn after_painting(self) -> PaintState {
        match self.ready_for_paint {
            Some(ready) if self.pending == Some(ready) => PaintState {
                pending: None,
                ready_for_paint: None,
            },
            _ => PaintState { ready_for_paint: None, ..self },
        }
    }
}

/// Tracks a capture fixture selection until a frame showing it is painted.
#[derive(Debug, Default)]
pub struct PaintedFixtureSelection {
    pending: Option<FixtureSelectionIdentity>,
    ready_for_paint: Option<FixtureSelectionIdentity>,
}

impl View for PaintedFixtureSelection {
    type V = PaintState;

    closed spec fn view(&self) -> PaintState {
        PaintState {
            pending: optional_identity_view(self.pending),
            ready_for_paint: optional_identity_view(self.ready_for_paint),
        }
    }
}

impl PaintedFixtureSelection {
    pub fn new(initial: Option<FixtureSelectionIdentity>) -> (selection: Self)
        ensures
            selection@ == (PaintState {
                pending: optional_identity_view(initial),
                ready_for_paint: None,
            }),
    {
        Self { pending: initial, ready_for_paint: None }
    }

    pub fn select(&mut self, selection: FixtureSelectionIdentity)
        ensures
            final(self)@ == old(self)@.selected(selection@),
    {
        self.pending = Some(selection);
        self.ready_for_paint = None;
    }

    pub fn pending_revision(&self) -> (revision: Option<u64>)
        ensures
            revision == match self@.pending {
                Some(pending) => Some(pending.1),
                None => None::<u64>,
            },
    {
        match &self.pending {
            Some(pending) => Some(pending.revision()),
            None => None,
        }
    }

    pub fn presentation_completed(&mut self, revision: u64)
        ensures
            final(self)@ == old(self)@.completed(revision),
    {
        if self.pending_revision() == Some(revision) {
            self.ready_for_paint = match &self.pending {
                Some(pending) => Some(pending.duplicate()),
                None => None,
            };
        }
    }

    pub fn after_paint(&mut self) -> (painted: Option<FixtureSelectionIdentity>)
        ensures
            optional_identity_view(painted) == old(self)@.painted_selection(),
            final(self)@ == old(self)@.after_painting(),
    {
        let painted = match self.ready_for_paint.take() {
            Some(painted) => painted,
            None => return None,
        };
        let still_pending = match &self.pending {
            Some(pending) => pending.same_as(&painted),
            None => false,
        };
        if !still_pending {
            return None;
        }
        self.pending = None;
        Some(painted)
    }
}

/// A selection is acknowledged by the first paint after its presentation
/// completed, and only once.
pub proof fn lemma_selection_acknowledged_once(state: PaintState, selection: (Seq<char>, u64))
    ensures
        state.selected(selection).completed(selection.1).painted_selection() == Some(selection),
        state.selected(selection).completed(selection.1).after_painting().painted_selection()
            is None,
        state.selected(selection).completed(selection.1).after_painting().pending is None,
{
}

/// No paint acknowledges a selection whose presentation has not completed.
pub proof fn lemma_no_acknowledgement_before_completion(
    state: PaintState,
    selection: (Seq<char>, u64),
)
    ensures
        state.selected(selection).painted_selection() is None,
        state.selected(selection).after_painting().pending == Some(selection),
{
}

/// A newer selection made before the paint supersedes a completed one.
pub proof fn lemma_newer_selection_cancels_readiness(
    state: PaintState,
    first: (Seq<char>, u64),
    second: (Seq<char>, u64),
)
    ensures
        state.selected(first).completed(first.1).selected(second).painted_selection() is None,
{
}

/// Why a capture control command was refused. Failures of the channel
/// itself are the caller's.
#[derive(Clone, Debug, PartialEq, Eq)]
pub enum CaptureControlError {
    /// The channel closed before a command.
    EmptyMessage,
    /// The channel closed in the middle of a command.
    IncompleteMessage,
    /// The command is longer than 64 KiB.
    MessageTooLarge,
    /// The command is not a valid selection.
    InvalidMessage(String),
    /// The selection names another revision than its snapshot has.
    RevisionMismatch { requested: u64, snapshot: u64 },
}

/// Checks a decoded selection command: its scenario must not be empty, its
/// snapshot must have been read (`snapshot_revision` holds the snapshot's
/// revision, or why it could not be read), and the revision it asks for must
/// be the snapshot's.
pub fn checked_selection(
    scenario: &str,
    requested: u64,
    snapshot_revision: Result<u64, String>,
) -> (selection: Result<FixtureSelectionIdentity, CaptureControlError>)
    ensures
        scenario@.len() == 0 ==> (selection matches Err(CaptureControlError::InvalidMessage(message))
            && message@ == "scenario must not be empty"@),
        scenario@.len() > 0 ==> match snapshot_revision {
            Err(problem) => selection matches Err(CaptureControlError::InvalidMessage(message))
                && message@ == problem@,
            Ok(revision) => if revision != requested {
                selection == Err::<FixtureSelectionIdentity, CaptureControlError>(
                    CaptureControlError::RevisionMismatch { requested, snapshot: revision },
                )
            } else {
                selection matches Ok(identity) && identity@ == (scenario@, requested)
            },
        },
{
    if scenario.unicode_len() == 0 {
        return Err(CaptureControlError::InvalidMessage(String::from_str("scenario must not be empty")));
    }
    match snapshot_revision {
        Err(problem) => Err(CaptureControlError::InvalidMessage(problem)),
        Ok(revision) => {
            if revision != requested {
                Err(CaptureControlError::RevisionMismatch { requested, snapshot: revision })
            } else {
                Ok(FixtureSelectionIdentity::new(scenario, requested))
            }
        },
    }
}

} // verus!
