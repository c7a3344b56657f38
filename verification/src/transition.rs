use vstd::prelude::*;

verus! {

/// The crossfade duration between presentations: 450 ms, in nanoseconds.
pub const CROSSFADE_DURATION_NANOS: u128 = 450_000_000;

/// A presentation value together with the snapshot revision it came from.
#[derive(Debug)]
pub struct PresentationRevision<T> {
    revision: u64,
    value: T,
}

impl<T> PresentationRevision<T> {
    pub closed spec fn revision_spec(&self) -> u64 {
        self.revision
    }

    pub closed spec fn value_spec(&self) -> T {
        self.value
    }

    pub fn revision(&self) -> (revision: u64)
        ensures
            revision == self.revision_spec(),
    {
        self.revision
    }

    pub fn value(&self) -> (value: &T)
        ensures
            *value == self.value_spec(),
    {
        &self.value
    }
}

/// The abstract transition: the current revision and value, at most one
/// outgoing revision and value, and when the crossfade started.
pub struct TransitionState<T> {
    pub current: (u64, T),
    pub outgoing: Option<(u64, T)>,
    pub started_at_nanos: Option<u128>,
}

impl<T> TransitionState<T> {
    /// The state after a crossfade to `value` of `revision` begins at
    /// `started_at_nanos`.
    pub open spec fn begun(self, revision: u64, value: T, started_at_nanos: u128) -> Self {
        TransitionState {
            current: (revision, value),
            outgoing: Some(self.current),
            started_at_nanos: Some(started_at_nanos),
        }
    }

    /// The stable state: the current presentation alone.
    pub open spec fn settled(self) -> Self {
        TransitionState { current: self.current, outgoing: None, started_at_nanos: None }
    }

    /// The state after `finish` at `now_nanos`.
    pub open spec fn finished(self, now_nanos: u128) -> Self {
        match self.started_at_nanos {
            Some(started_at) => if crossfade_complete(started_at, now_nanos) {
                self.settled()
            } else {
                self
            },
            None => self,
        }
    }

    /// What `finish` at `now_nanos` hands back.
    pub open spec fn released_at(self, now_nanos: u128) -> Option<(u64, T)> {
        match self.started_at_nanos {
            Some(started_at) => if crossfade_complete(started_at, now_nanos) {
                self.outgoing
            } else {
                None
            },
            None => None,
        }
    }
}

/// A crossfade between the current presentation and at most one outgoing
/// presentation. Times are monotonic nanoseconds.
#[derive(Debug)]
pub struct PresentationTransition<T> {
    current: PresentationRevision<T>,
    outgoing: Option<PresentationRevision<T>>,
    started_at: Option<u128>,
}

pub open spec fn revision_pair<T>(revision: PresentationRevision<T>) -> (u64, T) {
    (revision.revision_spec(), revision.value_spec())
}

pub open spec fn optional_revision_pair<T>(revision: Option<PresentationRevision<T>>) -> Option<
    (u64, T),
> {
    match revision {
        Some(revision) => Some(revision_pair(revision)),
        None => None,
    }
}

/// Whether the crossfade started at `started_at_nanos` has run its full
/// duration at `now_nanos`.
pub open spec fn crossfade_complete(started_at_nanos: u128, now_nanos: u128) -> bool {
    now_nanos >= started_at_nanos && now_nanos - started_at_nanos >= CROSSFADE_DURATION_NANOS
}

impl<T> View for PresentationTransition<T> {
    type V = TransitionState<T>;

    closed spec fn view(&self) -> TransitionState<T> {
        TransitionState {
            current: revision_pair(self.current),
            outgoing: optional_revision_pair(self.outgoing),
            started_at_nanos: self.started_at,
        }
    }
}

impl<T> PresentationTransition<T> {
    /// A stable transition showing `value` of `revision`.
    pub fn new(revision: u64, value: T) -> (transition: Self)
        ensures
            transition@.current == (revision, value),
            transition@.outgoing is None,
            transition@.started_at_nanos is None,
    {
        Self { current: PresentationRevision { revision, value }, outgoing: None, started_at: None }
    }

    /// Starts a crossfade to `value`: the current presentation becomes the
    /// outgoing one and a previously outgoing presentation is handed back.
    pub fn begin(&mut self, revision: u64, value: T, started_at_nanos: u128) -> (discarded: Option<
        PresentationRevision<T>,
    >)
        ensures
            optional_revision_pair(discarded) == old(self)@.outgoing,
            final(self)@ == old(self)@.begun(revision, value, started_at_nanos),
    {
        let discarded = self.outgoing.take();
        let mut outgoing = PresentationRevision { revision, value };
        core::mem::swap(&mut self.current, &mut outgoing);
        self.outgoing = Some(outgoing);
        self.started_at = Some(started_at_nanos);
        discarded
    }

    /// Ends any crossfade at once and hands back the outgoing presentation.
    pub fn discard_outgoing(&mut self) -> (discarded: Option<PresentationRevision<T>>)
        ensures
            optional_revision_pair(discarded) == old(self)@.outgoing,
            final(self)@ == old(self)@.settled(),
    {
        self.started_at = None;
        self.outgoing.take()
    }

    /// Once the crossfade has run its duration, ends it and hands back the
    /// outgoing presentation; before that, or without a crossfade, nothing
    /// changes.
    pub fn finish(&mut self, now_nanos: u128) -> (released: Option<PresentationRevision<T>>)
        ensures
            optional_revision_pair(released) == old(self)@.released_at(now_nanos),
            final(self)@ == old(self)@.finished(now_nanos),
    {
        let started_at = match self.started_at {
            Some(started_at) => started_at,
            None => return None,
        };
        let elapsed = if now_nanos >= started_at { now_nanos - started_at } else { 0 };
        if elapsed < CROSSFADE_DURATION_NANOS {
            return None;
        }
        self.started_at = None;
        self.outgoing.take()
    }

    pub fn current(&self) -> (current: &PresentationRevision<T>)
        ensures
            revision_pair(*current) == self@.current,
    {
        &self.current
    }

    pub fn outgoing(&self) -> (outgoing: Option<&PresentationRevision<T>>)
        ensures
            match outgoing {
                Some(revision) => self@.outgoing == Some(revision_pair(*revision)),
                None => self@.outgoing is None,
            },
    {
        match &self.outgoing {
            Some(revision) => Some(revision),
            None => None,
        }
    }

    /// The crossfade duration in nanoseconds.
    pub fn duration(&self) -> (duration_nanos: u128)
        ensures
            duration_nanos == CROSSFADE_DURATION_NANOS,
    {
        CROSSFADE_DURATION_NANOS
    }

    pub fn is_active(&self) -> (active: bool)
        ensures
            active == self@.outgoing is Some,
    {
        self.outgoing.is_some()
    }
}

/// Rapid revisions keep only the current and one outgoing presentation: the
/// presentation that a first crossfade made outgoing is superseded by the
/// first crossfade's target when a second crossfade begins.
pub proof fn lemma_rapid_revisions_keep_one_outgoing<T>(
    state: TransitionState<T>,
    first_revision: u64,
    first: T,
    first_at: u128,
    second_revision: u64,
    second: T,
    second_at: u128,
)
    ensures
        state.begun(first_revision, first, first_at).begun(second_revision, second, second_at)
            == (TransitionState {
            current: (second_revision, second),
            outgoing: Some((first_revision, first)),
            started_at_nanos: Some(second_at),
        }),
{
}

/// A crossfade that has run its full duration releases the outgoing
/// presentation and leaves the new one stable.
pub proof fn lemma_completed_transition_is_stable<T>(
    state: TransitionState<T>,
    revision: u64,
    value: T,
    started_at: u128,
    now: u128,
    later: u128,
)
    requires
        now >= started_at,
        now - started_at >= CROSSFADE_DURATION_NANOS,
    ensures
        state.begun(revision, value, started_at).released_at(now) == Some(state.current),
        state.begun(revision, value, started_at).finished(now) == (TransitionState {
            current: (revision, value),
            outgoing: None::<(u64, T)>,
            started_at_nanos: None::<u128>,
        }),
        state.begun(revision, value, started_at).finished(now).finished(later)
            == state.begun(revision, value, started_at).finished(now),
{
}

/// Before the crossfade has run its duration, finishing changes nothing.
pub proof fn lemma_unfinished_transition_keeps_outgoing<T>(
    state: TransitionState<T>,
    revision: u64,
    value: T,
    started_at: u128,
    now: u128,
)
    requires
        now < started_at + CROSSFADE_DURATION_NANOS,
    ensures
        state.begun(revision, value, started_at).released_at(now) is None,
        state.begun(revision, value, started_at).finished(now) == state.begun(
            revision,
            value,
            started_at,
        ),
{
}

} // verus!
