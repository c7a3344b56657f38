use vstd::prelude::*;

use crate::presentation::{
    Availability, FULL_OPACITY_BITS, InactivityCondition, InactivityTransform, PresentationBehavior,
    inactivity_transform_at, inactivity_transform_spec,
};

verus! {

/// Nanoseconds in one second.
pub const NANOS_PER_SECOND: u128 = 1_000_000_000;

/// Five minutes of inactivity before the display dims, by default.
pub const DEFAULT_GRACE_PERIOD_NANOS: u128 = 300_000_000_000;

/// The default dimmed opacity, 0.35, as the bit pattern of its double value.
pub const DEFAULT_DIMMED_OPACITY_BITS: u64 = 0x3FD6_6666_6666_6666;

/// One minute between two positions of a dimmed display, by default.
pub const DEFAULT_REPOSITION_CADENCE_NANOS: u128 = 60_000_000_000;

/// Whether the bit pattern of a double stands for a value strictly between
/// zero and one. Positive doubles are ordered as their bit patterns; negative
/// values, negative zero, infinities and NaN all lie outside this range.
pub open spec fn is_unit_fraction_bits(bits: u64) -> bool {
    0 < bits && bits < FULL_OPACITY_BITS
}

/// How long an inactive display waits before it dims, how far it dims, and
/// how often it then moves.
#[derive(Clone, Copy, Debug, PartialEq, Eq, Structural)]
pub struct InactivityConfiguration {
    grace_period_nanos: u128,
    dimmed_opacity_bits: u64,
    reposition_cadence_nanos: u128,
}

/// Why inactivity settings were refused.
#[derive(Clone, Copy, Debug, PartialEq, Eq, Structural)]
pub enum InactivityConfigurationError {
    /// The grace period is zero.
    ZeroGracePeriod,
    /// The dimmed opacity is not strictly between zero and one.
    DimmedOpacityOutOfRange,
    /// The reposition cadence is zero.
    ZeroRepositionCadence,
}

impl InactivityConfigurationError {
    /// The message shown for this error.
    pub fn message(self) -> (message: &'static str)
        ensures
            message@ == match self {
                InactivityConfigurationError::ZeroGracePeriod => {
                    "inactivity grace period must be greater than zero"@
                },
                InactivityConfigurationError::DimmedOpacityOutOfRange => {
                    "dimmed opacity must be greater than zero and less than one"@
                },
                InactivityConfigurationError::ZeroRepositionCadence => {
                    "reposition cadence must be greater than zero"@
                },
            },
    {
        match self {
            InactivityConfigurationError::ZeroGracePeriod => {
                "inactivity grace period must be greater than zero"
            },
            InactivityConfigurationError::DimmedOpacityOutOfRange => {
                "dimmed opacity must be greater than zero and less than one"
            },
            InactivityConfigurationError::ZeroRepositionCadence => {
                "reposition cadence must be greater than zero"
            },
        }
    }
}

/// The inactivity settings of a display configuration file, in whole seconds
/// and with the opacity as the bit pattern of its double value.
#[derive(Clone, Copy, Debug, PartialEq, Eq, Structural)]
pub struct InactivitySettings {
    pub grace_period_seconds: u64,
    pub dimmed_opacity_bits: u64,
    pub reposition_cadence_seconds: u64,
}

/// The error that settings with these values are refused with, if any: the
/// grace period is checked first, then the opacity, then the cadence.
pub open spec fn configuration_error(
    grace_period_nanos: u128,
    dimmed_opacity_bits: u64,
    reposition_cadence_nanos: u128,
) -> Option<InactivityConfigurationError> {
    if grace_period_nanos == 0 {
        Some(InactivityConfigurationError::ZeroGracePeriod)
    } else if !is_unit_fraction_bits(dimmed_opacity_bits) {
        Some(InactivityConfigurationError::DimmedOpacityOutOfRange)
    } else if reposition_cadence_nanos == 0 {
        Some(InactivityConfigurationError::ZeroRepositionCadence)
    } else {
        None
    }
}

impl InactivityConfiguration {
    /// A configuration holds a positive grace period and cadence and an
    /// opacity strictly between zero and one.
    pub open spec fn well_formed(self) -> bool {
        configuration_error(
            self.grace_period_spec(),
            self.dimmed_opacity_spec(),
            self.reposition_cadence_spec(),
        ) is None
    }

    /// The grace period, in nanoseconds.
    pub closed spec fn grace_period_spec(self) -> u128 {
        self.grace_period_nanos
    }

    /// The dimmed opacity, as the bit pattern of its double value.
    pub closed spec fn dimmed_opacity_spec(self) -> u64 {
        self.dimmed_opacity_bits
    }

    /// The reposition cadence, in nanoseconds.
    pub closed spec fn reposition_cadence_spec(self) -> u128 {
        self.reposition_cadence_nanos
    }

    /// Checks and builds a configuration.
    pub fn new(
        grace_period_nanos: u128,
        dimmed_opacity_bits: u64,
        reposition_cadence_nanos: u128,
    ) -> (configuration: Result<Self, InactivityConfigurationError>)
        ensures
            match configuration {
                Ok(configuration) => {
                    &&& configuration_error(
                        grace_period_nanos,
                        dimmed_opacity_bits,
                        reposition_cadence_nanos,
                    ) is None
                    &&& configuration.well_formed()
                    &&& configuration.grace_period_spec() == grace_period_nanos
                    &&& configuration.dimmed_opacity_spec() == dimmed_opacity_bits
                    &&& configuration.reposition_cadence_spec() == reposition_cadence_nanos
                },
                Err(error) => configuration_error(
                    grace_period_nanos,
                    dimmed_opacity_bits,
                    reposition_cadence_nanos,
                ) == Some(error),
            },
    {
        if grace_period_nanos == 0 {
            return Err(InactivityConfigurationError::ZeroGracePeriod);
        }
        if !(0 < dimmed_opacity_bits && dimmed_opacity_bits < FULL_OPACITY_BITS) {
            return Err(InactivityConfigurationError::DimmedOpacityOutOfRange);
        }
        if reposition_cadence_nanos == 0 {
            return Err(InactivityConfigurationError::ZeroRepositionCadence);
        }
        Ok(InactivityConfiguration { grace_period_nanos, dimmed_opacity_bits, reposition_cadence_nanos })
    }

    /// Five minutes of grace, dimmed to 0.35, moved every minute.
    pub fn default_configuration() -> (configuration: Self)
        ensures
            configuration.well_formed(),
            configuration.grace_period_spec() == DEFAULT_GRACE_PERIOD_NANOS,
            configuration.dimmed_opacity_spec() == DEFAULT_DIMMED_OPACITY_BITS,
            configuration.reposition_cadence_spec() == DEFAULT_REPOSITION_CADENCE_NANOS,
    {
        InactivityConfiguration {
            grace_period_nanos: DEFAULT_GRACE_PERIOD_NANOS,
            dimmed_opacity_bits: DEFAULT_DIMMED_OPACITY_BITS,
            reposition_cadence_nanos: DEFAULT_REPOSITION_CADENCE_NANOS,
        }
    }

    /// The configuration a display configuration file asks for: the default
    /// one where the file sets no inactivity, else its settings, checked.
    pub fn from_settings(settings: Option<InactivitySettings>) -> (configuration: Result<
        Self,
        InactivityConfigurationError,
    >)
        ensures
            match settings {
                None => match configuration {
                    Ok(configuration) => {
                        &&& configuration.well_formed()
                        &&& configuration.grace_period_spec() == DEFAULT_GRACE_PERIOD_NANOS
                        &&& configuration.dimmed_opacity_spec() == DEFAULT_DIMMED_OPACITY_BITS
                        &&& configuration.reposition_cadence_spec()
                            == DEFAULT_REPOSITION_CADENCE_NANOS
                    },
                    Err(_) => false,
                },
                Some(settings) => {
                    let grace = settings.grace_period_seconds * NANOS_PER_SECOND;
                    let cadence = settings.reposition_cadence_seconds * NANOS_PER_SECOND;
                    match configuration {
                        Ok(configuration) => {
                            &&& configuration_error(
                                grace as u128,
                                settings.dimmed_opacity_bits,
                                cadence as u128,
                            ) is None
                            &&& configuration.well_formed()
                            &&& configuration.grace_period_spec() == grace
                            &&& configuration.dimmed_opacity_spec()
                                == settings.dimmed_opacity_bits
                            &&& configuration.reposition_cadence_spec() == cadence
                        },
                        Err(error) => configuration_error(
                            grace as u128,
                            settings.dimmed_opacity_bits,
                            cadence as u128,
                        ) == Some(error),
                    }
                },
            },
    {
        match settings {
            None => Ok(Self::default_configuration()),
            Some(settings) => {
                let grace = settings.grace_period_seconds as u128 * NANOS_PER_SECOND;
                let cadence = settings.reposition_cadence_seconds as u128 * NANOS_PER_SECOND;
                Self::new(grace, settings.dimmed_opacity_bits, cadence)
            },
        }
    }

    /// How long an inactive display waits before it dims, in nanoseconds.
    pub fn grace_period_nanos(self) -> (nanos: u128)
        ensures
            nanos == self.grace_period_spec(),
    {
        self.grace_period_nanos
    }

    /// The opacity of a dimmed display, as the bit pattern of its double value.
    pub fn dimmed_opacity_bits(self) -> (bits: u64)
        ensures
            bits == self.dimmed_opacity_spec(),
    {
        self.dimmed_opacity_bits
    }

    /// How often a dimmed display moves, in nanoseconds.
    pub fn reposition_cadence_nanos(self) -> (nanos: u128)
        ensures
            nanos == self.reposition_cadence_spec(),
    {
        self.reposition_cadence_nanos
    }
}

/// The inactivity part of a presentation's state: why the display is
/// inactive, if it is, and since when.
#[derive(Clone, Copy, Debug, PartialEq, Eq, Structural)]
pub struct InactivityTracker {
    pub configuration: InactivityConfiguration,
    pub behavior: PresentationBehavior,
    pub condition: Option<InactivityCondition>,
    pub anchored_at_nanos: u128,
}

/// The tracker after a snapshot with inactivity condition `next` arrived at
/// `at_nanos`: the timer restarts when the condition changes, and, where
/// `restart` asks for it, whenever the display is inactive.
pub open spec fn tracker_after(
    tracker: InactivityTracker,
    next: Option<InactivityCondition>,
    at_nanos: u128,
    restart: bool,
) -> InactivityTracker {
    if tracker.condition != next || (restart && next is Some) {
        InactivityTracker { condition: next, anchored_at_nanos: at_nanos, ..tracker }
    } else {
        tracker
    }
}

/// How a display that the tracker follows is transformed at `now_nanos`.
pub open spec fn tracker_transform(tracker: InactivityTracker, now_nanos: u128) -> InactivityTransform {
    inactivity_transform_spec(
        tracker.behavior,
        tracker.condition is Some,
        if now_nanos >= tracker.anchored_at_nanos {
            (now_nanos - tracker.anchored_at_nanos) as u128
        } else {
            0
        },
        tracker.configuration.grace_period_spec(),
        tracker.configuration.reposition_cadence_spec(),
        tracker.configuration.dimmed_opacity_spec(),
    )
}

impl InactivityTracker {
    /// The tracker of a display that starts without a connection.
    pub fn disconnected(
        anchored_at_nanos: u128,
        configuration: InactivityConfiguration,
        behavior: PresentationBehavior,
    ) -> (tracker: Self)
        ensures
            tracker == (InactivityTracker {
                configuration,
                behavior,
                condition: Some(InactivityCondition::Unavailable(Availability::Disconnected)),
                anchored_at_nanos,
            }),
    {
        InactivityTracker {
            configuration,
            behavior,
            condition: Some(InactivityCondition::Unavailable(Availability::Disconnected)),
            anchored_at_nanos,
        }
    }

    /// Records the inactivity condition of a snapshot that arrived at
    /// `at_nanos`; `restart` is set for a fixture selection.
    pub fn observe(&mut self, next: Option<InactivityCondition>, at_nanos: u128, restart: bool)
        ensures
            *final(self) == tracker_after(*old(self), next, at_nanos, restart),
    {
        if self.condition != next || (restart && next.is_some()) {
            self.condition = next;
            self.anchored_at_nanos = at_nanos;
        }
    }

    /// How the display is transformed at `now_nanos`.
    pub fn transform_at(&self, now_nanos: u128) -> (transform: InactivityTransform)
        requires
            self.configuration.well_formed(),
        ensures
            transform == tracker_transform(*self, now_nanos),
    {
        let inactive_for = now_nanos.saturating_sub(self.anchored_at_nanos);
        inactivity_transform_at(
            self.behavior,
            self.condition.is_some(),
            inactive_for,
            self.configuration.grace_period_nanos(),
            self.configuration.reposition_cadence_nanos(),
            self.configuration.dimmed_opacity_bits(),
        )
    }
}

/// A display that is not inactive is never dimmed or moved.
pub proof fn lemma_active_display_is_at_rest(tracker: InactivityTracker, now_nanos: u128)
    requires
        tracker.condition is None,
    ensures
        tracker_transform(tracker, now_nanos).is_at_rest(),
{
}

/// Within the grace period after the display became inactive, nothing changes
/// on screen.
pub proof fn lemma_grace_period_is_at_rest(tracker: InactivityTracker, now_nanos: u128)
    requires
        tracker.configuration.well_formed(),
        now_nanos < tracker.anchored_at_nanos + tracker.configuration.grace_period_spec(),
    ensures
        tracker_transform(tracker, now_nanos).is_at_rest(),
{
}

/// Snapshots that keep the same inactivity condition do not restart the
/// timer, unless a fixture selection asks for it.
pub proof fn lemma_same_condition_keeps_timer(
    tracker: InactivityTracker,
    at_nanos: u128,
    restart: bool,
)
    requires
        !(restart && tracker.condition is Some),
    ensures
        tracker_after(tracker, tracker.condition, at_nanos, restart) == tracker,
{
}

/// After the grace period, an inactive display is dimmed to the configured
/// opacity.
pub proof fn lemma_inactive_display_dims_after_grace(tracker: InactivityTracker, now_nanos: u128)
    requires
        tracker.configuration.well_formed(),
        tracker.behavior == PresentationBehavior::Dynamic,
        tracker.condition is Some,
        now_nanos >= tracker.anchored_at_nanos + tracker.configuration.grace_period_spec(),
    ensures
        tracker_transform(tracker, now_nanos).opacity_bits
            == tracker.configuration.dimmed_opacity_spec(),
        !tracker_transform(tracker, now_nanos).is_at_rest(),
{
}

} // verus!
