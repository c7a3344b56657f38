use roonscape_renderer::bounded_lru_cache::BoundedLruCache;
use roonscape_renderer::capture_control::{
    CaptureControlError, FixtureSelectionIdentity, PaintedFixtureSelection, checked_selection,
};
use roonscape_renderer::gradient::NowPlayingGradientCacheKey;
use roonscape_renderer::layout::Viewport;
use roonscape_renderer::transition::PresentationTransition;

const MILLISECOND: u128 = 1_000_000;

#[test]
fn rapid_revisions_keep_one_outgoing_presentation() {
    let mut transition = PresentationTransition::new(7, "playing");
    assert!(transition.begin(8, "missing artwork", 100 * MILLISECOND).is_none());
    let discarded = transition
        .begin(9, "revised artwork", 200 * MILLISECOND)
        .expect("the superseded outgoing presentation is handed back");
    assert_eq!((discarded.revision(), *discarded.value()), (7, "playing"));
    assert_eq!(transition.current().revision(), 9);
    assert_eq!(transition.outgoing().map(|layer| layer.revision()), Some(8));
}

#[test]
fn a_transition_finishes_after_its_crossfade() {
    let mut transition = PresentationTransition::new(7, 'a');
    transition.begin(8, 'b', 100 * MILLISECOND);
    assert!(transition.is_active());
    let end = 100 * MILLISECOND + transition.duration();
    assert!(transition.finish(end - 1).is_none());
    assert!(transition.is_active());
    let released = transition.finish(end).expect("the outgoing presentation is released");
    assert_eq!(released.revision(), 7);
    assert!(!transition.is_active());
    assert!(transition.outgoing().is_none());
    assert!(transition.finish(end + 1).is_none());
    assert_eq!(transition.duration(), 450 * MILLISECOND);
}

#[test]
fn discarding_the_outgoing_presentation_settles_at_once() {
    let mut transition = PresentationTransition::new(1, 10);
    transition.begin(2, 20, 0);
    assert_eq!(transition.discard_outgoing().map(|layer| *layer.value()), Some(10));
    assert!(!transition.is_active());
    assert_eq!(*transition.current().value(), 20);
}

#[test]
fn a_painted_selection_is_acknowledged_once_after_its_presentation_completes() {
    let first = FixtureSelectionIdentity::new("playing", 4);
    let mut painted = PaintedFixtureSelection::new(Some(first.clone()));
    assert_eq!(painted.pending_revision(), Some(4));
    assert!(painted.after_paint().is_none());
    painted.presentation_completed(4);
    assert_eq!(painted.after_paint(), Some(first));
    assert!(painted.after_paint().is_none());
}

#[test]
fn a_newer_selection_cancels_an_unpainted_one() {
    let mut painted = PaintedFixtureSelection::new(None);
    assert_eq!(painted.pending_revision(), None);
    painted.select(FixtureSelectionIdentity::new("paused", 5));
    painted.presentation_completed(5);
    painted.select(FixtureSelectionIdentity::new("stopped", 6));
    assert!(painted.after_paint().is_none());
    assert_eq!(painted.pending_revision(), Some(6));
    painted.presentation_completed(5);
    assert!(painted.after_paint().is_none());
    painted.presentation_completed(6);
    let acknowledged = painted.after_paint().expect("the newer selection is acknowledged");
    assert_eq!((acknowledged.scenario(), acknowledged.revision()), ("stopped", 6));
}

fn key(width_px: u32) -> NowPlayingGradientCacheKey {
    NowPlayingGradientCacheKey::new(Viewport::new(width_px, 900), 1)
}

#[test]
fn the_cache_evicts_the_least_recently_used_entry_beyond_capacity() {
    let mut cache = BoundedLruCache::new(2);
    cache.insert(key(1600), "first");
    cache.insert(key(1280), "second");
    assert_eq!(cache.access_and_promote(&key(1600), |value| *value), Some("first"));
    cache.insert(key(1920), "third");
    assert_eq!(cache.len(), 2);
    assert_eq!(cache.access_and_promote(&key(1280), |value| *value), None);
    assert_eq!(cache.access_and_promote(&key(1600), |value| *value), Some("first"));
    assert_eq!(cache.access_and_promote(&key(1920), |value| *value), Some("third"));
}

#[test]
fn the_cache_lets_an_access_change_the_promoted_entry_in_place() {
    let mut cache = BoundedLruCache::new(2);
    cache.insert(key(1600), 10_u32);
    cache.insert(key(1280), 20_u32);
    let previous = cache.access_and_promote(&key(1600), |value| {
        let previous = *value;
        *value += 5;
        previous
    });
    assert_eq!(previous, Some(10));
    assert_eq!(cache.access_and_promote(&key(1600), |value| *value), Some(15));
    let mut called = false;
    assert_eq!(
        cache.access_and_promote(&key(1920), |value| {
            called = true;
            *value
        }),
        None
    );
    assert!(!called);
    cache.insert(key(1920), 30_u32);
    assert_eq!(cache.access_and_promote(&key(1280), |value| *value), None);
    assert_eq!(cache.access_and_promote(&key(1600), |value| *value), Some(15));
}

#[test]
fn gradient_keys_scale_their_viewport() {
    let scaled = NowPlayingGradientCacheKey::new(Viewport::new(800, 450), 2);
    assert_eq!(scaled.logical_viewport(), Viewport::new(800, 450));
    assert_eq!(scaled.physical_viewport(), Viewport::new(1600, 900));
    assert_eq!(scaled.scale_factor(), 2);
}

#[test]
fn a_selection_needs_a_scenario_and_the_revision_of_its_snapshot() {
    let accepted = checked_selection("playing", 7, Ok(7)).expect("a consistent selection");
    assert_eq!(accepted.scenario(), "playing");
    assert_eq!(accepted.revision(), 7);
    assert_eq!(
        checked_selection("", 7, Err("not a snapshot".to_owned())),
        Err(CaptureControlError::InvalidMessage("scenario must not be empty".to_owned()))
    );
    assert_eq!(
        checked_selection("playing", 7, Err("not a snapshot".to_owned())),
        Err(CaptureControlError::InvalidMessage("not a snapshot".to_owned()))
    );
    assert_eq!(
        checked_selection("playing", 7, Ok(8)),
        Err(CaptureControlError::RevisionMismatch { requested: 7, snapshot: 8 })
    );
}
