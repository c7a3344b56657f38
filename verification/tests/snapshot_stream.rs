use roonscape_renderer::snapshot_stream::{
    MAX_SNAPSHOT_BYTES, RevisionDecision, RevisionGate, SnapshotFrameError, frame_snapshot_line,
    lyrics_visible_report, snapshot_message_fits, trimmed_message_length,
};

#[test]
fn a_complete_line_frames_its_message_without_the_line_ending() {
    assert_eq!(frame_snapshot_line(b"{\"revision\":1}\n"), Ok(14));
    assert_eq!(frame_snapshot_line(b"{}\r\n"), Ok(2));
    assert_eq!(frame_snapshot_line(b"\r\n"), Ok(0));
}

#[test]
fn a_closed_socket_gives_an_empty_message() {
    assert_eq!(frame_snapshot_line(b""), Err(SnapshotFrameError::EmptyMessage));
}

#[test]
fn a_line_without_its_line_feed_is_incomplete() {
    assert_eq!(frame_snapshot_line(b"{\"revision\""), Err(SnapshotFrameError::IncompleteMessage));
    assert_eq!(frame_snapshot_line(b"{}\r"), Err(SnapshotFrameError::IncompleteMessage));
}

#[test]
fn a_line_over_sixty_four_kibibytes_is_too_large() {
    let mut line = vec![b'a'; MAX_SNAPSHOT_BYTES];
    line.push(b'\n');
    assert_eq!(frame_snapshot_line(&line), Err(SnapshotFrameError::MessageTooLarge));
    line.truncate(MAX_SNAPSHOT_BYTES - 1);
    line.push(b'\n');
    assert_eq!(frame_snapshot_line(&line), Ok(MAX_SNAPSHOT_BYTES - 1));
}

#[test]
fn trailing_line_endings_are_trimmed_and_nothing_else() {
    assert_eq!(trimmed_message_length(b"ab\r\n\n\r"), 2);
    assert_eq!(trimmed_message_length(b"a\nb"), 3);
    assert_eq!(trimmed_message_length(b""), 0);
}

#[test]
fn a_document_fits_when_it_and_one_line_feed_fit() {
    let document = vec![b'x'; MAX_SNAPSHOT_BYTES - 1];
    assert!(snapshot_message_fits(&document));
    let mut longer = document.clone();
    longer.push(b'x');
    assert!(!snapshot_message_fits(&longer));
    let mut with_ending = document;
    with_ending.extend_from_slice(b"\r\n");
    assert!(snapshot_message_fits(&with_ending));
}

#[test]
fn newer_revisions_are_delivered_and_older_ones_rejected() {
    let mut gate = RevisionGate::new();
    assert_eq!(gate.decide(5), RevisionDecision::Deliver);
    assert_eq!(gate.decide(7), RevisionDecision::Deliver);
    assert_eq!(gate.decide(7), RevisionDecision::Reject { incoming: 7, accepted: 7 });
    assert_eq!(gate.decide(3), RevisionDecision::Reject { incoming: 3, accepted: 7 });
    assert_eq!(gate.accepted, Some(7));
}

#[test]
fn a_repeated_stale_revision_is_reported_once() {
    let mut gate = RevisionGate::new();
    assert_eq!(gate.decide(4), RevisionDecision::Deliver);
    assert_eq!(gate.decide(2), RevisionDecision::Reject { incoming: 2, accepted: 4 });
    assert_eq!(gate.decide(2), RevisionDecision::Ignore);
    assert_eq!(gate.decide(2), RevisionDecision::Ignore);
    assert_eq!(gate.decide(3), RevisionDecision::Reject { incoming: 3, accepted: 4 });
    assert_eq!(gate.decide(2), RevisionDecision::Reject { incoming: 2, accepted: 4 });
    assert_eq!(gate.decide(9), RevisionDecision::Deliver);
    assert_eq!(gate.decide(2), RevisionDecision::Reject { incoming: 2, accepted: 9 });
}

#[test]
fn a_fresh_connection_accepts_any_revision() {
    let mut gate = RevisionGate::new();
    assert_eq!(gate.decide(0), RevisionDecision::Deliver);
    let mut reconnected = RevisionGate::new();
    assert_eq!(reconnected.decide(0), RevisionDecision::Deliver);
}

#[test]
fn the_lyrics_visible_report_is_one_json_line() {
    assert_eq!(lyrics_visible_report(42), "{\"type\":\"lyricsVisible\",\"revision\":42}\n");
    assert_eq!(
        lyrics_visible_report(u64::MAX),
        "{\"type\":\"lyricsVisible\",\"revision\":18446744073709551615}\n"
    );
}
