use vstd::prelude::*;

use crate::text::{decimal, push_decimal};

verus! {

/// The longest snapshot message, in bytes, its line ending included.
pub const MAX_SNAPSHOT_BYTES: usize = 65536;

/// Why a line read from the snapshot socket holds no snapshot message.
#[derive(Clone, Copy, Debug, PartialEq, Eq, Structural)]
pub enum SnapshotFrameError {
    /// The socket closed before any byte of a message.
    EmptyMessage,
    /// The socket closed in the middle of a message.
    IncompleteMessage,
    /// The message is longer than `MAX_SNAPSHOT_BYTES`.
    MessageTooLarge,
}

/// A carriage return or a line feed.
pub open spec fn is_line_ending(byte: u8) -> bool {
    byte == 0x0a || byte == 0x0d
}

/// The length of `line` once every trailing carriage return and line feed
/// is removed.
pub open spec fn trimmed_length(line: Seq<u8>) -> nat
    decreases line.len(),
{
    if line.len() > 0 && is_line_ending(line.last()) {
        trimmed_length(line.drop_last())
    } else {
        line.len()
    }
}

/// What a line read from the socket (at most `MAX_SNAPSHOT_BYTES + 1` bytes,
/// up to and including the first line feed) holds: the length of the message
/// without its line ending, or why there is none.
pub open spec fn snapshot_frame(line: Seq<u8>) -> Result<nat, SnapshotFrameError> {
    if line.len() == 0 {
        Err(SnapshotFrameError::EmptyMessage)
    } else if line.len() > MAX_SNAPSHOT_BYTES {
        Err(SnapshotFrameError::MessageTooLarge)
    } else if line.last() != 0x0a {
        Err(SnapshotFrameError::IncompleteMessage)
    } else {
        Ok(trimmed_length(line))
    }
}

proof fn lemma_trimmed_length_at_most(line: Seq<u8>)
    ensures
        trimmed_length(line) <= line.len(),
    decreases line.len(),
{
    if line.len() > 0 && is_line_ending(line.last()) {
        lemma_trimmed_length_at_most(line.drop_last());
    }
}

/// The length of `text` without its trailing carriage returns and line feeds.
pub fn trimmed_message_length(text: &[u8]) -> (length: usize)
    ensures
        length == trimmed_length(text@),
{
    let mut length = text.len();
    assert(text@.subrange(0, length as int) =~= text@);
    while length > 0 && (text[length - 1] == 0x0a || text[length - 1] == 0x0d)
        invariant
            length <= text@.len(),
            trimmed_length(text@.subrange(0, length as int)) == trimmed_length(text@),
        decreases length,
    {
        assert(text@.subrange(0, length as int).drop_last() =~= text@.subrange(
            0,
            length - 1,
        ));
        length = length - 1;
    }
    length
}

/// Checks a line read from the snapshot socket and gives the length of the
/// message it holds, its line ending removed.
pub fn frame_snapshot_line(line: &[u8]) -> (framed: Result<usize, SnapshotFrameError>)
    ensures
        match framed {
            Ok(length) => {
                &&& snapshot_frame(line@) == Ok::<nat, SnapshotFrameError>(length as nat)
                &&& length < line@.len()
            },
            Err(error) => snapshot_frame(line@) == Err::<nat, SnapshotFrameError>(error),
        },
{
    if line.len() == 0 {
        return Err(SnapshotFrameError::EmptyMessage);
    }
    if line.len() > MAX_SNAPSHOT_BYTES {
        return Err(SnapshotFrameError::MessageTooLarge);
    }
    if line[line.len() - 1] != 0x0a {
        return Err(SnapshotFrameError::IncompleteMessage);
    }
    proof {
        lemma_trimmed_length_at_most(line@.drop_last());
    }
    Ok(trimmed_message_length(line))
}

/// Whether a snapshot document, once its trailing line ending is removed,
/// fits in a message together with one line feed.
pub fn snapshot_message_fits(contents: &[u8]) -> (fits: bool)
    ensures
        fits == (trimmed_length(contents@) + 1 <= MAX_SNAPSHOT_BYTES),
{
    let length = trimmed_message_length(contents);
    length < MAX_SNAPSHOT_BYTES
}

/// What becomes of a snapshot that arrives on an open connection.
#[derive(Clone, Copy, Debug, PartialEq, Eq, Structural)]
pub enum RevisionDecision {
    /// Its revision is newer than any accepted on this connection: hand it on.
    Deliver,
    /// Its revision is not newer than the accepted one: drop it and report it.
    Reject { incoming: u64, accepted: u64 },
    /// The same stale revision again, already reported: drop it silently.
    Ignore,
}

/// A reported rejection: the revision that arrived and the one accepted then.
#[derive(Clone, Copy, Debug, PartialEq, Eq, Structural)]
pub struct RevisionRejection {
    pub incoming: u64,
    pub accepted: u64,
}

/// The revisions seen on one connection to the snapshot socket.
#[derive(Clone, Copy, Debug, PartialEq, Eq, Structural)]
pub struct RevisionGate {
    /// The newest revision delivered on this connection.
    pub accepted: Option<u64>,
    /// The last rejection reported since the last delivery.
    pub last_rejection: Option<RevisionRejection>,
}

/// The decision for a snapshot of `revision` at `gate`.
pub open spec fn revision_decision(gate: RevisionGate, revision: u64) -> RevisionDecision {
    match gate.accepted {
        Some(accepted) => {
            if revision > accepted {
                RevisionDecision::Deliver
            } else if gate.last_rejection == Some(RevisionRejection { incoming: revision, accepted }) {
                RevisionDecision::Ignore
            } else {
                RevisionDecision::Reject { incoming: revision, accepted }
            }
        },
        None => RevisionDecision::Deliver,
    }
}

/// The state of `gate` once a snapshot of `revision` has gone through it.
pub open spec fn gate_after(gate: RevisionGate, revision: u64) -> RevisionGate {
    match revision_decision(gate, revision) {
        RevisionDecision::Deliver => RevisionGate { accepted: Some(revision), last_rejection: None },
        RevisionDecision::Reject { incoming, accepted } => RevisionGate {
            accepted: gate.accepted,
            last_rejection: Some(RevisionRejection { incoming, accepted }),
        },
        RevisionDecision::Ignore => gate,
    }
}

impl RevisionGate {
    /// A gate that has let no snapshot through and turned none away.
    pub fn new() -> (gate: Self)
        ensures
            gate.accepted is None,
            gate.last_rejection is None,
    {
        RevisionGate { accepted: None, last_rejection: None }
    }

    /// Decides what becomes of a snapshot of `revision` and records it.
    pub fn decide(&mut self, revision: u64) -> (decision: RevisionDecision)
        ensures
            decision == revision_decision(*old(self), revision),
            *final(self) == gate_after(*old(self), revision),
    {
        match self.accepted {
            Some(accepted) => {
                if revision > accepted {
                    self.accepted = Some(revision);
                    self.last_rejection = None;
                    RevisionDecision::Deliver
                } else {
                    let repeated = match self.last_rejection {
                        Some(reported) => reported.incoming == revision && reported.accepted
                            == accepted,
                        None => false,
                    };
                    if repeated {
                        RevisionDecision::Ignore
                    } else {
                        self.last_rejection = Some(RevisionRejection { incoming: revision, accepted });
                        RevisionDecision::Reject { incoming: revision, accepted }
                    }
                }
            },
            None => {
                self.accepted = Some(revision);
                self.last_rejection = None;
                RevisionDecision::Deliver
            },
        }
    }
}

/// Once a revision has been delivered on a connection, no snapshot of the
/// same or an older revision is delivered after it.
pub proof fn lemma_delivered_revision_is_never_repeated(
    gate: RevisionGate,
    revision: u64,
    later: u64,
)
    requires
        revision_decision(gate, revision) == RevisionDecision::Deliver,
        later <= revision,
    ensures
        revision_decision(gate_after(gate, revision), later) != RevisionDecision::Deliver,
{
}

/// The accepted revision never goes down, whatever arrives.
pub proof fn lemma_accepted_revision_never_decreases(gate: RevisionGate, revision: u64)
    ensures
        gate_after(gate, revision).accepted is Some,
        gate.accepted matches Some(accepted) ==> gate_after(gate, revision).accepted->0 >= accepted,
{
}

/// A stale revision that arrives again and again is reported once.
pub proof fn lemma_rejection_is_reported_once(gate: RevisionGate, revision: u64)
    requires
        revision_decision(gate, revision) is Reject,
    ensures
        revision_decision(gate_after(gate, revision), revision) == RevisionDecision::Ignore,
{
}

/// The text of the report that tells the server that the lyrics of
/// `revision` are on screen: a one-line JSON object.
pub open spec fn lyrics_visible_report_text(revision: u64) -> Seq<char> {
    "{\"type\":\"lyricsVisible\",\"revision\":"@ + decimal(revision as nat) + "}\n"@
}

/// The report that tells the server that the lyrics of `revision` are on screen.
pub fn lyrics_visible_report(revision: u64) -> (report: String)
    ensures
        report@ == lyrics_visible_report_text(revision),
{
    let mut report = String::from_str("{\"type\":\"lyricsVisible\",\"revision\":");
    push_decimal(&mut report, revision as u128);
    report.append("}\n");
    report
}

} // verus!
