use vstd::prelude::*;

use crate::capture_viewport::{all_digits, digits_value, lemma_digits_value_nonnegative};
use crate::double_rounding::{nearest_double, nearest_double_exec};
use crate::metadata::{is_white_space, white_space};
use crate::text::{
    same_text, decimal, one_decimal, push_decimal, push_signed_decimal,
    push_tenths, rounded_tenths, signed_decimal,
};

verus! {

/// Whether the snapshot connection is up.
#[derive(Clone, Copy, Debug, PartialEq, Eq, Structural)]
pub enum ConnectionState {
    Connected,
    Disconnected,
}

/// Whether the diagnostics overlay is shown.
#[derive(Clone, Copy, Debug, PartialEq, Eq, Structural)]
pub struct DiagnosticsConfiguration {
    enabled: bool,
}

/// The diagnostics setting was none of `1`, `true`, `0` or `false`.
#[derive(Debug, PartialEq, Eq, Structural)]
pub struct DiagnosticsConfigurationError;

/// The accepted settings: absent, `0` and `false` disable; `1` and `true`
/// enable; anything else is an error.
pub open spec fn diagnostics_setting(value: Option<Seq<char>>) -> Option<bool> {
    match value {
        None => Some(false),
        Some(text) => if text == seq!['0'] || text == seq!['f', 'a', 'l', 's', 'e'] {
            Some(false)
        } else if text == seq!['1'] || text == seq!['t', 'r', 'u', 'e'] {
            Some(true)
        } else {
            None
        },
    }
}

impl DiagnosticsConfiguration {
    pub closed spec fn enabled_spec(self) -> bool {
        self.enabled
    }

    pub fn from_value(value: Option<&str>) -> (configuration: Result<
        Self,
        DiagnosticsConfigurationError,
    >)
        ensures
            match diagnostics_setting(
                match value {
                    Some(text) => Some(text@),
                    None => None,
                },
            ) {
                Some(enabled) => configuration matches Ok(configuration)
                    && configuration.enabled_spec() == enabled,
                None => configuration is Err,
            },
    {
        proof {
            reveal_strlit("0");
            reveal_strlit("false");
            reveal_strlit("1");
            reveal_strlit("true");
            assert("0"@ =~= seq!['0']);
            assert("false"@ =~= seq!['f', 'a', 'l', 's', 'e']);
            assert("1"@ =~= seq!['1']);
            assert("true"@ =~= seq!['t', 'r', 'u', 'e']);
        }
        let enabled = match value {
            None => false,
            Some(text) => {
                if same_text(text, "0") || same_text(text, "false") {
                    false
                } else if same_text(text, "1") || same_text(text, "true") {
                    true
                } else {
                    return Err(DiagnosticsConfigurationError);
                }
            },
        };
        Ok(Self { enabled })
    }

    pub fn enabled(self) -> (enabled: bool)
        ensures
            enabled == self.enabled_spec(),
    {
        self.enabled
    }
}

/// The abstract diagnostics observations. Times are monotonic nanoseconds.
pub struct DiagnosticsState {
    pub connection: ConnectionState,
    pub revision: Option<u64>,
    pub artwork_dimensions: Option<(i32, i32)>,
    pub previous_frame_at_nanos: Option<u128>,
    pub frame_time_nanos: Option<u128>,
}

/// Bounded observations shown in the diagnostics overlay.
#[derive(Debug)]
pub struct Diagnostics {
    connection: ConnectionState,
    revision: Option<u64>,
    artwork_dimensions: Option<(i32, i32)>,
    previous_frame_at: Option<u128>,
    frame_time: Option<u128>,
}

impl View for Diagnostics {
    type V = DiagnosticsState;

    closed spec fn view(&self) -> DiagnosticsState {
        DiagnosticsState {
            connection: self.connection,
            revision: self.revision,
            artwork_dimensions: self.artwork_dimensions,
            previous_frame_at_nanos: self.previous_frame_at,
            frame_time_nanos: self.frame_time,
        }
    }
}

impl Default for Diagnostics {
    fn default() -> (diagnostics: Self)
        ensures
            diagnostics@ == (DiagnosticsState {
                connection: ConnectionState::Disconnected,
                revision: None,
                artwork_dimensions: None,
                previous_frame_at_nanos: None,
                frame_time_nanos: None,
            }),
    {
        Self {
            connection: ConnectionState::Disconnected,
            revision: None,
            artwork_dimensions: None,
            previous_frame_at: None,
            frame_time: None,
        }
    }
}

/// The frame time between two frames, when the clock did not run backwards.
pub open spec fn frame_interval(previous: u128, now: u128) -> Option<u128> {
    if now >= previous {
        Some((now - previous) as u128)
    } else {
        None
    }
}

/// `—` when a value is unknown.
pub open spec fn unknown_text() -> Seq<char> {
    seq!['\u{2014}']
}

/// The memory line: the byte count as a double, in MiB, to one decimal place.
pub open spec fn memory_text(memory_bytes: Option<u64>) -> Seq<char> {
    match memory_bytes {
        Some(bytes) => one_decimal(rounded_tenths(nearest_double(bytes as nat), 1_048_576)) + seq![
            ' ',
            'M',
            'i',
            'B',
        ],
        None => unknown_text(),
    }
}

/// The frame line: the caller's figure for the frame time in milliseconds,
/// when a frame time is known.
pub open spec fn frame_text(frame_time_nanos: Option<u128>, frame_milliseconds: Seq<char>) -> Seq<
    char,
> {
    match frame_time_nanos {
        Some(_) => frame_milliseconds + seq![' ', 'm', 's'],
        None => unknown_text(),
    }
}

pub open spec fn artwork_text(dimensions: Option<(i32, i32)>) -> Seq<char> {
    match dimensions {
        Some((width, height)) => signed_decimal(width as int) + seq![' ', '\u{d7}', ' ']
            + signed_decimal(height as int),
        None => unknown_text(),
    }
}

pub open spec fn connection_text(connection: ConnectionState) -> Seq<char> {
    match connection {
        ConnectionState::Connected => seq!['c', 'o', 'n', 'n', 'e', 'c', 't', 'e', 'd'],
        ConnectionState::Disconnected => seq![
            'd',
            'i',
            's',
            'c',
            'o',
            'n',
            'n',
            'e',
            'c',
            't',
            'e',
            'd',
        ],
    }
}

pub open spec fn revision_text(revision: Option<u64>) -> Seq<char> {
    match revision {
        Some(revision) => decimal(revision as nat),
        None => unknown_text(),
    }
}

/// The overlay: memory in MiB to one decimal place, the frame time in
/// milliseconds, artwork dimensions, connection and revision, one per line.
pub open spec fn overlay_text_spec(
    state: DiagnosticsState,
    memory_bytes: Option<u64>,
    frame_milliseconds: Seq<char>,
) -> Seq<char> {
    "Memory  "@ + memory_text(memory_bytes) + "\nFrame   "@ + frame_text(
        state.frame_time_nanos,
        frame_milliseconds,
    )
        + "\nArtwork "@ + artwork_text(state.artwork_dimensions) + "\nConnection "@
        + connection_text(state.connection) + "\nRevision "@ + revision_text(state.revision)
}

impl Diagnostics {
    /// Records the connection; a disconnect forgets the artwork dimensions.
    pub fn observe_connection(&mut self, connection: ConnectionState)
        ensures
            final(self)@ == (DiagnosticsState {
                connection,
                artwork_dimensions: if connection == ConnectionState::Disconnected {
                    None
                } else {
                    old(self)@.artwork_dimensions
                },
                ..old(self)@
            }),
    {
        self.connection = connection;
        if connection == ConnectionState::Disconnected {
            self.artwork_dimensions = None;
        }
    }

    /// Records a snapshot's revision and the dimensions of its artwork file,
    /// as read by the caller.
    pub fn observe_snapshot(&mut self, revision: u64, artwork_dimensions: Option<(i32, i32)>)
        ensures
            final(self)@ == (DiagnosticsState {
                revision: Some(revision),
                artwork_dimensions,
                ..old(self)@
            }),
    {
        self.revision = Some(revision);
        self.artwork_dimensions = artwork_dimensions;
    }

    /// Records a frame: the time since the previous frame becomes the frame
    /// time.
    pub fn observe_frame(&mut self, frame_at_nanos: u128)
        ensures
            final(self)@ == (DiagnosticsState {
                previous_frame_at_nanos: Some(frame_at_nanos),
                frame_time_nanos: match old(self)@.previous_frame_at_nanos {
                    Some(previous) => frame_interval(previous, frame_at_nanos),
                    None => old(self)@.frame_time_nanos,
                },
                ..old(self)@
            }),
    {
        if let Some(previous_frame_at) = self.previous_frame_at {
            self.frame_time = if frame_at_nanos >= previous_frame_at {
                Some(frame_at_nanos - previous_frame_at)
            } else {
                None
            };
        }
        self.previous_frame_at = Some(frame_at_nanos);
    }

    /// The time between the last two frames, in nanoseconds.
    pub fn frame_time_nanos(&self) -> (frame_time: Option<u128>)
        ensures
            frame_time == self@.frame_time_nanos,
    {
        self.frame_time
    }

    /// The overlay text. The frame time is shown as `frame_milliseconds`, the
    /// caller's figure for `frame_time_nanos` in milliseconds to one decimal
    /// place; it is not used while no frame time is known.
    pub fn overlay_text(&self, memory_bytes: Option<u64>, frame_milliseconds: &str) -> (text:
        String)
        ensures
            text@ == overlay_text_spec(self@, memory_bytes, frame_milliseconds@),
    {
        proof {
            reveal_strlit("Memory  ");
            reveal_strlit("\nFrame   ");
            reveal_strlit("\nArtwork ");
            reveal_strlit("\nConnection ");
            reveal_strlit("\nRevision ");
        }
        let mut text = String::from_str("Memory  ");
        push_memory(&mut text, memory_bytes);
        text.append("\nFrame   ");
        push_frame(&mut text, self.frame_time, frame_milliseconds);
        text.append("\nArtwork ");
        push_artwork(&mut text, self.artwork_dimensions);
        text.append("\nConnection ");
        push_connection(&mut text, self.connection);
        text.append("\nRevision ");
        push_revision(&mut text, self.revision);
        assert(text@ =~= overlay_text_spec(self@, memory_bytes, frame_milliseconds@));
        text
    }
}

fn push_unknown(text: &mut String)
    ensures
        final(text)@ == old(text)@ + unknown_text(),
{
    proof {
        reveal_strlit("\u{2014}");
    }
    text.append("\u{2014}");
    assert(final(text)@ =~= old(text)@ + unknown_text());
}

fn push_memory(text: &mut String, memory_bytes: Option<u64>)
    ensures
        final(text)@ == old(text)@ + memory_text(memory_bytes),
{
    match memory_bytes {
        Some(bytes) => {
            let nearest = nearest_double_exec(bytes as u128);
            push_tenths(text, nearest * 10, 1_048_576);
            proof {
                reveal_strlit(" MiB");
            }
            text.append(" MiB");
            assert(final(text)@ =~= old(text)@ + memory_text(memory_bytes));
        },
        None => push_unknown(text),
    }
}

fn push_frame(text: &mut String, frame_time_nanos: Option<u128>, frame_milliseconds: &str)
    ensures
        final(text)@ == old(text)@ + frame_text(frame_time_nanos, frame_milliseconds@),
{
    match frame_time_nanos {
        Some(_) => {
            text.append(frame_milliseconds);
            proof {
                reveal_strlit(" ms");
            }
            text.append(" ms");
            assert(final(text)@ =~= old(text)@ + frame_text(frame_time_nanos, frame_milliseconds@));
        },
        None => push_unknown(text),
    }
}

fn push_artwork(text: &mut String, dimensions: Option<(i32, i32)>)
    ensures
        final(text)@ == old(text)@ + artwork_text(dimensions),
{
    match dimensions {
        Some((width, height)) => {
            push_signed_decimal(text, width);
            proof {
                reveal_strlit(" \u{d7} ");
            }
            text.append(" \u{d7} ");
            push_signed_decimal(text, height);
            assert(final(text)@ =~= old(text)@ + artwork_text(dimensions));
        },
        None => push_unknown(text),
    }
}

fn push_connection(text: &mut String, connection: ConnectionState)
    ensures
        final(text)@ == old(text)@ + connection_text(connection),
{
    proof {
        reveal_strlit("connected");
        reveal_strlit("disconnected");
    }
    match connection {
        ConnectionState::Connected => text.append("connected"),
        ConnectionState::Disconnected => text.append("disconnected"),
    }
    assert(final(text)@ =~= old(text)@ + connection_text(connection));
}

fn push_revision(text: &mut String, revision: Option<u64>)
    ensures
        final(text)@ == old(text)@ + revision_text(revision),
{
    match revision {
        Some(value) => push_decimal(text, value as u128),
        None => push_unknown(text),
    }
}

// ---------------------------------------------------------------------------
// Process status
// ---------------------------------------------------------------------------
/// What `u64::from_str` makes of `text`: an optional `+` and at least one
/// decimal digit, with a value that fits 64 bits; otherwise nothing.
pub open spec fn parsed_u64(text: Seq<char>) -> Option<u64> {
    let body = if text.len() > 0 && text[0] == '+' {
        text.drop_first()
    } else {
        text
    };
    if body.len() > 0 && all_digits(body) && digits_value(body) <= u64::MAX {
        Some(digits_value(body) as u64)
    } else {
        None
    }
}

/// `text[start..end]` read as a `u64` the way `u64::from_str` reads it.
fn parse_u64(text: &str, start: usize, end: usize) -> (value: Option<u64>)
    requires
        start <= end <= text@.len(),
    ensures
        value == parsed_u64(text@.subrange(start as int, end as int)),
{
    let ghost whole = text@.subrange(start as int, end as int);
    let mut first = start;
    if start < end && text.get_char(start) == '+' {
        first = start + 1;
    }
    let ghost body = text@.subrange(first as int, end as int);
    assert(body == if whole.len() > 0 && whole[0] == '+' {
        whole.drop_first()
    } else {
        whole
    });
    if first == end {
        return None;
    }
    let cap: u128 = 0x1_0000_0000_0000_0000;
    let mut value: u128 = 0;
    let mut index = first;
    while index < end
        invariant
            first <= index <= end <= text@.len(),
            start <= first,
            whole == text@.subrange(start as int, end as int),
            body == text@.subrange(first as int, end as int),
            body == if whole.len() > 0 && whole[0] == '+' {
                whole.drop_first()
            } else {
                whole
            },
            cap == 0x1_0000_0000_0000_0000,
            value <= cap,
            all_digits(text@.subrange(first as int, index as int)),
            value == if digits_value(text@.subrange(first as int, index as int)) < cap {
                digits_value(text@.subrange(first as int, index as int))
            } else {
                cap as int
            },
        decreases end - index,
    {
        let c = text.get_char(index);
        let ghost before = text@.subrange(first as int, index as int);
        let ghost after = text@.subrange(first as int, index + 1);
        assert(after.drop_last() =~= before);
        assert(after.last() == c);
        if !('0' <= c && c <= '9') {
            assert(!all_digits(body)) by {
                assert(body[index - first] == c);
            }
            return None;
        }
        let digit = (c as u32 - '0' as u32) as u128;
        proof {
            lemma_digits_value_nonnegative(before);
        }
        value = if value >= cap {
            cap
        } else {
            let next = value * 10 + digit;
            if next >= cap {
                cap
            } else {
                next
            }
        };
        index = index + 1;
        assert(all_digits(after));
    }
    assert(text@.subrange(first as int, end as int) =~= body);
    if value >= cap {
        None
    } else {
        Some(value as u64)
    }
}

/// The first line feed at or after `index`, or the end of `text`.
pub open spec fn line_end(text: Seq<char>, index: int) -> int
    decreases text.len() - index,
{
    if index < 0 || index >= text.len() {
        text.len() as int
    } else if text[index] == '\n' {
        index
    } else {
        line_end(text, index + 1)
    }
}

/// The line that starts at `start`: up to its line feed, without a carriage
/// return just before that line feed.
pub open spec fn line_from(text: Seq<char>, start: int) -> Seq<char> {
    let end = line_end(text, start);
    if end < text.len() && end > start && text[end - 1] == '\r' {
        text.subrange(start, end - 1)
    } else {
        text.subrange(start, end)
    }
}

/// The first index at or after `index` whose character is (`white`) or is
/// not (`!white`) white space, or the end of `text`.
pub open spec fn next_with_white(text: Seq<char>, index: int, white: bool) -> int
    decreases text.len() - index,
{
    if index < 0 || index >= text.len() {
        text.len() as int
    } else if is_white_space(text[index]) == white {
        index
    } else {
        next_with_white(text, index + 1, white)
    }
}

/// The first word of `text`, between white space, if there is one.
pub open spec fn first_word(text: Seq<char>) -> Option<Seq<char>> {
    let start = next_with_white(text, 0, false);
    if start >= text.len() {
        None
    } else {
        Some(text.subrange(start, next_with_white(text, start, true)))
    }
}

/// The resident kibibytes that a line of a process status gives: the line
/// starts with `VmRSS:` and its first word after that is a `u64`.
pub open spec fn resident_kibibytes_of(line: Seq<char>) -> Option<u64> {
    if line.len() >= 6 && line.subrange(0, 6) == "VmRSS:"@ {
        match first_word(line.subrange(6, line.len() as int)) {
            Some(word) => parsed_u64(word),
            None => None,
        }
    } else {
        None
    }
}

/// A line ends at a line feed after its start, or at the end of the text.
pub proof fn lemma_line_end_bounds(text: Seq<char>, index: int)
    requires
        0 <= index <= text.len(),
    ensures
        index <= line_end(text, index) <= text.len(),
        line_end(text, index) < text.len() ==> text[line_end(text, index)] == '\n',
        forall|between: int|
            index <= between < line_end(text, index) ==> text[between] != '\n',
    decreases text.len() - index,
{
    if index < text.len() && text[index] != '\n' {
        lemma_line_end_bounds(text, index + 1);
    }
}

/// The resident kibibytes that the first line from `start` on that gives
/// them gives.
pub open spec fn resident_kibibytes_from(text: Seq<char>, start: int) -> Option<u64>
    decreases text.len() + 1 - start,
    via resident_kibibytes_from_decreases
{
    if start < 0 || start >= text.len() {
        None
    } else {
        match resident_kibibytes_of(line_from(text, start)) {
            Some(kibibytes) => Some(kibibytes),
            None => resident_kibibytes_from(text, line_end(text, start) + 1),
        }
    }
}

#[via_fn]
proof fn resident_kibibytes_from_decreases(text: Seq<char>, start: int) {
    if 0 <= start < text.len() {
        lemma_line_end_bounds(text, start);
    }
}

/// The resident memory, in bytes, that a process status (the text of
/// `/proc/self/status`) reports on its first `VmRSS:` line with a number,
/// where that many kibibytes fit 64 bits as bytes.
pub open spec fn resident_memory(status: Seq<char>) -> Option<u64> {
    match resident_kibibytes_from(status, 0) {
        Some(kibibytes) => if kibibytes * 1024 <= u64::MAX {
            Some((kibibytes * 1024) as u64)
        } else {
            None
        },
        None => None,
    }
}

/// The resident kibibytes that the line `text[start..end]` gives.
fn resident_kibibytes_in(text: &str, start: usize, end: usize) -> (kibibytes: Option<u64>)
    requires
        start <= end <= text@.len(),
    ensures
        kibibytes == resident_kibibytes_of(text@.subrange(start as int, end as int)),
{
    let ghost line = text@.subrange(start as int, end as int);
    proof {
        reveal_strlit("VmRSS:");
    }
    if end - start < 6 {
        return None;
    }
    let prefix = "VmRSS:";
    let mut at: usize = 0;
    while at < 6
        invariant
            start + 6 <= end <= text@.len(),
            line == text@.subrange(start as int, end as int),
            prefix@ == "VmRSS:"@,
            prefix@.len() == 6,
            at <= 6,
            forall|earlier: int| 0 <= earlier < at ==> line[earlier] == prefix@[earlier],
        decreases 6 - at,
    {
        if text.get_char(start + at) != prefix.get_char(at) {
            assert(line.subrange(0, 6)[at as int] != "VmRSS:"@[at as int]);
            return None;
        }
        at = at + 1;
    }
    assert(line.subrange(0, 6) =~= "VmRSS:"@);
    let ghost rest = line.subrange(6, line.len() as int);
    let base = start + 6;
    let mut word_start = base;
    while word_start < end && white_space(text.get_char(word_start))
        invariant
            base <= word_start <= end <= text@.len(),
            base == start + 6,
            line == text@.subrange(start as int, end as int),
            rest == line.subrange(6, line.len() as int),
            next_with_white(rest, word_start - base, false) == next_with_white(rest, 0, false),
        decreases end - word_start,
    {
        assert(rest[word_start - base] == text@[word_start as int]);
        word_start = word_start + 1;
    }
    if word_start == end {
        assert(next_with_white(rest, word_start - base, false) == rest.len());
        return None;
    }
    assert(rest[word_start - base] == text@[word_start as int]);
    assert(next_with_white(rest, 0, false) == word_start - base);
    let mut word_end = word_start;
    while word_end < end && !white_space(text.get_char(word_end))
        invariant
            base <= word_start <= word_end <= end <= text@.len(),
            word_start < end,
            base == start + 6,
            line == text@.subrange(start as int, end as int),
            rest == line.subrange(6, line.len() as int),
            next_with_white(rest, word_end - base, true) == next_with_white(
                rest,
                word_start - base,
                true,
            ),
        decreases end - word_end,
    {
        assert(rest[word_end - base] == text@[word_end as int]);
        word_end = word_end + 1;
    }
    if word_end < end {
        assert(rest[word_end - base] == text@[word_end as int]);
    }
    assert(next_with_white(rest, word_start - base, true) == word_end - base);
    assert(text@.subrange(word_start as int, word_end as int) =~= rest.subrange(
        word_start - base,
        word_end - base,
    ));
    parse_u64(text, word_start, word_end)
}

/// The resident memory, in bytes, that a process status reports; see
/// `resident_memory`.
pub fn resident_memory_bytes(status: &str) -> (bytes: Option<u64>)
    ensures
        bytes == resident_memory(status@),
{
    let ghost text = status@;
    let length = status.unicode_len();
    let mut start: usize = 0;
    while start < length
        invariant
            text == status@,
            length == text.len(),
            start <= length,
            resident_kibibytes_from(text, start as int) == resident_kibibytes_from(text, 0),
        decreases length + 1 - start,
    {
        let mut end = start;
        while end < length && status.get_char(end) != '\n'
            invariant
                text == status@,
                length == text.len(),
                start <= end <= length,
                line_end(text, end as int) == line_end(text, start as int),
            decreases length - end,
        {
            end = end + 1;
        }
        assert(line_end(text, end as int) == end);
        let content_end = if end < length && end > start && status.get_char(end - 1) == '\r' {
            end - 1
        } else {
            end
        };
        assert(line_from(text, start as int) =~= text.subrange(start as int, content_end as int));
        match resident_kibibytes_in(status, start, content_end) {
            Some(kibibytes) => {
                return kibibytes.checked_mul(1024);
            },
            None => {},
        }
        if end == length {
            assert(resident_kibibytes_from(text, end + 1) is None);
            return None;
        }
        start = end + 1;
    }
    None
}

} // verus!
