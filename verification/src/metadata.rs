use vstd::prelude::*;

use crate::layout::{
    np_typography, now_playing_viewport_supported, MetadataFitting, MetadataFontSizes,
    NowPlayingLayout, Viewport,
};
use crate::presentation::NowPlayingPresentation;

verus! {

/// Most lines a Title may wrap to.
pub const TITLE_MAXIMUM_LINES: u32 = 5;

/// Most lines an Artist may wrap to.
pub const ARTIST_MAXIMUM_LINES: u32 = 3;

/// Most lines an Album may wrap to.
pub const ALBUM_MAXIMUM_LINES: u32 = 3;

/// The face a metadata line is set in.
#[derive(Clone, Copy, Debug, PartialEq, Eq, Structural)]
pub enum MetadataTypography {
    EditorialSerif,
    ArtistSans,
    AlbumSans,
}

// ---------------------------------------------------------------------------
// Words
// ---------------------------------------------------------------------------
/// Unicode white space, as `char::is_whitespace` decides it.
pub open spec fn is_white_space(c: char) -> bool {
    ||| ('\u{9}' <= c && c <= '\u{d}')
    ||| c == ' '
    ||| c == '\u{85}'
    ||| c == '\u{a0}'
    ||| c == '\u{1680}'
    ||| ('\u{2000}' <= c && c <= '\u{200a}')
    ||| c == '\u{2028}'
    ||| c == '\u{2029}'
    ||| c == '\u{202f}'
    ||| c == '\u{205f}'
    ||| c == '\u{3000}'
}

pub(crate) fn white_space(c: char) -> (white: bool)
    ensures
        white == is_white_space(c),
{
    ('\u{9}' <= c && c <= '\u{d}') || c == ' ' || c == '\u{85}' || c == '\u{a0}' || c
        == '\u{1680}' || ('\u{2000}' <= c && c <= '\u{200a}') || c == '\u{2028}' || c
        == '\u{2029}' || c == '\u{202f}' || c == '\u{205f}' || c == '\u{3000}'
}

/// Reading `text` from the left: the words completed so far and the word
/// being read.
pub open spec fn split_state(text: Seq<char>) -> (Seq<Seq<char>>, Seq<char>)
    decreases text.len(),
{
    if text.len() == 0 {
        (Seq::empty(), Seq::empty())
    } else {
        let (done, current) = split_state(text.drop_last());
        if is_white_space(text.last()) {
            if current.len() > 0 {
                (done.push(current), Seq::empty())
            } else {
                (done, current)
            }
        } else {
            (done, current.push(text.last()))
        }
    }
}

/// The maximal runs of non-white-space characters of `text`, in order.
pub open spec fn words_of(text: Seq<char>) -> Seq<Seq<char>> {
    let (done, current) = split_state(text);
    if current.len() > 0 {
        done.push(current)
    } else {
        done
    }
}

/// The characters of each string.
pub open spec fn texts(strings: Seq<String>) -> Seq<Seq<char>> {
    strings.map_values(|string: String| string@)
}

/// The words of `text`, split at Unicode white space.
pub fn split_words(text: &str) -> (words: Vec<String>)
    ensures
        texts(words@) == words_of(text@),
{
    let length = text.unicode_len();
    let mut words: Vec<String> = Vec::new();
    let mut start: usize = 0;
    let mut index: usize = 0;
    while index < length
        invariant
            length == text@.len(),
            index <= length,
            start <= index,
            texts(words@) == split_state(text@.take(index as int)).0,
            split_state(text@.take(index as int)).1 == text@.subrange(start as int, index as int),
        decreases length - index,
    {
        let c = text.get_char(index);
        assert(text@.take(index as int + 1).drop_last() =~= text@.take(index as int));
        assert(text@.take(index as int + 1).last() == c);
        if white_space(c) {
            if start < index {
                let word = String::from_str(text.substring_char(start, index));
                words.push(word);
                assert(texts(words@) =~= split_state(text@.take(index as int + 1)).0);
            }
            start = index + 1;
        }
        index = index + 1;
        assert(split_state(text@.take(index as int)).1 =~= text@.subrange(
            start as int,
            index as int,
        ));
    }
    if start < length {
        let word = String::from_str(text.substring_char(start, length));
        words.push(word);
    }
    assert(text@.take(length as int) =~= text@);
    assert(texts(words@) =~= words_of(text@));
    words
}

/// `words[start..end]` joined by single spaces.
pub open spec fn joined(words: Seq<Seq<char>>, start: int, end: int) -> Seq<char>
    decreases end - start,
{
    if end <= start {
        Seq::empty()
    } else if end == start + 1 {
        words[start]
    } else {
        joined(words, start, end - 1) + seq![' '] + words[end - 1]
    }
}

/// `words[start..end]` joined by single spaces.
pub fn join_words(words: &Vec<String>, start: usize, end: usize) -> (line: String)
    requires
        start <= end <= words.len(),
    ensures
        line@ == joined(texts(words@), start as int, end as int),
{
    let mut line = String::new();
    let mut index = start;
    while index < end
        invariant
            start <= index <= end <= words.len(),
            line@ == joined(texts(words@), start as int, index as int),
        decreases end - index,
    {
        if index > start {
            line.append(" ");
            proof {
                reveal_strlit(" ");
            }
        }
        line.append(words[index].as_str());
        index = index + 1;
        assert(line@ =~= joined(texts(words@), start as int, index as int));
    }
    line
}

// ---------------------------------------------------------------------------
// Measuring
// ---------------------------------------------------------------------------
/// A measure that can be asked about any text at any size and whose answer
/// depends on the characters and the size alone.
pub open spec fn measures_text<F: Fn(&str, u32) -> u32>(measure: F) -> bool {
    &&& forall|text: &str, size_px: u32| #[trigger] measure.requires((text, size_px))
    &&& forall|first: &str, second: &str, size_px: u32, first_px: u32, second_px: u32|
        #![trigger measure.ensures((first, size_px), first_px), measure.ensures((second, size_px), second_px)]
        measure.ensures((first, size_px), first_px) && measure.ensures((second, size_px), second_px)
            && first@ == second@ ==> first_px == second_px
}

/// Whether `measure` answered `width_px` for some string of the characters
/// `text` at `size_px`.
pub open spec fn measures_as<F: Fn(&str, u32) -> u32>(
    measure: F,
    text: Seq<char>,
    size_px: u32,
    width_px: u32,
) -> bool {
    exists|sample: &str| sample@ == text && #[trigger] measure.ensures((sample, size_px), width_px)
}

/// The width `measure` gives `text` at `size_px`.
pub open spec fn measured_px<F: Fn(&str, u32) -> u32>(
    measure: F,
    text: Seq<char>,
    size_px: u32,
) -> u32 {
    choose|width_px: u32| #[trigger] measures_as(measure, text, size_px, width_px)
}

proof fn lemma_measured<F: Fn(&str, u32) -> u32>(
    measure: F,
    sample: &str,
    size_px: u32,
    width_px: u32,
)
    requires
        measures_text(measure),
        measure.ensures((sample, size_px), width_px),
    ensures
        measured_px(measure, sample@, size_px) == width_px,
{
    let chosen = measured_px(measure, sample@, size_px);
    assert(measures_as(measure, sample@, size_px, width_px));
    let other = choose|other: &str| other@ == sample@ && #[trigger] measure.ensures((other, size_px), chosen);
    assert(measure.ensures((other, size_px), chosen));
}

/// Whether `measure` can be asked about any text at any size and answers
/// `width` of the text's characters and the size.
pub open spec fn measures_with<F: Fn(&str, u32) -> u32>(
    measure: F,
    width: spec_fn(Seq<char>, u32) -> u32,
) -> bool {
    &&& forall|text: &str, size_px: u32| #[trigger] measure.requires((text, size_px))
    &&& forall|text: &str, size_px: u32, width_px: u32|
        #[trigger] measure.ensures((text, size_px), width_px) ==> width_px == width(text@, size_px)
}

/// The widths a measure that depends on the characters and the size alone
/// gives.
pub open spec fn width_of<F: Fn(&str, u32) -> u32>(measure: F) -> spec_fn(Seq<char>, u32) -> u32 {
    |text: Seq<char>, size_px: u32| measured_px(measure, text, size_px)
}

proof fn lemma_measures_with_width_of<F: Fn(&str, u32) -> u32>(measure: F)
    requires
        measures_text(measure),
    ensures
        measures_with(measure, width_of(measure)),
{
    assert forall|text: &str, size_px: u32, width_px: u32|
        #[trigger] measure.ensures((text, size_px), width_px) implies width_px == width_of(measure)(
        text@,
        size_px,
    ) by {
        lemma_measured(measure, text, size_px, width_px);
    }
}

/// Measures `text` at `size_px`.
fn measure_px<F: Fn(&str, u32) -> u32>(
    measure: &F,
    Ghost(width): Ghost<spec_fn(Seq<char>, u32) -> u32>,
    text: &str,
    size_px: u32,
) -> (width_px: u32)
    requires
        measures_with(*measure, width),
    ensures
        width_px == width(text@, size_px),
{
    measure(text, size_px)
}

// ---------------------------------------------------------------------------
// Line widths
// ---------------------------------------------------------------------------
/// The widths of `word_px[start..end]` added up.
pub open spec fn sum_px(word_px: Seq<u32>, start: int, end: int) -> int
    decreases end - start,
{
    if end <= start {
        0
    } else {
        sum_px(word_px, start, end - 1) + word_px[end - 1]
    }
}

/// The width of `words[start..end]` set on one line with a space between
/// words.
pub open spec fn line_width_px(word_px: Seq<u32>, space_px: u32, start: int, end: int) -> int {
    if end <= start {
        0
    } else {
        sum_px(word_px, start, end) + space_px * (end - start - 1)
    }
}

/// The widths every run of words takes on one line: the entry at
/// `[start][end]` is the width of `words[start..end]`, kept to its low 32
/// bits, and zero where `end <= start`.
pub open spec fn width_table(word_px: Seq<u32>, space_px: u32) -> Seq<Seq<u32>> {
    Seq::new(
        word_px.len(),
        |start: int|
            Seq::new(
                (word_px.len() + 1) as nat,
                |end: int| line_width_px(word_px, space_px, start, end) as u32,
            ),
    )
}

/// The width of all the words on one line, kept to its low 32 bits.
pub open spec fn unbroken_width_px(word_px: Seq<u32>, space_px: u32) -> u32 {
    line_width_px(word_px, space_px, 0, word_px.len() as int) as u32
}

/// The width `measure` gives each word at `size_px`.
pub open spec fn word_widths(
    width: spec_fn(Seq<char>, u32) -> u32,
    words: Seq<Seq<char>>,
    size_px: u32,
) -> Seq<u32> {
    Seq::new(words.len(), |index: int| width(words[index], size_px))
}

/// The rows of a table.
pub open spec fn rows(table: Seq<Vec<u32>>) -> Seq<Seq<u32>> {
    table.map_values(|row: Vec<u32>| row@)
}

proof fn lemma_sum_split(word_px: Seq<u32>, start: int, middle: int, end: int)
    requires
        0 <= start <= middle <= end <= word_px.len(),
    ensures
        sum_px(word_px, start, end) == sum_px(word_px, start, middle) + sum_px(word_px, middle, end),
    decreases end - middle,
{
    if end > middle {
        lemma_sum_split(word_px, start, middle, end - 1);
    }
}

proof fn lemma_sum_bound(word_px: Seq<u32>, start: int, end: int)
    requires
        0 <= start <= end <= word_px.len(),
    ensures
        0 <= sum_px(word_px, start, end) <= (end - start) * 0xffff_ffff,
    decreases end - start,
{
    if end > start {
        lemma_sum_bound(word_px, start, end - 1);
    }
}

/// The width of each run of words, and of all the words on one line.
fn line_widths<F: Fn(&str, u32) -> u32>(
    words: &Vec<String>,
    font_size_px: u32,
    measure: &F,
    Ghost(width): Ghost<spec_fn(Seq<char>, u32) -> u32>,
) -> (widths: (Vec<Vec<u32>>, u32))
    requires
        measures_with(*measure, width),
        words.len() >= 1,
    ensures
        ({
            let space_px = width(seq![' '], font_size_px);
            let word_px = word_widths(width, texts(words@), font_size_px);
            &&& rows(widths.0@) == width_table(word_px, space_px)
            &&& widths.1 == unbroken_width_px(word_px, space_px)
        }),
{
    proof {
        reveal_strlit(" ");
        assert(" "@ =~= seq![' ']);
    }
    let space_px = measure_px(measure, Ghost(width), " ", font_size_px);
    let count = words.len();
    let ghost word_px = word_widths(width, texts(words@), font_size_px);
    let mut prefix_px: Vec<u128> = Vec::new();
    prefix_px.push(0);
    let mut index: usize = 0;
    while index < count
        invariant
            count == words.len(),
            index <= count,
            measures_with(*measure, width),
            word_px == word_widths(width, texts(words@), font_size_px),
            prefix_px.len() == index + 1,
            forall|at: int| 0 <= at <= index ==> #[trigger] prefix_px@[at] == sum_px(word_px, 0, at),
        decreases count - index,
    {
        let width_px = measure_px(measure, Ghost(width), words[index].as_str(), font_size_px);
        proof {
            lemma_sum_bound(word_px, 0, index as int);
        }
        let last = prefix_px[index];
        prefix_px.push(last + width_px as u128);
        index = index + 1;
    }
    let mut table: Vec<Vec<u32>> = Vec::new();
    let mut start: usize = 0;
    while start < count
        invariant
            count == words.len(),
            start <= count,
            prefix_px.len() == count + 1,
            forall|at: int| 0 <= at <= count ==> #[trigger] prefix_px@[at] == sum_px(word_px, 0, at),
            word_px.len() == count,
            table.len() == start,
            forall|row: int| 0 <= row < start ==> #[trigger] rows(table@)[row] == width_table(word_px, space_px)[row],
        decreases count - start,
    {
        let mut row: Vec<u32> = Vec::new();
        let mut end: usize = 0;
        while end <= count
            invariant
                count == words.len(),
                start < count,
                end <= count + 1,
                prefix_px.len() == count + 1,
                forall|at: int| 0 <= at <= count ==> #[trigger] prefix_px@[at] == sum_px(word_px, 0, at),
                word_px.len() == count,
                row.len() == end,
                forall|at: int| 0 <= at < end ==> #[trigger] row@[at] == line_width_px(word_px, space_px, start as int, at) as u32,
            decreases count + 1 - end,
        {
            if end <= start {
                row.push(0);
            } else {
                proof {
                    lemma_sum_split(word_px, 0, start as int, end as int);
                    lemma_sum_bound(word_px, 0, end as int);
                    lemma_sum_bound(word_px, start as int, end as int);
                }
                let words_px: u128 = prefix_px[end] - prefix_px[start];
                let gaps: u128 = (end - start - 1) as u128;
                assert(space_px as u128 * gaps <= 0xffff_ffff * 0xffff_ffff_ffff_ffff) by (nonlinear_arith)
                    requires
                        space_px <= 0xffff_ffff,
                        gaps <= 0xffff_ffff_ffff_ffff,
                ;
                assert(words_px <= 0xffff_ffff_ffff_ffff * 0xffff_ffff) by (nonlinear_arith)
                    requires
                        words_px <= (end - start) * 0xffff_ffff,
                        end - start <= 0xffff_ffff_ffff_ffff,
                ;
                let total: u128 = words_px + space_px as u128 * gaps;
                row.push(#[verifier::truncate] (total as u32));
            }
            end = end + 1;
        }
        assert(row@ =~= width_table(word_px, space_px)[start as int]);
        let ghost before = rows(table@);
        table.push(row);
        assert(rows(table@) =~= before.push(width_table(word_px, space_px)[start as int]));
        start = start + 1;
    }
    proof {
        lemma_sum_bound(word_px, 0, count as int);
    }
    let all_px: u128 = prefix_px[count];
    let gaps: u128 = (count - 1) as u128;
    assert(space_px as u128 * gaps <= 0xffff_ffff * 0xffff_ffff_ffff_ffff) by (nonlinear_arith)
        requires
            space_px <= 0xffff_ffff,
            gaps <= 0xffff_ffff_ffff_ffff,
    ;
    assert(all_px <= 0xffff_ffff_ffff_ffff * 0xffff_ffff) by (nonlinear_arith)
        requires
            all_px <= count * 0xffff_ffff,
            count <= 0xffff_ffff_ffff_ffff,
    ;
    let unbroken: u128 = all_px + space_px as u128 * gaps;
    assert(rows(table@) =~= width_table(word_px, space_px));
    (table, #[verifier::truncate] (unbroken as u32))
}

// ---------------------------------------------------------------------------
// Balanced line breaks
// ---------------------------------------------------------------------------
/// The largest cost one line can add to a score: the square of the largest
/// 32-bit shortfall.
pub open spec fn maximum_line_cost() -> int {
    0xffff_fffe_0000_0001int
}

/// Every row of the table has an entry for each end from zero to the word
/// count.
pub open spec fn well_formed_table(widths: Seq<Seq<u32>>) -> bool {
    forall|row: int| 0 <= row < widths.len() ==> #[trigger] widths[row].len() == widths.len() + 1
}

/// Whether every run `words[start..stop]` with `start < stop <= end` fits in
/// `available_px`.
pub open spec fn line_fits(widths: Seq<Seq<u32>>, available_px: u32, start: int, end: int) -> bool {
    forall|stop: int| start < stop <= end ==> #[trigger] widths[start][stop] <= available_px
}

/// The number of words that lines ending at `breaks` cover.
pub open spec fn covered(breaks: Seq<usize>) -> int {
    if breaks.len() == 0 {
        0
    } else {
        breaks.last() as int
    }
}

/// Whether each line `words[previous break..break]` is non-empty and fits.
pub open spec fn breaks_fit(widths: Seq<Seq<u32>>, available_px: u32, breaks: Seq<usize>) -> bool
    decreases breaks.len(),
{
    if breaks.len() == 0 {
        true
    } else {
        let start = covered(breaks.drop_last());
        let end = breaks.last() as int;
        &&& start < end <= widths.len()
        &&& line_fits(widths, available_px, start, end)
        &&& breaks_fit(widths, available_px, breaks.drop_last())
    }
}

/// Whether `breaks` sets `words[0..end]` on `line_count` lines that fit.
pub open spec fn splits_into(
    widths: Seq<Seq<u32>>,
    available_px: u32,
    line_count: int,
    end: int,
    breaks: Seq<usize>,
) -> bool {
    &&& breaks.len() == line_count
    &&& covered(breaks) == end
    &&& breaks_fit(widths, available_px, breaks)
}

/// The square of how far a line of `width_px` falls from `target_px`.
pub open spec fn shortfall_cost(target_px: int, width_px: int) -> int {
    (target_px - width_px) * (target_px - width_px)
}

/// The sum of the shortfall costs of the lines ending at `breaks`.
pub open spec fn breaks_score(widths: Seq<Seq<u32>>, target_px: int, breaks: Seq<usize>) -> int
    decreases breaks.len(),
{
    if breaks.len() == 0 {
        0
    } else {
        let start = covered(breaks.drop_last());
        breaks_score(widths, target_px, breaks.drop_last()) + shortfall_cost(
            target_px,
            widths[start][breaks.last() as int] as int,
        )
    }
}

/// The width each line would have if the unbroken width were shared out
/// evenly, rounded up.
pub open spec fn balanced_target_px(unbroken_px: u32, line_count: int) -> int {
    let unbroken = unbroken_px as int;
    if unbroken % line_count == 0 {
        unbroken / line_count
    } else {
        unbroken / line_count + 1
    }
}

/// Whether `first` is preferred to `second` among breakings of the same words
/// into the same number of lines: its last line starts earlier, or both last
/// lines start at the same word and the same holds of the lines before.
pub open spec fn prefers_breaks(first: Seq<usize>, second: Seq<usize>) -> bool
    decreases first.len(),
{
    if first.len() == 0 || second.len() == 0 {
        true
    } else {
        let first_start = covered(first.drop_last());
        let second_start = covered(second.drop_last());
        first_start < second_start || (first_start == second_start && prefers_breaks(
            first.drop_last(),
            second.drop_last(),
        ))
    }
}

/// A cell of the table of best partial breakings: the best breaking of
/// `words[0..end]` into `lines` lines, or none where there is none that
/// can still be completed.
pub open spec fn cell_ok(
    widths: Seq<Seq<u32>>,
    available_px: u32,
    target_px: int,
    line_count: int,
    lines: int,
    end: int,
    cell: Option<(u128, Vec<usize>)>,
) -> bool {
    match cell {
        Some((score, breaks)) => {
            &&& splits_into(widths, available_px, lines, end, breaks@)
            &&& score == breaks_score(widths, target_px, breaks@)
            &&& score <= lines * maximum_line_cost()
            &&& forall|other: Seq<usize>|
                #[trigger] splits_into(widths, available_px, lines, end, other) ==> {
                    &&& score <= breaks_score(widths, target_px, other)
                    &&& score == breaks_score(widths, target_px, other) ==> prefers_breaks(
                        breaks@,
                        other,
                    )
                }
        },
        None => end <= widths.len() - (line_count - lines) ==> forall|other: Seq<usize>|
            !#[trigger] splits_into(widths, available_px, lines, end, other),
    }
}

/// A row of `cell_ok` cells, one for each end.
pub open spec fn row_ok(
    widths: Seq<Seq<u32>>,
    available_px: u32,
    target_px: int,
    line_count: int,
    lines: int,
    row: Seq<Option<(u128, Vec<usize>)>>,
) -> bool {
    &&& row.len() == widths.len() + 1
    &&& forall|end: int|
        0 <= end <= widths.len() ==> #[trigger] cell_ok(
            widths,
            available_px,
            target_px,
            line_count,
            lines,
            end,
            row[end],
        )
}

/// A cell of the next row while it is being filled from the starts below
/// `processed` of the current row.
pub open spec fn next_cell_ok(
    widths: Seq<Seq<u32>>,
    available_px: u32,
    target_px: int,
    line_count: int,
    lines: int,
    end: int,
    current: Seq<Option<(u128, Vec<usize>)>>,
    processed: int,
    cell: Option<(u128, Vec<usize>)>,
) -> bool {
    let last_end = widths.len() - (line_count - lines - 1);
    match cell {
        Some((score, breaks)) => {
            &&& end <= last_end
            &&& splits_into(widths, available_px, lines + 1, end, breaks@)
            &&& score == breaks_score(widths, target_px, breaks@)
            &&& score <= (lines + 1) * maximum_line_cost()
            &&& forall|start: int|
                0 <= start < processed && start < end && line_fits(widths, available_px, start, end)
                    && #[trigger] current[start] is Some ==> score <= (current[start]->0).0
                    + shortfall_cost(target_px, widths[start][end] as int)
            &&& ({
                let chosen = covered(breaks@.drop_last());
                &&& 0 <= chosen < processed
                &&& current[chosen] is Some
                &&& (current[chosen]->0).1@ == breaks@.drop_last()
                &&& score == (current[chosen]->0).0 + shortfall_cost(
                    target_px,
                    widths[chosen][end] as int,
                )
                &&& forall|start: int|
                    0 <= start < chosen && start < end && line_fits(
                        widths,
                        available_px,
                        start,
                        end,
                    ) && #[trigger] current[start] is Some ==> score < (current[start]->0).0
                        + shortfall_cost(target_px, widths[start][end] as int)
            })
        },
        None => forall|start: int|
            0 <= start < processed && start < end <= last_end && line_fits(
                widths,
                available_px,
                start,
                end,
            ) ==> #[trigger] current[start] is None,
    }
}

/// How many starts have been tried for the cell at `end` while the start
/// `start` is extending lines up to `reached`.
pub open spec fn processed_through(start: int, reached: int, end: int) -> int {
    if start < end < reached {
        start + 1
    } else {
        start
    }
}

proof fn lemma_covered_at_least_lines(widths: Seq<Seq<u32>>, available_px: u32, breaks: Seq<usize>)
    requires
        breaks_fit(widths, available_px, breaks),
    ensures
        covered(breaks) >= breaks.len(),
        covered(breaks) <= widths.len(),
    decreases breaks.len(),
{
    if breaks.len() > 0 {
        lemma_covered_at_least_lines(widths, available_px, breaks.drop_last());
    }
}

proof fn lemma_score_bound(widths: Seq<Seq<u32>>, target_px: int, breaks: Seq<usize>)
    requires
        0 <= target_px <= 0xffff_ffff,
    ensures
        0 <= breaks_score(widths, target_px, breaks) <= breaks.len() * maximum_line_cost(),
    decreases breaks.len(),
{
    if breaks.len() > 0 {
        lemma_score_bound(widths, target_px, breaks.drop_last());
        let width_px = widths[covered(breaks.drop_last())][breaks.last() as int] as int;
        assert(0 <= shortfall_cost(target_px, width_px) <= maximum_line_cost()) by (nonlinear_arith)
            requires
                0 <= target_px <= 0xffff_ffff,
                0 <= width_px <= 0xffff_ffff,
        ;
        assert(breaks.len() * maximum_line_cost() == (breaks.len() - 1) * maximum_line_cost()
            + maximum_line_cost()) by (nonlinear_arith);
    }
}

/// A row with no cells filled.
fn empty_row(length: usize) -> (row: Vec<Option<(u128, Vec<usize>)>>)
    ensures
        row.len() == length,
        forall|at: int| 0 <= at < length ==> #[trigger] row@[at] is None,
{
    let mut row: Vec<Option<(u128, Vec<usize>)>> = Vec::new();
    while row.len() < length
        invariant
            row.len() <= length,
            forall|at: int| 0 <= at < row.len() ==> #[trigger] row@[at] is None,
        decreases length - row.len(),
    {
        row.push(None);
    }
    row
}

/// A copy of `breaks`.
fn copy_breaks(breaks: &Vec<usize>) -> (copy: Vec<usize>)
    ensures
        copy@ == breaks@,
{
    let mut copy: Vec<usize> = Vec::new();
    let mut index: usize = 0;
    while index < breaks.len()
        invariant
            index <= breaks.len(),
            copy@ == breaks@.take(index as int),
        decreases breaks.len() - index,
    {
        copy.push(breaks[index]);
        index = index + 1;
        assert(copy@ =~= breaks@.take(index as int));
    }
    assert(copy@ =~= breaks@);
    copy
}

/// The line ends that set all the words on `line_count` lines that fit in
/// `available_px` with the least sum of squared shortfalls from an even
/// share of the unbroken width; none when no such breaking exists.
pub fn balanced_breaks(
    line_widths: &Vec<Vec<u32>>,
    line_count: usize,
    available_px: u32,
    unbroken_px: u32,
) -> (breaks: Option<Vec<usize>>)
    requires
        1 <= line_count <= line_widths.len(),
        well_formed_table(rows(line_widths@)),
    ensures
        ({
            let widths = rows(line_widths@);
            let word_count = widths.len() as int;
            let target_px = balanced_target_px(unbroken_px, line_count as int);
            &&& breaks is None <==> forall|other: Seq<usize>|
                !#[trigger] splits_into(widths, available_px, line_count as int, word_count, other)
            &&& breaks matches Some(found) ==> {
                &&& splits_into(widths, available_px, line_count as int, word_count, found@)
                &&& forall|other: Seq<usize>|
                    #[trigger] splits_into(widths, available_px, line_count as int, word_count, other)
                        ==> {
                        &&& breaks_score(widths, target_px, found@) <= breaks_score(
                            widths,
                            target_px,
                            other,
                        )
                        &&& breaks_score(widths, target_px, found@) == breaks_score(
                            widths,
                            target_px,
                            other,
                        ) ==> prefers_breaks(found@, other)
                    }
            }
        }),
{
    let ghost widths = rows(line_widths@);
    let word_count = line_widths.len();
    let quotient: u64 = unbroken_px as u64 / line_count as u64;
    let target_px: u64 = if unbroken_px as u64 % line_count as u64 == 0 {
        quotient
    } else {
        assert(quotient < 0xffff_ffff) by (nonlinear_arith)
            requires
                quotient == unbroken_px as u64 / line_count as u64,
                unbroken_px as u64 % line_count as u64 != 0,
                line_count >= 1,
                unbroken_px <= 0xffff_ffff,
        ;
        quotient + 1
    };
    assert(target_px <= 0xffff_ffff) by (nonlinear_arith)
        requires
            quotient == unbroken_px as u64 / line_count as u64,
            line_count >= 1,
            unbroken_px <= 0xffff_ffff,
            target_px <= quotient + 1,
            target_px == quotient || quotient < 0xffff_ffff,
    ;
    let ghost target = target_px as int;
    assert(target == balanced_target_px(unbroken_px, line_count as int));
    assert(widths[0].len() == word_count + 1);
    assert(widths[0] == line_widths@[0]@);
    let row_length = line_widths[0].len();
    let mut current = empty_row(row_length);
    current.set(0, Some((0u128, Vec::new())));
    proof {
        assert forall|end: int| 0 <= end <= widths.len() implies #[trigger] cell_ok(
            widths,
            available_px,
            target,
            line_count as int,
            0,
            end,
            current@[end],
        ) by {
            if end == 0 {
                assert forall|other: Seq<usize>| #[trigger]
                    splits_into(widths, available_px, 0, 0, other) implies 0 <= breaks_score(
                    widths,
                    target,
                    other,
                ) by {
                    assert(other.len() == 0);
                }
                assert((current@[0]->0).1@ =~= Seq::<usize>::empty());
            }
        }
    }
    let mut used: usize = 0;
    while used < line_count
        invariant
            1 <= line_count <= word_count,
            word_count == line_widths.len(),
            widths == rows(line_widths@),
            well_formed_table(widths),
            0 <= target <= 0xffff_ffff,
            target == target_px,
            used <= line_count,
            row_length == word_count + 1,
            row_ok(widths, available_px, target, line_count as int, used as int, current@),
        decreases line_count - used,
    {
        let mut next = empty_row(row_length);
        let last_end = word_count - (line_count - used - 1);
        proof {
            assert forall|end: int| 0 <= end <= widths.len() implies #[trigger] next_cell_ok(
                widths,
                available_px,
                target,
                line_count as int,
                used as int,
                end,
                current@,
                used as int,
                next@[end],
            ) by {
                assert forall|start: int|
                    0 <= start < used && start < end <= last_end && line_fits(
                        widths,
                        available_px,
                        start,
                        end,
                    ) implies #[trigger] current@[start] is None by {
                    assert(cell_ok(
                        widths,
                        available_px,
                        target,
                        line_count as int,
                        used as int,
                        start,
                        current@[start],
                    ));
                    if current@[start] is Some {
                        lemma_covered_at_least_lines(widths, available_px, (current@[start]->0).1@);
                    }
                }
            }
        }
        let mut start: usize = used;
        while start < word_count
            invariant
                1 <= line_count <= word_count,
                word_count == line_widths.len(),
                widths == rows(line_widths@),
                well_formed_table(widths),
                0 <= target <= 0xffff_ffff,
                target == target_px,
                used < line_count,
                last_end == word_count - (line_count - used - 1),
                used <= start <= word_count,
                row_ok(widths, available_px, target, line_count as int, used as int, current@),
                next.len() == word_count + 1,
                forall|end: int|
                    0 <= end <= widths.len() ==> #[trigger] next_cell_ok(
                        widths,
                        available_px,
                        target,
                        line_count as int,
                        used as int,
                        end,
                        current@,
                        start as int,
                        next@[end],
                    ),
            decreases word_count - start,
        {
            assert(cell_ok(
                widths,
                available_px,
                target,
                line_count as int,
                used as int,
                start as int,
                current@[start as int],
            ));
            match &current[start] {
                None => {
                    assert forall|end: int| 0 <= end <= widths.len() implies #[trigger] next_cell_ok(
                        widths,
                        available_px,
                        target,
                        line_count as int,
                        used as int,
                        end,
                        current@,
                        start + 1,
                        next@[end],
                    ) by {
                        assert(next_cell_ok(
                            widths,
                            available_px,
                            target,
                            line_count as int,
                            used as int,
                            end,
                            current@,
                            start as int,
                            next@[end],
                        ));
                    }
                },
                Some((score, breaks)) => {
                    let score: u128 = *score;
                    proof {
                        lemma_covered_at_least_lines(widths, available_px, breaks@);
                    }
                    let mut end: usize = start + 1;
                    let mut stopped = false;
                    while !stopped && end <= last_end
                        invariant
                            1 <= line_count <= word_count,
                            word_count == line_widths.len(),
                            widths == rows(line_widths@),
                            well_formed_table(widths),
                            0 <= target <= 0xffff_ffff,
                            target == target_px,
                            used < line_count,
                            last_end == word_count - (line_count - used - 1),
                            used <= start < word_count,
                            start < end,
                            end <= last_end + 1 || end == start + 1,
                            stopped ==> end <= word_count && widths[start as int][end as int]
                                > available_px,
                            row_ok(widths, available_px, target, line_count as int, used as int, current@),
                            current@[start as int] == Some((score, *breaks)),
                            cell_ok(
                                widths,
                                available_px,
                                target,
                                line_count as int,
                                used as int,
                                start as int,
                                current@[start as int],
                            ),
                            line_fits(widths, available_px, start as int, end - 1),
                            next.len() == word_count + 1,
                            forall|other: int|
                                0 <= other <= widths.len() ==> #[trigger] next_cell_ok(
                                    widths,
                                    available_px,
                                    target,
                                    line_count as int,
                                    used as int,
                                    other,
                                    current@,
                                    processed_through(start as int, end as int, other),
                                    next@[other],
                                ),
                        decreases last_end + 1 - end + if stopped { 0int } else { 1int },
                    {
                        assert(widths[start as int].len() == word_count + 1);
                        assert(widths[start as int] == line_widths@[start as int]@);
                        let width_px = line_widths[start][end];
                        if width_px > available_px {
                            stopped = true;
                            continue;
                        }
                        let shortfall: u128 = if target_px >= width_px as u64 {
                            (target_px - width_px as u64) as u128
                        } else {
                            (width_px as u64 - target_px) as u128
                        };
                        proof {
                            assert(shortfall * shortfall == shortfall_cost(target, width_px as int))
                                by (nonlinear_arith)
                                requires
                                    shortfall == target - width_px || shortfall == width_px - target,
                            ;
                            assert(shortfall * shortfall <= maximum_line_cost()) by (nonlinear_arith)
                                requires
                                    shortfall <= 0xffff_ffff,
                            ;
                            assert((used + 1) * maximum_line_cost() == used * maximum_line_cost()
                                + maximum_line_cost()) by (nonlinear_arith);
                            assert((used + 1) * maximum_line_cost() <= 0xffff_ffff_ffff_ffff
                                * maximum_line_cost()) by (nonlinear_arith)
                                requires
                                    used + 1 <= 0xffff_ffff_ffff_ffff,
                            ;
                        }
                        let candidate: u128 = score + shortfall * shortfall;
                        let better = match &next[end] {
                            None => true,
                            Some((best, _)) => candidate < *best,
                        };
                        let ghost before = next@;
                        if better {
                            let mut candidate_breaks = copy_breaks(breaks);
                            candidate_breaks.push(end);
                            proof {
                                assert(candidate_breaks@.drop_last() =~= breaks@);
                                assert(line_fits(widths, available_px, start as int, end as int));
                            }
                            next.set(end, Some((candidate, candidate_breaks)));
                        }
                        proof {
                            assert forall|other: int|
                                0 <= other <= widths.len() implies #[trigger] next_cell_ok(
                                widths,
                                available_px,
                                target,
                                line_count as int,
                                used as int,
                                other,
                                current@,
                                processed_through(start as int, end + 1, other),
                                next@[other],
                            ) by {
                                assert(next_cell_ok(
                                    widths,
                                    available_px,
                                    target,
                                    line_count as int,
                                    used as int,
                                    other,
                                    current@,
                                    processed_through(start as int, end as int, other),
                                    before[other],
                                ));
                            }
                        }
                        end = end + 1;
                    }
                    proof {
                        assert forall|other: int|
                            0 <= other <= widths.len() implies #[trigger] next_cell_ok(
                            widths,
                            available_px,
                            target,
                            line_count as int,
                            used as int,
                            other,
                            current@,
                            start + 1,
                            next@[other],
                        ) by {
                            if stopped && other >= end {
                                assert(!line_fits(widths, available_px, start as int, other)) by {
                                    assert(widths[start as int][end as int] > available_px);
                                }
                            }
                            assert(next_cell_ok(
                                widths,
                                available_px,
                                target,
                                line_count as int,
                                used as int,
                                other,
                                current@,
                                processed_through(start as int, end as int, other),
                                next@[other],
                            ));
                        }
                    }
                },
            }
            start = start + 1;
        }
        proof {
            assert forall|end: int| 0 <= end <= widths.len() implies #[trigger] cell_ok(
                widths,
                available_px,
                target,
                line_count as int,
                used + 1,
                end,
                next@[end],
            ) by {
                assert(next_cell_ok(
                    widths,
                    available_px,
                    target,
                    line_count as int,
                    used as int,
                    end,
                    current@,
                    word_count as int,
                    next@[end],
                ));
                if end <= last_end {
                assert forall|other: Seq<usize>| #[trigger]
                    splits_into(widths, available_px, used + 1, end, other) implies {
                    let previous = other.drop_last();
                    let start = covered(previous);
                    &&& splits_into(widths, available_px, used as int, start, previous)
                    &&& start < end
                    &&& line_fits(widths, available_px, start, end)
                    &&& breaks_score(widths, target, other) == breaks_score(widths, target, previous)
                        + shortfall_cost(target, widths[start][end] as int)
                    &&& current@[start] is Some
                    &&& (current@[start]->0).0 <= breaks_score(widths, target, previous)
                } by {
                    let previous = other.drop_last();
                    let start = covered(previous);
                    lemma_covered_at_least_lines(widths, available_px, previous);
                    assert(cell_ok(
                        widths,
                        available_px,
                        target,
                        line_count as int,
                        used as int,
                        start,
                        current@[start],
                    ));
                    assert(splits_into(widths, available_px, used as int, start, previous));
                }
                if next@[end] is Some {
                    let score = (next@[end]->0).0;
                    let breaks = (next@[end]->0).1@;
                    let chosen = covered(breaks.drop_last());
                    assert forall|other: Seq<usize>|
                        #[trigger] splits_into(widths, available_px, used + 1, end, other) && score
                            == breaks_score(widths, target, other) implies prefers_breaks(
                        breaks,
                        other,
                    ) by {
                        let previous = other.drop_last();
                        let start = covered(previous);
                        lemma_covered_at_least_lines(widths, available_px, previous);
                        assert(cell_ok(
                            widths,
                            available_px,
                            target,
                            line_count as int,
                            used as int,
                            start,
                            current@[start],
                        ));
                        assert(splits_into(widths, available_px, used as int, start, previous));
                        assert(current@[start] is Some);
                        if start < chosen {
                            assert(score < (current@[start]->0).0 + shortfall_cost(
                                target,
                                widths[start][end] as int,
                            ));
                        }
                        if start == chosen {
                            assert(cell_ok(
                                widths,
                                available_px,
                                target,
                                line_count as int,
                                used as int,
                                chosen,
                                current@[chosen],
                            ));
                            assert(prefers_breaks(breaks.drop_last(), previous));
                        }
                    }
                }
                }
            }
        }
        current = next;
        used = used + 1;
    }
    assert(cell_ok(
        widths,
        available_px,
        target,
        line_count as int,
        line_count as int,
        word_count as int,
        current@[word_count as int],
    ));
    match &current[word_count] {
        Some((_, breaks)) => Some(copy_breaks(breaks)),
        None => None,
    }
}

// ---------------------------------------------------------------------------
// Lines
// ---------------------------------------------------------------------------
/// The first word of the line that ends at `breaks[index]`.
pub open spec fn line_start(breaks: Seq<usize>, index: int) -> int {
    if index == 0 {
        0
    } else {
        breaks[index - 1] as int
    }
}

/// Whether `breaks` rises strictly and stays within `word_count`.
pub open spec fn breaks_ordered(breaks: Seq<usize>, word_count: int) -> bool {
    forall|index: int|
        0 <= index < breaks.len() ==> line_start(breaks, index) < #[trigger] breaks[index]
            <= word_count
}

/// The lines that `breaks` makes of `words`.
pub open spec fn lines_of(words: Seq<Seq<char>>, breaks: Seq<usize>) -> Seq<Seq<char>> {
    Seq::new(
        breaks.len(),
        |index: int| joined(words, line_start(breaks, index), breaks[index] as int),
    )
}

proof fn lemma_fitting_breaks_ordered(widths: Seq<Seq<u32>>, available_px: u32, breaks: Seq<usize>)
    requires
        breaks_fit(widths, available_px, breaks),
    ensures
        breaks_ordered(breaks, widths.len() as int),
    decreases breaks.len(),
{
    if breaks.len() > 0 {
        let previous = breaks.drop_last();
        lemma_fitting_breaks_ordered(widths, available_px, previous);
        assert forall|index: int| 0 <= index < breaks.len() implies line_start(breaks, index)
            < #[trigger] breaks[index] <= widths.len() by {
            if index < breaks.len() - 1 {
                assert(previous[index] == breaks[index]);
                assert(line_start(previous, index) == line_start(breaks, index));
            }
        }
    }
}

/// The lines that `breaks` makes of `words`.
#[verifier::rlimit(40)]
fn lines_from_breaks(words: &Vec<String>, breaks: &Vec<usize>) -> (lines: Vec<String>)
    requires
        breaks_ordered(breaks@, words.len() as int),
    ensures
        texts(lines@) == lines_of(texts(words@), breaks@),
{
    let mut lines: Vec<String> = Vec::new();
    let mut start: usize = 0;
    let mut index: usize = 0;
    while index < breaks.len()
        invariant
            breaks_ordered(breaks@, words.len() as int),
            index <= breaks.len(),
            start == line_start(breaks@, index as int),
            texts(lines@) == lines_of(texts(words@), breaks@).take(index as int),
        decreases breaks.len() - index,
    {
        let end = breaks[index];
        let line = join_words(words, start, end);
        let ghost before = texts(lines@);
        lines.push(line);
        assert(texts(lines@) =~= before.push(line@));
        start = end;
        index = index + 1;
        assert(texts(lines@) =~= lines_of(texts(words@), breaks@).take(index as int));
    }
    assert(texts(lines@) =~= lines_of(texts(words@), breaks@));
    lines
}

/// The widths table of `words` at `size_px`.
pub open spec fn measured_table(
    width: spec_fn(Seq<char>, u32) -> u32,
    words: Seq<Seq<char>>,
    size_px: u32,
) -> Seq<Seq<u32>> {
    width_table(word_widths(width, words, size_px), width(seq![' '], size_px))
}

/// The width of all `words` on one line at `size_px`, kept to 32 bits.
pub open spec fn measured_unbroken_px(
    width: spec_fn(Seq<char>, u32) -> u32,
    words: Seq<Seq<char>>,
    size_px: u32,
) -> u32 {
    unbroken_width_px(word_widths(width, words, size_px), width(seq![' '], size_px))
}

/// Whether some breaking sets all the words on `line_count` lines that fit.
pub open spec fn can_break(widths: Seq<Seq<u32>>, available_px: u32, line_count: int) -> bool {
    exists|breaks: Seq<usize>| splits_into(widths, available_px, line_count, widths.len() as int, breaks)
}

/// Whether `breaks` is a balanced breaking: it uses the fewest lines, at most
/// `maximum_lines`, on which the words fit, among the breakings into that
/// many lines its lines fall least short of an even share of the unbroken
/// width, and of the breakings that fall as little short it is the preferred
/// one (`prefers_breaks`).
pub open spec fn is_balanced_breaking(
    widths: Seq<Seq<u32>>,
    available_px: u32,
    unbroken_px: u32,
    maximum_lines: int,
    breaks: Seq<usize>,
) -> bool {
    let line_count = breaks.len() as int;
    let target_px = balanced_target_px(unbroken_px, line_count);
    &&& 1 <= line_count <= maximum_lines
    &&& splits_into(widths, available_px, line_count, widths.len() as int, breaks)
    &&& forall|other: Seq<usize>|
        #[trigger] splits_into(widths, available_px, line_count, widths.len() as int, other) ==> {
            &&& breaks_score(widths, target_px, breaks) <= breaks_score(widths, target_px, other)
            &&& breaks_score(widths, target_px, breaks) == breaks_score(widths, target_px, other)
                ==> prefers_breaks(breaks, other)
        }
    &&& forall|fewer: int| 1 <= fewer < line_count ==> !#[trigger] can_break(widths, available_px, fewer)
}

/// The words set on the fewest lines, at most `maximum_lines`, that fit in
/// `available_px`, balanced; none when no such number of lines exists.
fn balanced_word_lines<F: Fn(&str, u32) -> u32>(
    words: &Vec<String>,
    maximum_lines: usize,
    available_px: u32,
    font_size_px: u32,
    measure: &F,
    Ghost(width): Ghost<spec_fn(Seq<char>, u32) -> u32>,
) -> (lines: Option<Vec<String>>)
    requires
        measures_with(*measure, width),
        words.len() >= 1,
    ensures
        ({
            let widths = measured_table(width, texts(words@), font_size_px);
            let unbroken_px = measured_unbroken_px(width, texts(words@), font_size_px);
            &&& lines is None <==> forall|line_count: int|
                1 <= line_count <= maximum_lines ==> !#[trigger] can_break(
                    widths,
                    available_px,
                    line_count,
                )
            &&& lines matches Some(found) ==> exists|breaks: Seq<usize>|
                #[trigger] is_balanced_breaking(widths, available_px, unbroken_px, maximum_lines as int, breaks)
                    && texts(found@) == lines_of(texts(words@), breaks)
        }),
{
    let (line_widths, unbroken_px) = line_widths(words, font_size_px, measure, Ghost(width));
    let ghost widths = measured_table(width, texts(words@), font_size_px);
    let word_count = words.len();
    let most = if maximum_lines < word_count {
        maximum_lines
    } else {
        word_count
    };
    proof {
        assert(well_formed_table(rows(line_widths@)));
    }
    let mut tried: usize = 0;
    while tried < most
        invariant
            measures_with(*measure, width),
            word_count == words.len(),
            widths == rows(line_widths@),
            widths == measured_table(width, texts(words@), font_size_px),
            unbroken_px == measured_unbroken_px(width, texts(words@), font_size_px),
            widths.len() == word_count,
            well_formed_table(widths),
            most <= maximum_lines,
            most <= word_count,
            tried <= most,
            forall|fewer: int| 1 <= fewer <= tried ==> !#[trigger] can_break(widths, available_px, fewer),
        decreases most - tried,
    {
        let line_count = tried + 1;
        match balanced_breaks(&line_widths, line_count, available_px, unbroken_px) {
            Some(breaks) => {
                proof {
                    lemma_fitting_breaks_ordered(widths, available_px, breaks@);
                    assert(is_balanced_breaking(widths, available_px, unbroken_px, maximum_lines as int, breaks@));
                    assert(can_break(widths, available_px, line_count as int));
                }
                let lines = lines_from_breaks(words, &breaks);
                return Some(lines);
            },
            None => {
                proof {
                    if can_break(widths, available_px, line_count as int) {
                        let witness = choose|breaks: Seq<usize>| splits_into(widths, available_px, line_count as int, widths.len() as int, breaks);
                        assert(splits_into(widths, available_px, line_count as int, word_count as int, witness));
                    }
                }
            },
        }
        tried = line_count;
    }
    proof {
        assert forall|line_count: int| 1 <= line_count <= maximum_lines implies !#[trigger] can_break(
            widths,
            available_px,
            line_count,
        ) by {
            if line_count > most {
                if can_break(widths, available_px, line_count) {
                    let witness = choose|breaks: Seq<usize>| splits_into(widths, available_px, line_count, widths.len() as int, breaks);
                    lemma_covered_at_least_lines(widths, available_px, witness);
                }
            }
        }
    }
    None
}

// ---------------------------------------------------------------------------
// Truncated lines
// ---------------------------------------------------------------------------
/// How far from `start` an ellipsized line reaches once the words before
/// `end` are on it: words are added while they and the ellipsis still fit.
pub open spec fn ellipsis_end(
    width: spec_fn(Seq<char>, u32) -> u32,
    words: Seq<Seq<char>>,
    start: int,
    size_px: u32,
    available_px: u32,
    end: int,
) -> int
    decreases words.len() - end,
{
    if end < words.len() && width(joined(words, start, end + 1) + seq!['\u{2026}'], size_px)
        <= available_px {
        ellipsis_end(width, words, start, size_px, available_px, end + 1)
    } else {
        end
    }
}

/// The words from `start` on that fit with an ellipsis after them, and the
/// ellipsis; the ellipsis alone when not even the first word fits.
pub open spec fn ellipsized(
    width: spec_fn(Seq<char>, u32) -> u32,
    words: Seq<Seq<char>>,
    start: int,
    size_px: u32,
    available_px: u32,
) -> Seq<char> {
    joined(words, start, ellipsis_end(width, words, start, size_px, available_px, start)) + seq![
        '\u{2026}',
    ]
}

/// The end of a line that starts at `start` once it holds the words before
/// `end`: words are added while the line with one more word still fits, up
/// to `last_end`.
pub open spec fn greedy_end(
    width: spec_fn(Seq<char>, u32) -> u32,
    words: Seq<Seq<char>>,
    start: int,
    size_px: u32,
    available_px: u32,
    last_end: int,
    end: int,
) -> int
    decreases last_end - end,
{
    if end < last_end && width(joined(words, start, end + 1), size_px) <= available_px {
        greedy_end(width, words, start, size_px, available_px, last_end, end + 1)
    } else {
        end
    }
}

/// Lines `line_index..line_count` of a truncated setting whose line
/// `line_index` starts at word `start`: each but the last holds as many
/// words as fit while leaving a word for every later line; the last holds
/// the rest, ellipsized.
pub open spec fn truncated_lines(
    width: spec_fn(Seq<char>, u32) -> u32,
    words: Seq<Seq<char>>,
    size_px: u32,
    available_px: u32,
    line_count: int,
    line_index: int,
    start: int,
) -> Seq<Seq<char>>
    decreases line_count - line_index,
{
    if line_index >= line_count {
        Seq::empty()
    } else if line_index + 1 == line_count {
        seq![ellipsized(width, words, start, size_px, available_px)]
    } else {
        let last_end = words.len() - (line_count - line_index - 1);
        let end = greedy_end(width, words, start, size_px, available_px, last_end, start + 1);
        seq![joined(words, start, end)] + truncated_lines(
            width,
            words,
            size_px,
            available_px,
            line_count,
            line_index + 1,
            end,
        )
    }
}

/// The number of lines a truncated setting of `word_count` words uses.
pub open spec fn truncated_line_count(maximum_lines: int, word_count: int) -> int {
    let at_least_one = if maximum_lines < 1 {
        1
    } else {
        maximum_lines
    };
    if at_least_one < word_count {
        at_least_one
    } else {
        word_count
    }
}

proof fn lemma_greedy_end_bounds(
    width: spec_fn(Seq<char>, u32) -> u32,
    words: Seq<Seq<char>>,
    start: int,
    size_px: u32,
    available_px: u32,
    last_end: int,
    end: int,
)
    requires
        end <= last_end,
    ensures
        end <= greedy_end(width, words, start, size_px, available_px, last_end, end) <= last_end,
    decreases last_end - end,
{
    if end < last_end {
        lemma_greedy_end_bounds(width, words, start, size_px, available_px, last_end, end + 1);
    }
}

/// The words from `start` on that fit in `available_px` with an ellipsis
/// after them, and the ellipsis.
fn ellipsized_line<F: Fn(&str, u32) -> u32>(
    words: &Vec<String>,
    start: usize,
    available_px: u32,
    font_size_px: u32,
    measure: &F,
    Ghost(width): Ghost<spec_fn(Seq<char>, u32) -> u32>,
) -> (line: String)
    requires
        measures_with(*measure, width),
        start <= words.len(),
    ensures
        line@ == ellipsized(width, texts(words@), start as int, font_size_px, available_px),
{
    let ghost all = texts(words@);
    proof {
        reveal_strlit("\u{2026}");
    }
    let mut fitted = String::from_str("\u{2026}");
    let mut end = start;
    let mut stopped = false;
    assert(fitted@ =~= joined(all, start as int, end as int) + seq!['\u{2026}']);
    while !stopped && end < words.len()
        invariant
            measures_with(*measure, width),
            all == texts(words@),
            start <= end <= words.len(),
            fitted@ == joined(all, start as int, end as int) + seq!['\u{2026}'],
            stopped ==> ellipsis_end(width, all, start as int, font_size_px, available_px, start as int)
                == end,
            !stopped ==> ellipsis_end(width, all, start as int, font_size_px, available_px, start as int)
                == ellipsis_end(width, all, start as int, font_size_px, available_px, end as int),
        decreases words.len() - end + if stopped { 0int } else { 1int },
    {
        proof {
            reveal_strlit("\u{2026}");
        }
        let mut candidate = join_words(words, start, end + 1);
        candidate.append("\u{2026}");
        assert(candidate@ =~= joined(all, start as int, end + 1) + seq!['\u{2026}']);
        let width_px = measure_px(measure, Ghost(width), candidate.as_str(), font_size_px);
        if width_px > available_px {
            stopped = true;
        } else {
            fitted = candidate;
            end = end + 1;
        }
    }
    fitted
}

/// The words on at most `maximum_lines` lines (and at least one), each
/// filled while it fits and the last ellipsized.
fn truncated_word_lines<F: Fn(&str, u32) -> u32>(
    words: &Vec<String>,
    maximum_lines: usize,
    available_px: u32,
    font_size_px: u32,
    measure: &F,
    Ghost(width): Ghost<spec_fn(Seq<char>, u32) -> u32>,
) -> (lines: Vec<String>)
    requires
        measures_with(*measure, width),
        words.len() >= 1,
    ensures
        texts(lines@) == truncated_lines(
            width,
            texts(words@),
            font_size_px,
            available_px,
            truncated_line_count(maximum_lines as int, words.len() as int),
            0,
            0,
        ),
{
    let ghost all = texts(words@);
    let word_count = words.len();
    let at_least_one = if maximum_lines < 1 {
        1
    } else {
        maximum_lines
    };
    let line_count = if at_least_one < word_count {
        at_least_one
    } else {
        word_count
    };
    let ghost whole = truncated_lines(
        width,
        all,
        font_size_px,
        available_px,
        line_count as int,
        0,
        0,
    );
    let mut lines: Vec<String> = Vec::new();
    let mut start: usize = 0;
    let mut line_index: usize = 0;
    assert(whole =~= texts(lines@) + truncated_lines(
        width,
        all,
        font_size_px,
        available_px,
        line_count as int,
        0,
        0,
    ));
    while line_index + 1 < line_count
        invariant
            measures_with(*measure, width),
            all == texts(words@),
            word_count == words.len(),
            1 <= line_count <= word_count,
            line_index < line_count,
            line_index <= start <= word_count - (line_count - line_index),
            whole == truncated_lines(width, all, font_size_px, available_px, line_count as int, 0, 0),
            whole == texts(lines@) + truncated_lines(
                width,
                all,
                font_size_px,
                available_px,
                line_count as int,
                line_index as int,
                start as int,
            ),
        decreases line_count - line_index,
    {
        let last_end = word_count - (line_count - line_index - 1);
        let mut end = start + 1;
        let mut stopped = false;
        while !stopped && end < last_end
            invariant
                measures_with(*measure, width),
                all == texts(words@),
                word_count == words.len(),
                start < end <= last_end <= word_count,
                stopped ==> greedy_end(width, all, start as int, font_size_px, available_px, last_end as int, start + 1)
                    == end,
                !stopped ==> greedy_end(width, all, start as int, font_size_px, available_px, last_end as int, start + 1)
                    == greedy_end(width, all, start as int, font_size_px, available_px, last_end as int, end as int),
            decreases last_end - end + if stopped { 0int } else { 1int },
        {
            let candidate = join_words(words, start, end + 1);
            let width_px = measure_px(measure, Ghost(width), candidate.as_str(), font_size_px);
            if width_px > available_px {
                stopped = true;
            } else {
                end = end + 1;
            }
        }
        let line = join_words(words, start, end);
        let ghost before = texts(lines@);
        lines.push(line);
        assert(texts(lines@) =~= before.push(line@));
        assert(whole =~= texts(lines@) + truncated_lines(
            width,
            all,
            font_size_px,
            available_px,
            line_count as int,
            line_index + 1,
            end as int,
        ));
        start = end;
        line_index = line_index + 1;
    }
    let last = ellipsized_line(words, start, available_px, font_size_px, measure, Ghost(width));
    let ghost before = texts(lines@);
    lines.push(last);
    assert(texts(lines@) =~= before.push(last@));
    assert(texts(lines@) =~= whole);
    lines
}

// ---------------------------------------------------------------------------
// Line plans
// ---------------------------------------------------------------------------
/// One metadata line to be set: its text, face, sizes and most lines.
#[derive(Clone, Debug, PartialEq, Eq)]
pub struct MetadataLineLayout {
    pub text: String,
    pub typography: MetadataTypography,
    pub font_sizes: MetadataFontSizes,
    pub maximum_lines: u32,
}

/// How a metadata line is set: its lines, size, leading and height.
#[derive(Clone, Debug, PartialEq, Eq)]
pub struct MetadataLinePlan {
    pub lines: Vec<String>,
    pub font_size_px: u32,
    pub line_height_percent: u32,
    pub height_px: u32,
    pub ellipsized: bool,
}

/// A line plan with its lines taken as characters.
pub struct LinePlanView {
    pub lines: Seq<Seq<char>>,
    pub font_size_px: u32,
    pub line_height_percent: u32,
    pub height_px: u32,
    pub ellipsized: bool,
}

impl View for MetadataLinePlan {
    type V = LinePlanView;

    open spec fn view(&self) -> LinePlanView {
        LinePlanView {
            lines: texts(self.lines@),
            font_size_px: self.font_size_px,
            line_height_percent: self.line_height_percent,
            height_px: self.height_px,
            ellipsized: self.ellipsized,
        }
    }
}

/// The leading of a metadata line in percent of its size: the serif opens
/// up as it shrinks, the sans tightens below its preferred size.
pub open spec fn line_height_percent_for(
    typography: MetadataTypography,
    sizes: MetadataFontSizes,
    font_size_px: u32,
) -> u32 {
    match typography {
        MetadataTypography::EditorialSerif => if font_size_px == sizes.preferred_px {
            94
        } else if font_size_px == sizes.reduced_px {
            96
        } else {
            98
        },
        _ => if font_size_px == sizes.preferred_px {
            125
        } else {
            118
        },
    }
}

/// The height added by the lines after the first, rounded up.
pub open spec fn additional_height_px(line_count: int, font_size_px: u32, line_height_percent: u32) -> int {
    let additional_lines = if line_count > 1 {
        line_count - 1
    } else {
        0
    };
    let raw = font_size_px * line_height_percent * additional_lines;
    if raw % 100 == 0 {
        raw / 100
    } else {
        raw / 100 + 1
    }
}

/// The height of `line_count` lines set at `font_size_px` with the given
/// leading: one size for the first line and the leading for each further
/// line.
pub open spec fn rendered_height_px(line_count: int, font_size_px: u32, line_height_percent: u32) -> int {
    font_size_px + additional_height_px(line_count, font_size_px, line_height_percent)
}

/// Whether that height can be computed in 64 bits and held in 32.
pub open spec fn height_fits(line_count: int, font_size_px: u32, line_height_percent: u32) -> bool {
    let additional_lines = if line_count > 1 {
        line_count - 1
    } else {
        0
    };
    &&& font_size_px * line_height_percent * additional_lines <= u64::MAX
    &&& rendered_height_px(line_count, font_size_px, line_height_percent) <= u32::MAX
}

proof fn lemma_height_monotone(
    fewer: int,
    more: int,
    font_size_px: u32,
    line_height_percent: u32,
)
    requires
        0 <= fewer <= more,
        height_fits(more, font_size_px, line_height_percent),
    ensures
        height_fits(fewer, font_size_px, line_height_percent),
        rendered_height_px(fewer, font_size_px, line_height_percent) <= rendered_height_px(
            more,
            font_size_px,
            line_height_percent,
        ),
{
    let fewer_lines = if fewer > 1 {
        fewer - 1
    } else {
        0
    };
    let more_lines = if more > 1 {
        more - 1
    } else {
        0
    };
    let step = font_size_px * line_height_percent;
    assert(step * fewer_lines <= step * more_lines) by (nonlinear_arith)
        requires
            0 <= fewer_lines <= more_lines,
            0 <= step,
    ;
    assert(font_size_px * line_height_percent * fewer_lines == step * fewer_lines);
    assert(font_size_px * line_height_percent * more_lines == step * more_lines);
    let low = step * fewer_lines;
    let high = step * more_lines;
    assert((if low % 100 == 0 { low / 100 } else { low / 100 + 1 }) <= (if high % 100 == 0 {
        high / 100
    } else {
        high / 100 + 1
    })) by (nonlinear_arith)
        requires
            0 <= low <= high,
    ;
}

/// The height of `line_count` lines at `font_size_px` with the given leading.
pub fn rendered_text_height_px(line_count: usize, font_size_px: u32, line_height_percent: u32) -> (height_px: u32)
    requires
        height_fits(line_count as int, font_size_px, line_height_percent),
    ensures
        height_px == rendered_height_px(line_count as int, font_size_px, line_height_percent),
{
    let additional_lines: u64 = if line_count > 1 {
        (line_count - 1) as u64
    } else {
        0
    };
    assert(font_size_px as u64 * line_height_percent as u64 <= 0xffff_ffff * 0xffff_ffff) by (nonlinear_arith)
        requires
            font_size_px <= 0xffff_ffff,
            line_height_percent <= 0xffff_ffff,
    ;
    let raw: u64 = font_size_px as u64 * line_height_percent as u64 * additional_lines;
    let additional_px: u64 = if raw % 100 == 0 {
        raw / 100
    } else {
        raw / 100 + 1
    };
    font_size_px + additional_px as u32
}

/// A line plan whose height is that of its lines at its size.
fn line_plan(lines: Vec<String>, font_size_px: u32, line_height_percent: u32, ellipsized: bool) -> (plan: MetadataLinePlan)
    requires
        height_fits(lines.len() as int, font_size_px, line_height_percent),
    ensures
        plan@ == (LinePlanView {
            lines: texts(lines@),
            font_size_px,
            line_height_percent,
            height_px: rendered_height_px(lines.len() as int, font_size_px, line_height_percent) as u32,
            ellipsized,
        }),
{
    let height_px = rendered_text_height_px(lines.len(), font_size_px, line_height_percent);
    MetadataLinePlan { lines, font_size_px, line_height_percent, height_px, ellipsized }
}

impl MetadataLineLayout {
    /// The leading of this line at `font_size_px`.
    pub fn line_height_percent(&self, font_size_px: u32) -> (percent: u32)
        ensures
            percent == line_height_percent_for(self.typography, self.font_sizes, font_size_px),
    {
        match self.typography {
            MetadataTypography::EditorialSerif => {
                if font_size_px == self.font_sizes.preferred_px {
                    94
                } else if font_size_px == self.font_sizes.reduced_px {
                    96
                } else {
                    98
                }
            },
            MetadataTypography::ArtistSans | MetadataTypography::AlbumSans => {
                if font_size_px == self.font_sizes.preferred_px {
                    125
                } else {
                    118
                }
            },
        }
    }

    /// The size a single unbroken line is tried at: the preferred size.
    pub fn single_line_font_size_px(&self) -> (size_px: u32)
        ensures
            size_px == self.font_sizes.preferred_px,
    {
        self.font_sizes.preferred_px
    }
}

// ---------------------------------------------------------------------------
// Fitting one line
// ---------------------------------------------------------------------------
/// Whether the words fit on some number of lines from one to
/// `maximum_lines` at `size_px`.
pub open spec fn fits_on_lines(
    width: spec_fn(Seq<char>, u32) -> u32,
    words: Seq<Seq<char>>,
    size_px: u32,
    available_px: u32,
    maximum_lines: int,
) -> bool {
    exists|line_count: int|
        1 <= line_count <= maximum_lines && #[trigger] can_break(
            measured_table(width, words, size_px),
            available_px,
            line_count,
        )
}

/// Whether `lines` are the words of a balanced breaking at `size_px`.
pub open spec fn is_balanced_setting(
    width: spec_fn(Seq<char>, u32) -> u32,
    words: Seq<Seq<char>>,
    size_px: u32,
    available_px: u32,
    maximum_lines: int,
    lines: Seq<Seq<char>>,
) -> bool {
    exists|breaks: Seq<usize>|
        #[trigger] is_balanced_breaking(
            measured_table(width, words, size_px),
            available_px,
            measured_unbroken_px(width, words, size_px),
            maximum_lines,
            breaks,
        ) && lines == lines_of(words, breaks)
}

/// Whether `plan` sets `lines` at `size_px` with the line's leading, the
/// height of those lines at a line height of `line_px`, and the given
/// ellipsis flag.
pub open spec fn plan_sets(
    layout: MetadataLineLayout,
    plan: LinePlanView,
    lines: Seq<Seq<char>>,
    size_px: u32,
    line_px: u32,
    ellipsized: bool,
) -> bool {
    let percent = line_height_percent_for(layout.typography, layout.font_sizes, size_px);
    plan == LinePlanView {
        lines,
        font_size_px: size_px,
        line_height_percent: percent,
        height_px: rendered_height_px(lines.len() as int, line_px, percent) as u32,
        ellipsized,
    }
}

/// Whether `plan` is a balanced setting of the words at `size_px`.
pub open spec fn plan_balances(
    layout: MetadataLineLayout,
    width: spec_fn(Seq<char>, u32) -> u32,
    available_px: u32,
    maximum_lines: int,
    plan: LinePlanView,
    size_px: u32,
    line_px: u32,
) -> bool {
    &&& is_balanced_setting(
        width,
        words_of(layout.text@),
        size_px,
        available_px,
        maximum_lines,
        plan.lines,
    )
    &&& plan_sets(layout, plan, plan.lines, size_px, line_px, false)
}

/// Whether the heights of the most lines a metadata line can take fit, at
/// each of its sizes.
pub open spec fn line_heights_fit(layout: MetadataLineLayout) -> bool {
    let count = truncated_line_count(
        layout.maximum_lines as int,
        words_of(layout.text@).len() as int,
    );
    let sizes = layout.font_sizes;
    &&& height_fits(
        count,
        sizes.preferred_px,
        line_height_percent_for(layout.typography, sizes, sizes.preferred_px),
    )
    &&& height_fits(
        count,
        sizes.reduced_px,
        line_height_percent_for(layout.typography, sizes, sizes.reduced_px),
    )
    &&& height_fits(
        count,
        sizes.minimum_px,
        line_height_percent_for(layout.typography, sizes, sizes.minimum_px),
    )
}

/// The plan `fitting_line_plan` makes: the whole text on one line at the
/// preferred size when it fits there; else a balanced setting at the first
/// of the preferred, reduced and minimum sizes at which the words fit on at
/// most the line's maximum of lines; else the truncated setting at the
/// minimum size, ellipsized. A text without words is one empty line.
pub open spec fn fitting_line_plan_spec(
    layout: MetadataLineLayout,
    width: spec_fn(Seq<char>, u32) -> u32,
    available_px: u32,
    plan: LinePlanView,
) -> bool {
    let words = words_of(layout.text@);
    let sizes = layout.font_sizes;
    let most = layout.maximum_lines as int;
    if words.len() == 0 {
        plan_sets(layout, plan, seq![Seq::empty()], sizes.preferred_px, sizes.preferred_px, false)
    } else if width(layout.text@, sizes.preferred_px) <= available_px {
        plan_sets(layout, plan, seq![layout.text@], sizes.preferred_px, sizes.preferred_px, false)
    } else if fits_on_lines(width, words, sizes.preferred_px, available_px, most) {
        plan_balances(layout, width, available_px, most, plan, sizes.preferred_px, sizes.preferred_px)
    } else if fits_on_lines(width, words, sizes.reduced_px, available_px, most) {
        plan_balances(layout, width, available_px, most, plan, sizes.reduced_px, sizes.reduced_px)
    } else if fits_on_lines(width, words, sizes.minimum_px, available_px, most) {
        plan_balances(layout, width, available_px, most, plan, sizes.minimum_px, sizes.minimum_px)
    } else {
        plan_sets(
            layout,
            plan,
            truncated_lines(
                width,
                words,
                sizes.minimum_px,
                available_px,
                truncated_line_count(most, words.len() as int),
                0,
                0,
            ),
            sizes.minimum_px,
            sizes.minimum_px,
            true,
        )
    }
}

proof fn lemma_truncated_lines_len(
    width: spec_fn(Seq<char>, u32) -> u32,
    words: Seq<Seq<char>>,
    size_px: u32,
    available_px: u32,
    line_count: int,
    line_index: int,
    start: int,
)
    requires
        0 <= line_index <= line_count,
    ensures
        truncated_lines(width, words, size_px, available_px, line_count, line_index, start).len()
            == line_count - line_index,
    decreases line_count - line_index,
{
    if line_index + 1 < line_count {
        let last_end = words.len() - (line_count - line_index - 1);
        let end = greedy_end(width, words, start, size_px, available_px, last_end, start + 1);
        lemma_truncated_lines_len(width, words, size_px, available_px, line_count, line_index + 1, end);
    }
}

impl MetadataLineLayout {
    /// The first of the preferred, reduced and minimum sizes that `fits`
    /// accepts; the minimum size when none does.
    pub fn fitting_font_size<F: Fn(u32) -> bool>(&self, fits: F) -> (size_px: u32)
        requires
            forall|size_px: u32| fits.requires((size_px,)),
        ensures
            exists|preferred_fits: bool, reduced_fits: bool|
                crate::layout::metadata_fit_outcome(self.font_sizes, fits, preferred_fits, reduced_fits, size_px),
    {
        self.font_sizes.fitting_font_size(fits)
    }

    /// A balanced setting at `font_size_px`, when the words fit on at most
    /// the line's maximum of lines there.
    fn balanced_plan<F: Fn(&str, u32) -> u32>(
        &self,
        words: &Vec<String>,
        maximum_lines: usize,
        available_px: u32,
        font_size_px: u32,
        measure: &F,
        Ghost(width): Ghost<spec_fn(Seq<char>, u32) -> u32>,
    ) -> (plan: Option<MetadataLinePlan>)
        requires
            measures_with(*measure, width),
            texts(words@) == words_of(self.text@),
            words.len() >= 1,
            height_fits(
                truncated_line_count(maximum_lines as int, words.len() as int),
                font_size_px,
                line_height_percent_for(self.typography, self.font_sizes, font_size_px),
            ),
        ensures
            plan is None <==> !fits_on_lines(
                width,
                texts(words@),
                font_size_px,
                available_px,
                maximum_lines as int,
            ),
            plan matches Some(found) ==> plan_balances(
                *self,
                width,
                available_px,
                maximum_lines as int,
                found@,
                font_size_px,
                font_size_px,
            ),
            plan matches Some(found) ==> found.lines.len() <= truncated_line_count(
                maximum_lines as int,
                words.len() as int,
            ),
    {
        let ghost widths = measured_table(width, texts(words@), font_size_px);
        match balanced_word_lines(words, maximum_lines, available_px, font_size_px, measure, Ghost(width)) {
            Some(lines) => {
                let ghost breaks = choose|breaks: Seq<usize>|
                    #[trigger] is_balanced_breaking(
                        widths,
                        available_px,
                        measured_unbroken_px(width, texts(words@), font_size_px),
                        maximum_lines as int,
                        breaks,
                    ) && texts(lines@) == lines_of(texts(words@), breaks);
                proof {
                    lemma_covered_at_least_lines(widths, available_px, breaks);
                    assert(can_break(widths, available_px, breaks.len() as int));
                    assert(texts(lines@).len() == lines@.len());
                    assert(lines_of(texts(words@), breaks).len() == breaks.len());
                    lemma_height_monotone(
                        lines.len() as int,
                        truncated_line_count(maximum_lines as int, words.len() as int),
                        font_size_px,
                        line_height_percent_for(self.typography, self.font_sizes, font_size_px),
                    );
                }
                let percent = self.line_height_percent(font_size_px);
                Some(line_plan(lines, font_size_px, percent, false))
            },
            None => None,
        }
    }

    /// The lines, size and height this metadata line takes in
    /// `available_width_px`, measuring text with `measure_width_px`.
    pub fn fitting_line_plan<F: Fn(&str, u32) -> u32>(
        &self,
        available_width_px: u32,
        measure_width_px: F,
    ) -> (plan: MetadataLinePlan)
        requires
            available_width_px > 0,
            measures_text(measure_width_px),
            line_heights_fit(*self),
        ensures
            fitting_line_plan_spec(*self, width_of(measure_width_px), available_width_px, plan@),
    {
        let ghost width = width_of(measure_width_px);
        proof {
            lemma_measures_with_width_of(measure_width_px);
        }
        let words = split_words(self.text.as_str());
        let sizes = self.font_sizes;
        if words.len() == 0 {
            let mut lines: Vec<String> = Vec::new();
            lines.push(String::new());
            assert(texts(lines@) =~= seq![Seq::<char>::empty()]);
            let percent = self.line_height_percent(sizes.preferred_px);
            return line_plan(lines, sizes.preferred_px, percent, false);
        }
        let single_px = self.single_line_font_size_px();
        if measure_px(&measure_width_px, Ghost(width), self.text.as_str(), single_px) <= available_width_px {
            let mut lines: Vec<String> = Vec::new();
            lines.push(self.text.clone());
            assert(texts(lines@) =~= seq![self.text@]);
            let percent = self.line_height_percent(single_px);
            return line_plan(lines, single_px, percent, false);
        }
        if let Some(plan) = self.balanced_plan(&words, self.maximum_lines as usize, available_width_px, sizes.preferred_px, &measure_width_px, Ghost(width)) {
            return plan;
        }
        if sizes.reduced_px != sizes.preferred_px {
            if let Some(plan) = self.balanced_plan(&words, self.maximum_lines as usize, available_width_px, sizes.reduced_px, &measure_width_px, Ghost(width)) {
                return plan;
            }
        }
        if sizes.minimum_px != sizes.reduced_px {
            if let Some(plan) = self.balanced_plan(&words, self.maximum_lines as usize, available_width_px, sizes.minimum_px, &measure_width_px, Ghost(width)) {
                return plan;
            }
        }
        let lines = truncated_word_lines(
            &words,
            self.maximum_lines as usize,
            available_width_px,
            sizes.minimum_px,
            &measure_width_px,
            Ghost(width),
        );
        proof {
            lemma_truncated_lines_len(
                width,
                texts(words@),
                sizes.minimum_px,
                available_width_px,
                truncated_line_count(self.maximum_lines as int, words.len() as int),
                0,
                0,
            );
        }
        let percent = self.line_height_percent(sizes.minimum_px);
        line_plan(lines, sizes.minimum_px, percent, true)
    }
}

// ---------------------------------------------------------------------------
// Measuring faces
// ---------------------------------------------------------------------------
/// A measure of text in a face that can be asked about any face, text and
/// size, and whose answer (width, natural line height) depends on the face,
/// the characters and the size alone.
pub open spec fn measures_metadata<F: Fn(MetadataTypography, &str, u32) -> (u32, u32)>(
    measure: F,
) -> bool {
    &&& forall|typography: MetadataTypography, text: &str, size_px: u32|
        #[trigger] measure.requires((typography, text, size_px))
    &&& forall|
        typography: MetadataTypography,
        first: &str,
        second: &str,
        size_px: u32,
        first_px: (u32, u32),
        second_px: (u32, u32),
    |
        #![trigger measure.ensures((typography, first, size_px), first_px), measure.ensures((typography, second, size_px), second_px)]
        measure.ensures((typography, first, size_px), first_px) && measure.ensures(
            (typography, second, size_px),
            second_px,
        ) && first@ == second@ ==> first_px == second_px
}

/// Whether `measure` answered `result` for some string of the characters
/// `text` in `typography` at `size_px`.
pub open spec fn measures_metadata_as<F: Fn(MetadataTypography, &str, u32) -> (u32, u32)>(
    measure: F,
    typography: MetadataTypography,
    text: Seq<char>,
    size_px: u32,
    result: (u32, u32),
) -> bool {
    exists|sample: &str|
        sample@ == text && #[trigger] measure.ensures((typography, sample, size_px), result)
}

/// The width and natural line height `measure` gives `text` in
/// `typography` at `size_px`.
pub open spec fn measured_metadata<F: Fn(MetadataTypography, &str, u32) -> (u32, u32)>(
    measure: F,
    typography: MetadataTypography,
    text: Seq<char>,
    size_px: u32,
) -> (u32, u32) {
    choose|result: (u32, u32)| #[trigger] measures_metadata_as(measure, typography, text, size_px, result)
}

/// The widths `measure` gives text in `typography`.
pub open spec fn face_width<F: Fn(MetadataTypography, &str, u32) -> (u32, u32)>(
    measure: F,
    typography: MetadataTypography,
) -> spec_fn(Seq<char>, u32) -> u32 {
    |text: Seq<char>, size_px: u32| measured_metadata(measure, typography, text, size_px).0
}

/// The natural line height of `typography` at `size_px`: the height
/// `measure` gives `Ag`.
pub open spec fn natural_line_px<F: Fn(MetadataTypography, &str, u32) -> (u32, u32)>(
    measure: F,
    typography: MetadataTypography,
    size_px: u32,
) -> u32 {
    measured_metadata(measure, typography, seq!['A', 'g'], size_px).1
}

proof fn lemma_measured_metadata<F: Fn(MetadataTypography, &str, u32) -> (u32, u32)>(
    measure: F,
    typography: MetadataTypography,
    sample: &str,
    size_px: u32,
    result: (u32, u32),
)
    requires
        measures_metadata(measure),
        measure.ensures((typography, sample, size_px), result),
    ensures
        measured_metadata(measure, typography, sample@, size_px) == result,
{
    let chosen = measured_metadata(measure, typography, sample@, size_px);
    assert(measures_metadata_as(measure, typography, sample@, size_px, result));
    let other = choose|other: &str|
        other@ == sample@ && #[trigger] measure.ensures((typography, other, size_px), chosen);
    assert(measure.ensures((typography, other, size_px), chosen));
}

/// Whether `held` is the measure `measure` refers to.
pub open spec fn held_measure<F>(held: F, measure: &F) -> bool {
    held == *measure
}

/// The plan a call gave, with its lines as characters.
pub open spec fn plan_view(plan: Option<MetadataLinePlan>) -> Option<LinePlanView> {
    match plan {
        Some(found) => Some(found@),
        None => None,
    }
}

/// Measures `text` in `typography` at `size_px`.
fn measure_metadata_px<F: Fn(MetadataTypography, &str, u32) -> (u32, u32)>(
    measure: &F,
    typography: MetadataTypography,
    text: &str,
    size_px: u32,
) -> (result: (u32, u32))
    requires
        measures_metadata(*measure),
    ensures
        result == measured_metadata(*measure, typography, text@, size_px),
{
    let result = measure(typography, text, size_px);
    proof {
        lemma_measured_metadata(*measure, typography, text, size_px, result);
    }
    result
}

// ---------------------------------------------------------------------------
// Plans at a size
// ---------------------------------------------------------------------------
/// The plan `plan_at_size` makes of a metadata line at `size_px` with at
/// most `maximum_lines` lines: none for a text without words; the whole text
/// on one line when it fits; else a balanced setting when the words fit on
/// at most `maximum_lines` lines; else, when asked to, the truncated
/// setting, ellipsized; else none. Heights are taken at the natural line
/// height `line_px`.
pub open spec fn plan_at_size_spec(
    layout: MetadataLineLayout,
    width: spec_fn(Seq<char>, u32) -> u32,
    available_px: u32,
    size_px: u32,
    maximum_lines: int,
    ellipsize_when_needed: bool,
    line_px: u32,
    plan: Option<LinePlanView>,
) -> bool {
    let words = words_of(layout.text@);
    if words.len() == 0 {
        plan is None
    } else if width(layout.text@, size_px) <= available_px {
        plan matches Some(found) && plan_sets(layout, found, seq![layout.text@], size_px, line_px, false)
    } else if fits_on_lines(width, words, size_px, available_px, maximum_lines) {
        plan matches Some(found) && plan_balances(
            layout,
            width,
            available_px,
            maximum_lines,
            found,
            size_px,
            line_px,
        )
    } else if ellipsize_when_needed {
        plan matches Some(found) && plan_sets(
            layout,
            found,
            truncated_lines(
                width,
                words,
                size_px,
                available_px,
                truncated_line_count(maximum_lines, words.len() as int),
                0,
                0,
            ),
            size_px,
            line_px,
            true,
        )
    } else {
        plan is None
    }
}

impl MetadataLineLayout {
    /// This line planned at `font_size_px` with at most `maximum_lines`
    /// lines; see `plan_at_size_spec`.
    fn plan_at_size<F: Fn(MetadataTypography, &str, u32) -> (u32, u32)>(
        &self,
        available_width_px: u32,
        font_size_px: u32,
        maximum_lines: usize,
        ellipsize_when_needed: bool,
        measure_text_px: &F,
    ) -> (plan: Option<MetadataLinePlan>)
        requires
            measures_metadata(*measure_text_px),
            line_fits_at(*self, *measure_text_px, font_size_px, maximum_lines as int),
        ensures
            plan_at_size_spec(
                *self,
                face_width(*measure_text_px, self.typography),
                available_width_px,
                font_size_px,
                maximum_lines as int,
                ellipsize_when_needed,
                natural_line_px(*measure_text_px, self.typography, font_size_px),
                plan_view(plan),
            ),
            plan matches Some(found) ==> found.height_px <= line_cap(
                *self,
                *measure_text_px,
                font_size_px,
                maximum_lines as int,
            ),
    {
        let typography = self.typography;
        let ghost width = face_width(*measure_text_px, typography);
        let measure: Ghost<F> = Ghost(*measure_text_px);
        let measure_width_px = |text: &str, size_px: u32| -> (width_px: u32)
            requires
                measures_metadata(measure@),
                held_measure(measure@, measure_text_px),
            ensures
                width_px == measured_metadata(measure@, typography, text@, size_px).0,
            { measure_metadata_px(measure_text_px, typography, text, size_px).0 };
        proof {
            assert forall|text: &str, size_px: u32, width_px: u32|
                #[trigger] measure_width_px.ensures((text, size_px), width_px) implies width_px
                == width(text@, size_px) by {}
            assert(measures_with(measure_width_px, width));
        }
        let words = split_words(self.text.as_str());
        if words.len() == 0 {
            return None;
        }
        let ghost line_count_limit = truncated_line_count(maximum_lines as int, words.len() as int);
        let percent = self.line_height_percent(font_size_px);
        proof {
            lemma_height_monotone(
                line_count_limit,
                at_least_one_line(maximum_lines as int),
                font_size_px,
                percent,
            );
        }
        let mut plan = if measure_px(&measure_width_px, Ghost(width), self.text.as_str(), font_size_px)
            <= available_width_px {
            let mut lines: Vec<String> = Vec::new();
            lines.push(self.text.clone());
            assert(texts(lines@) =~= seq![self.text@]);
            proof {
                lemma_height_monotone(1, line_count_limit, font_size_px, percent);
            }
            assert(lines.len() <= line_count_limit);
            line_plan(lines, font_size_px, percent, false)
        } else {
            match self.balanced_plan(
                &words,
                maximum_lines,
                available_width_px,
                font_size_px,
                &measure_width_px,
                Ghost(width),
            ) {
                Some(found) => found,
                None => {
                    if !ellipsize_when_needed {
                        return None;
                    }
                    let lines = truncated_word_lines(
                        &words,
                        maximum_lines,
                        available_width_px,
                        font_size_px,
                        &measure_width_px,
                        Ghost(width),
                    );
                    proof {
                        lemma_truncated_lines_len(
                            width,
                            texts(words@),
                            font_size_px,
                            available_width_px,
                            line_count_limit,
                            0,
                            0,
                        );
                    }
                    assert(lines.len() == texts(lines@).len());
                    line_plan(lines, font_size_px, percent, true)
                },
            }
        };
        assert(plan.lines.len() <= line_count_limit);
        proof {
            reveal_strlit("Ag");
            assert("Ag"@ =~= seq!['A', 'g']);
        }
        let natural_px = measure_metadata_px(measure_text_px, typography, "Ag", font_size_px).1;
        proof {
            lemma_height_monotone(
                plan.lines.len() as int,
                at_least_one_line(maximum_lines as int),
                natural_px,
                percent,
            );
        }
        plan.height_px = rendered_line_plan_height_px(&plan, natural_px);
        Some(plan)
    }
}

/// The height of a plan's lines at the natural line height `natural_px`.
fn rendered_line_plan_height_px(plan: &MetadataLinePlan, natural_px: u32) -> (height_px: u32)
    requires
        height_fits(plan.lines.len() as int, natural_px, plan.line_height_percent),
    ensures
        height_px == rendered_height_px(plan.lines.len() as int, natural_px, plan.line_height_percent),
{
    rendered_text_height_px(plan.lines.len(), natural_px, plan.line_height_percent)
}

// ---------------------------------------------------------------------------
// Group plans
// ---------------------------------------------------------------------------
/// How tightly the credits are set.
#[derive(Clone, Copy, Debug, PartialEq, Eq, Structural)]
pub enum MetadataDensity {
    Normal,
    CompactCredits,
}

/// How Title, Artist and Album are set together.
#[derive(Clone, Debug, PartialEq, Eq)]
pub struct MetadataGroupPlan {
    pub title: Option<MetadataLinePlan>,
    pub artist: Option<MetadataLinePlan>,
    pub album: Option<MetadataLinePlan>,
    pub density: MetadataDensity,
    pub title_to_credit_gap_px: u32,
    pub album_gap_px: u32,
    pub height_px: u32,
}

/// A group plan with its lines as characters.
pub struct GroupPlanView {
    pub title: Option<LinePlanView>,
    pub artist: Option<LinePlanView>,
    pub album: Option<LinePlanView>,
    pub density: MetadataDensity,
    pub title_to_credit_gap_px: u32,
    pub album_gap_px: u32,
    pub height_px: u32,
}

impl View for MetadataGroupPlan {
    type V = GroupPlanView;

    open spec fn view(&self) -> GroupPlanView {
        GroupPlanView {
            title: plan_view(self.title),
            artist: plan_view(self.artist),
            album: plan_view(self.album),
            density: self.density,
            title_to_credit_gap_px: self.title_to_credit_gap_px,
            album_gap_px: self.album_gap_px,
            height_px: self.height_px,
        }
    }
}

/// The metadata lines of a presentation, each absent when it has no text.
#[derive(Debug, PartialEq, Eq)]
pub struct MetadataLayout {
    pub title: Option<MetadataLineLayout>,
    pub artist: Option<MetadataLineLayout>,
    pub album: Option<MetadataLineLayout>,
}

/// Whether `plan` is what `plan_at_size` makes of `line`, nothing for an
/// absent line.
pub open spec fn line_candidate<F: Fn(MetadataTypography, &str, u32) -> (u32, u32)>(
    line: Option<MetadataLineLayout>,
    measure: F,
    available_px: u32,
    size_px: u32,
    maximum_lines: int,
    ellipsize_when_needed: bool,
    plan: Option<LinePlanView>,
) -> bool {
    match line {
        None => plan is None,
        Some(layout) => plan_at_size_spec(
            layout,
            face_width(measure, layout.typography),
            available_px,
            size_px,
            maximum_lines,
            ellipsize_when_needed,
            natural_line_px(measure, layout.typography, size_px),
            plan,
        ),
    }
}

/// The size a credit line is set at: its minimum when compact, else its
/// preferred size.
pub open spec fn credit_size(line: Option<MetadataLineLayout>, density: MetadataDensity) -> u32 {
    match line {
        Some(layout) => if density == MetadataDensity::CompactCredits {
            layout.font_sizes.minimum_px
        } else {
            layout.font_sizes.preferred_px
        },
        None => 0,
    }
}

/// The height of a planned line, zero when there is none.
pub open spec fn planned_height(plan: Option<LinePlanView>) -> int {
    match plan {
        Some(found) => found.height_px as int,
        None => 0,
    }
}

/// The height of a group: its lines, the title gap when a title has credits
/// after it, and the album gap when an artist has an album after it.
pub open spec fn group_height(
    title: Option<LinePlanView>,
    artist: Option<LinePlanView>,
    album: Option<LinePlanView>,
    title_to_credit_gap_px: u32,
    album_gap_px: u32,
) -> int {
    planned_height(title) + planned_height(artist) + planned_height(album) + (if title is Some
        && (artist is Some || album is Some) {
        title_to_credit_gap_px as int
    } else {
        0
    }) + (if artist is Some && album is Some {
        album_gap_px as int
    } else {
        0
    })
}

/// The parameters of one group plan: density, title size, the most lines
/// of each line and whether the title may be ellipsized.
pub struct GroupParameters {
    pub density: MetadataDensity,
    pub title_size_px: u32,
    pub title_lines: int,
    pub artist_lines: int,
    pub album_lines: int,
    pub ellipsize_title: bool,
}

/// Whether `plan` is what `group_plan` makes with `parameters`: nothing when
/// the title declines, else each present line planned (the credits at
/// their credit size, always ellipsized when needed) with the gaps of the
/// density.
pub open spec fn group_plan_spec<F: Fn(MetadataTypography, &str, u32) -> (u32, u32)>(
    layout: MetadataLayout,
    measure: F,
    available_px: u32,
    fitting: MetadataFitting,
    parameters: GroupParameters,
    plan: Option<GroupPlanView>,
) -> bool {
    let compact = parameters.density == MetadataDensity::CompactCredits;
    match plan {
        None => line_candidate(
            layout.title,
            measure,
            available_px,
            parameters.title_size_px,
            parameters.title_lines,
            parameters.ellipsize_title,
            None,
        ) && layout.title is Some,
        Some(group) => {
            &&& line_candidate(
                layout.title,
                measure,
                available_px,
                parameters.title_size_px,
                parameters.title_lines,
                parameters.ellipsize_title,
                group.title,
            )
            &&& layout.title is Some ==> group.title is Some
            &&& line_candidate(
                layout.artist,
                measure,
                available_px,
                credit_size(layout.artist, parameters.density),
                parameters.artist_lines,
                true,
                group.artist,
            )
            &&& line_candidate(
                layout.album,
                measure,
                available_px,
                credit_size(layout.album, parameters.density),
                parameters.album_lines,
                true,
                group.album,
            )
            &&& group.density == parameters.density
            &&& group.title_to_credit_gap_px == if compact {
                fitting.compact_title_to_credit_gap_px
            } else {
                fitting.normal_title_to_credit_gap_px
            }
            &&& group.album_gap_px == if compact {
                fitting.compact_album_gap_px
            } else {
                fitting.normal_album_gap_px
            }
            &&& group.height_px == group_height(
                group.title,
                group.artist,
                group.album,
                group.title_to_credit_gap_px,
                group.album_gap_px,
            )
        },
    }
}

/// Whether a present metadata line can be set: it has a word and may take
/// at least one line.
pub open spec fn line_is_settable(line: Option<MetadataLineLayout>) -> bool {
    match line {
        Some(layout) => {
            &&& words_of(layout.text@).len() >= 1
            &&& layout.maximum_lines >= 1
        },
        None => true,
    }
}

/// A line count of at least one.
pub open spec fn at_least_one_line(lines: int) -> int {
    if lines < 1 {
        1
    } else {
        lines
    }
}

/// The tallest `layout` can be set at `size_px` on up to `maximum_lines`
/// lines: that many lines at its measured natural line height.
pub open spec fn line_cap<F: Fn(MetadataTypography, &str, u32) -> (u32, u32)>(
    layout: MetadataLineLayout,
    measure: F,
    size_px: u32,
    maximum_lines: int,
) -> int {
    rendered_height_px(
        at_least_one_line(maximum_lines),
        natural_line_px(measure, layout.typography, size_px),
        line_height_percent_for(layout.typography, layout.font_sizes, size_px),
    )
}

/// Whether the heights of `layout` set at `size_px` on up to `maximum_lines`
/// lines, at its size and at its natural line height, are computed without
/// overflow.
pub open spec fn line_fits_at<F: Fn(MetadataTypography, &str, u32) -> (u32, u32)>(
    layout: MetadataLineLayout,
    measure: F,
    size_px: u32,
    maximum_lines: int,
) -> bool {
    let lines = at_least_one_line(maximum_lines);
    let percent = line_height_percent_for(layout.typography, layout.font_sizes, size_px);
    &&& height_fits(lines, size_px, percent)
    &&& height_fits(lines, natural_line_px(measure, layout.typography, size_px), percent)
}

/// Whether a present line fits at every size the fitting tries: its
/// preferred and minimum sizes, and for the title its reduced size.
pub open spec fn line_arithmetic_fits<F: Fn(MetadataTypography, &str, u32) -> (u32, u32)>(
    line: Option<MetadataLineLayout>,
    measure: F,
    is_title: bool,
) -> bool {
    match line {
        Some(layout) => {
            &&& line_fits_at(layout, measure, layout.font_sizes.preferred_px, layout.maximum_lines as int)
            &&& is_title ==> line_fits_at(layout, measure, layout.font_sizes.reduced_px, layout.maximum_lines as int)
            &&& line_fits_at(layout, measure, layout.font_sizes.minimum_px, layout.maximum_lines as int)
        },
        None => true,
    }
}

/// Whether `size_px` is one of the sizes the fitting tries for the title.
pub open spec fn is_tried_title_size(layout: MetadataLineLayout, size_px: u32) -> bool {
    ||| size_px == layout.font_sizes.preferred_px
    ||| size_px == layout.font_sizes.reduced_px
    ||| size_px == layout.font_sizes.minimum_px
}

/// A line set at a size the fitting tries, on no more than its most lines,
/// fits, and is no taller than the tallest the line can be.
proof fn lemma_line_within_tallest<F: Fn(MetadataTypography, &str, u32) -> (u32, u32)>(
    line: Option<MetadataLineLayout>,
    measure: F,
    size_px: u32,
    lines: int,
    is_title: bool,
)
    requires
        line_arithmetic_fits(line, measure, is_title),
        line matches Some(layout) ==> {
            &&& lines <= layout.maximum_lines
            &&& (size_px == layout.font_sizes.preferred_px || (is_title && size_px
                == layout.font_sizes.reduced_px) || size_px == layout.font_sizes.minimum_px)
        },
    ensures
        line matches Some(layout) ==> {
            &&& line_fits_at(layout, measure, size_px, lines)
            &&& line_cap(layout, measure, size_px, lines) <= tallest_line(line, measure, is_title)
        },
{
    if let Some(layout) = line {
        lemma_line_cap_monotone(layout, measure, size_px, lines, layout.maximum_lines as int);
    }
}

/// The tallest a line can be in any plan the fitting tries.
pub open spec fn tallest_line<F: Fn(MetadataTypography, &str, u32) -> (u32, u32)>(
    line: Option<MetadataLineLayout>,
    measure: F,
    is_title: bool,
) -> int {
    match line {
        Some(layout) => {
            let most = layout.maximum_lines as int;
            let preferred = line_cap(layout, measure, layout.font_sizes.preferred_px, most);
            let reduced = if is_title {
                line_cap(layout, measure, layout.font_sizes.reduced_px, most)
            } else {
                0
            };
            let minimum = line_cap(layout, measure, layout.font_sizes.minimum_px, most);
            if preferred >= reduced && preferred >= minimum {
                preferred
            } else if reduced >= minimum {
                reduced
            } else {
                minimum
            }
        },
        None => 0,
    }
}

/// Whether every group plan the fitting tries has a height computed without
/// overflow: each line fits at every size tried, and the tallest lines with
/// the wider gaps stay within 32 bits.
pub open spec fn group_arithmetic_fits<F: Fn(MetadataTypography, &str, u32) -> (u32, u32)>(
    layout: MetadataLayout,
    measure: F,
    fitting: MetadataFitting,
) -> bool {
    &&& line_arithmetic_fits(layout.title, measure, true)
    &&& line_arithmetic_fits(layout.artist, measure, false)
    &&& line_arithmetic_fits(layout.album, measure, false)
    &&& tallest_line(layout.title, measure, true) + tallest_line(layout.artist, measure, false)
        + tallest_line(layout.album, measure, false) + max_gap(
        fitting.normal_title_to_credit_gap_px,
        fitting.compact_title_to_credit_gap_px,
    ) + max_gap(fitting.normal_album_gap_px, fitting.compact_album_gap_px) <= u32::MAX
}

pub open spec fn max_gap(first: u32, second: u32) -> int {
    if first >= second {
        first as int
    } else {
        second as int
    }
}

/// Fitting fewer lines keeps the height within the cap of more lines.
proof fn lemma_line_cap_monotone<F: Fn(MetadataTypography, &str, u32) -> (u32, u32)>(
    layout: MetadataLineLayout,
    measure: F,
    size_px: u32,
    fewer: int,
    more: int,
)
    requires
        fewer <= more,
        line_fits_at(layout, measure, size_px, more),
    ensures
        line_fits_at(layout, measure, size_px, fewer),
        line_cap(layout, measure, size_px, fewer) <= line_cap(layout, measure, size_px, more),
{
    let percent = line_height_percent_for(layout.typography, layout.font_sizes, size_px);
    lemma_height_monotone(at_least_one_line(fewer), at_least_one_line(more), size_px, percent);
    lemma_height_monotone(
        at_least_one_line(fewer),
        at_least_one_line(more),
        natural_line_px(measure, layout.typography, size_px),
        percent,
    );
}

/// A line plan at `size_px` for a line that may be absent.
fn optional_plan<F: Fn(MetadataTypography, &str, u32) -> (u32, u32)>(
    line: &Option<MetadataLineLayout>,
    available_width_px: u32,
    font_size_px: u32,
    maximum_lines: usize,
    ellipsize_when_needed: bool,
    measure_text_px: &F,
) -> (plan: Option<MetadataLinePlan>)
    requires
        measures_metadata(*measure_text_px),
        match *line {
            Some(layout) => line_fits_at(layout, *measure_text_px, font_size_px, maximum_lines as int),
            None => true,
        },
    ensures
        line_candidate(
            *line,
            *measure_text_px,
            available_width_px,
            font_size_px,
            maximum_lines as int,
            ellipsize_when_needed,
            plan_view(plan),
        ),
        plan matches Some(found) ==> found.height_px <= match *line {
            Some(layout) => line_cap(layout, *measure_text_px, font_size_px, maximum_lines as int),
            None => 0,
        },
{
    match line {
        Some(layout) => layout.plan_at_size(
            available_width_px,
            font_size_px,
            maximum_lines,
            ellipsize_when_needed,
            measure_text_px,
        ),
        None => None,
    }
}

impl MetadataLayout {
    /// The group plan for `parameters`; see `group_plan_spec`.
    fn group_plan<F: Fn(MetadataTypography, &str, u32) -> (u32, u32)>(
        &self,
        available_width_px: u32,
        density: MetadataDensity,
        title_size_px: u32,
        title_lines: usize,
        artist_lines: usize,
        album_lines: usize,
        fitting: MetadataFitting,
        ellipsize_title: bool,
        measure_text_px: &F,
    ) -> (plan: Option<MetadataGroupPlan>)
        requires
            measures_metadata(*measure_text_px),
            line_is_settable(self.title),
            line_is_settable(self.artist),
            line_is_settable(self.album),
            group_arithmetic_fits(*self, *measure_text_px, fitting),
            self.title matches Some(layout) ==> is_tried_title_size(layout, title_size_px),
            self.title is Some ==> title_lines <= most_lines(self.title),
            self.artist is Some ==> artist_lines <= most_lines(self.artist),
            self.album is Some ==> album_lines <= most_lines(self.album),
        ensures
            group_plan_spec(
                *self,
                *measure_text_px,
                available_width_px,
                fitting,
                GroupParameters {
                    density,
                    title_size_px,
                    title_lines: title_lines as int,
                    artist_lines: artist_lines as int,
                    album_lines: album_lines as int,
                    ellipsize_title,
                },
                match plan {
                    Some(found) => Some(found@),
                    None => None,
                },
            ),
    {
        proof {
            lemma_line_within_tallest(self.title, *measure_text_px, title_size_px, title_lines as int, true);
            lemma_line_within_tallest(
                self.artist,
                *measure_text_px,
                credit_size(self.artist, density),
                artist_lines as int,
                false,
            );
            lemma_line_within_tallest(
                self.album,
                *measure_text_px,
                credit_size(self.album, density),
                album_lines as int,
                false,
            );
        }
        let compact = density == MetadataDensity::CompactCredits;
        let title = match &self.title {
            Some(line) => match line.plan_at_size(
                available_width_px,
                title_size_px,
                title_lines,
                ellipsize_title,
                measure_text_px,
            ) {
                Some(found) => Some(found),
                None => {
                    return None;
                },
            },
            None => None,
        };
        let artist_size_px = match &self.artist {
            Some(line) => if compact {
                line.font_sizes.minimum_px
            } else {
                line.font_sizes.preferred_px
            },
            None => 0,
        };
        assert(artist_size_px == credit_size(self.artist, density));
        let artist = optional_plan(&self.artist, available_width_px, artist_size_px, artist_lines, true, measure_text_px);
        let album_size_px = match &self.album {
            Some(line) => if compact {
                line.font_sizes.minimum_px
            } else {
                line.font_sizes.preferred_px
            },
            None => 0,
        };
        assert(album_size_px == credit_size(self.album, density));
        let album = optional_plan(&self.album, available_width_px, album_size_px, album_lines, true, measure_text_px);
        let title_to_credit_gap_px = if compact {
            fitting.compact_title_to_credit_gap_px
        } else {
            fitting.normal_title_to_credit_gap_px
        };
        let album_gap_px = if compact {
            fitting.compact_album_gap_px
        } else {
            fitting.normal_album_gap_px
        };
        let has_credit = artist.is_some() || album.is_some();
        let title_px: u32 = match &title {
            Some(found) => found.height_px,
            None => 0,
        };
        let artist_px: u32 = match &artist {
            Some(found) => found.height_px,
            None => 0,
        };
        let album_px: u32 = match &album {
            Some(found) => found.height_px,
            None => 0,
        };
        let title_gap_px: u32 = if title.is_some() && has_credit {
            title_to_credit_gap_px
        } else {
            0
        };
        let credit_gap_px: u32 = if artist.is_some() && album.is_some() {
            album_gap_px
        } else {
            0
        };
        assert(title_px <= tallest_line(self.title, *measure_text_px, true));
        assert(artist_px <= tallest_line(self.artist, *measure_text_px, false));
        assert(album_px <= tallest_line(self.album, *measure_text_px, false));
        assert(title_gap_px <= max_gap(
            fitting.normal_title_to_credit_gap_px,
            fitting.compact_title_to_credit_gap_px,
        ));
        assert(credit_gap_px <= max_gap(fitting.normal_album_gap_px, fitting.compact_album_gap_px));
        let height_px = title_px + artist_px + album_px + title_gap_px + credit_gap_px;
        Some(
            MetadataGroupPlan {
                title,
                artist,
                album,
                density,
                title_to_credit_gap_px,
                album_gap_px,
                height_px,
            },
        )
    }
}

// ---------------------------------------------------------------------------
// Fitting the group
// ---------------------------------------------------------------------------
/// The title's sizes, all zero without a title.
pub open spec fn title_sizes(layout: MetadataLayout) -> MetadataFontSizes {
    match layout.title {
        Some(line) => line.font_sizes,
        None => MetadataFontSizes { preferred_px: 0, reduced_px: 0, minimum_px: 0 },
    }
}

/// The most lines of a line, zero when it is absent.
pub open spec fn most_lines(line: Option<MetadataLineLayout>) -> int {
    match line {
        Some(layout) => layout.maximum_lines as int,
        None => 0,
    }
}

/// The fewest lines of a line in the compact pass: one, or zero when absent.
pub open spec fn fewest_lines(line: Option<MetadataLineLayout>) -> int {
    if line is Some {
        1
    } else {
        0
    }
}

/// The normal pass at `title_size_px`: every line may use its most lines and
/// the title is ellipsized only at its minimum size.
pub open spec fn normal_parameters(layout: MetadataLayout, title_size_px: u32) -> GroupParameters {
    GroupParameters {
        density: MetadataDensity::Normal,
        title_size_px,
        title_lines: most_lines(layout.title),
        artist_lines: most_lines(layout.artist),
        album_lines: most_lines(layout.album),
        ellipsize_title: title_size_px == title_sizes(layout).minimum_px,
    }
}

/// The compact pass with the given most lines, the title at its minimum.
pub open spec fn compact_parameters(
    layout: MetadataLayout,
    title_lines: int,
    artist_lines: int,
    album_lines: int,
) -> GroupParameters {
    GroupParameters {
        density: MetadataDensity::CompactCredits,
        title_size_px: title_sizes(layout).minimum_px,
        title_lines,
        artist_lines,
        album_lines,
        ellipsize_title: true,
    }
}

/// Whether every group plan for `parameters` is taller than `available_px`
/// (or there is none).
pub open spec fn too_tall<F: Fn(MetadataTypography, &str, u32) -> (u32, u32)>(
    layout: MetadataLayout,
    measure: F,
    available_width_px: u32,
    fitting: MetadataFitting,
    parameters: GroupParameters,
    available_height_px: u32,
) -> bool {
    forall|group: GroupPlanView|
        #[trigger] group_plan_spec(layout, measure, available_width_px, fitting, parameters, Some(group))
            ==> group.height_px > available_height_px
}

/// Whether the normal plans at all three title sizes are too tall.
pub open spec fn normal_passes_too_tall<F: Fn(MetadataTypography, &str, u32) -> (u32, u32)>(
    layout: MetadataLayout,
    measure: F,
    available_width_px: u32,
    fitting: MetadataFitting,
    available_height_px: u32,
) -> bool {
    let sizes = title_sizes(layout);
    &&& too_tall(
        layout,
        measure,
        available_width_px,
        fitting,
        normal_parameters(layout, sizes.preferred_px),
        available_height_px,
    )
    &&& too_tall(
        layout,
        measure,
        available_width_px,
        fitting,
        normal_parameters(layout, sizes.reduced_px),
        available_height_px,
    )
    &&& too_tall(
        layout,
        measure,
        available_width_px,
        fitting,
        normal_parameters(layout, sizes.minimum_px),
        available_height_px,
    )
}

/// Whether the compact line counts lie within the lines' ranges.
pub open spec fn in_compact_ranges(
    layout: MetadataLayout,
    title_lines: int,
    artist_lines: int,
    album_lines: int,
) -> bool {
    &&& fewest_lines(layout.title) <= title_lines <= most_lines(layout.title)
    &&& fewest_lines(layout.artist) <= artist_lines <= most_lines(layout.artist)
    &&& fewest_lines(layout.album) <= album_lines <= most_lines(layout.album)
}

/// Whether the compact pass tries `(title, artist, album)` before `(t, a, b)`:
/// more title lines first, then more artist lines, then more album lines.
pub open spec fn tried_before(
    title_lines: int,
    artist_lines: int,
    album_lines: int,
    t: int,
    a: int,
    b: int,
) -> bool {
    ||| title_lines > t
    ||| (title_lines == t && artist_lines > a)
    ||| (title_lines == t && artist_lines == a && album_lines > b)
}

/// Whether every compact plan tried before `(t, a, b)` is too tall.
pub open spec fn compact_tried_too_tall<F: Fn(MetadataTypography, &str, u32) -> (u32, u32)>(
    layout: MetadataLayout,
    measure: F,
    available_width_px: u32,
    fitting: MetadataFitting,
    available_height_px: u32,
    t: int,
    a: int,
    b: int,
) -> bool {
    forall|title_lines: int, artist_lines: int, album_lines: int|
        in_compact_ranges(layout, title_lines, artist_lines, album_lines) && tried_before(
            title_lines,
            artist_lines,
            album_lines,
            t,
            a,
            b,
        ) ==> #[trigger] too_tall(
            layout,
            measure,
            available_width_px,
            fitting,
            compact_parameters(layout, title_lines, artist_lines, album_lines),
            available_height_px,
        )
}

/// The plan `fitting_group_plan` chooses: the first normal plan, at the
/// title's preferred, reduced and minimum sizes, that fits the height; else
/// the first compact plan that fits, trying more lines before fewer; else
/// the last compact plan, with the fewest lines.
pub open spec fn fitting_group_plan_spec<F: Fn(MetadataTypography, &str, u32) -> (u32, u32)>(
    layout: MetadataLayout,
    measure: F,
    available_width_px: u32,
    available_height_px: u32,
    fitting: MetadataFitting,
    plan: GroupPlanView,
) -> bool {
    let sizes = title_sizes(layout);
    let first = normal_parameters(layout, sizes.preferred_px);
    let second = normal_parameters(layout, sizes.reduced_px);
    let third = normal_parameters(layout, sizes.minimum_px);
    let fits = plan.height_px <= available_height_px;
    ||| (group_plan_spec(layout, measure, available_width_px, fitting, first, Some(plan)) && fits)
    ||| (too_tall(layout, measure, available_width_px, fitting, first, available_height_px)
        && group_plan_spec(layout, measure, available_width_px, fitting, second, Some(plan)) && fits)
    ||| (too_tall(layout, measure, available_width_px, fitting, first, available_height_px)
        && too_tall(layout, measure, available_width_px, fitting, second, available_height_px)
        && group_plan_spec(layout, measure, available_width_px, fitting, third, Some(plan)) && fits)
    ||| (too_tall(layout, measure, available_width_px, fitting, first, available_height_px)
        && too_tall(layout, measure, available_width_px, fitting, second, available_height_px)
        && too_tall(layout, measure, available_width_px, fitting, third, available_height_px)
        && exists|t: int, a: int, b: int|
        #![trigger compact_parameters(layout, t, a, b)]
        {
            &&& in_compact_ranges(layout, t, a, b)
            &&& group_plan_spec(
                layout,
                measure,
                available_width_px,
                fitting,
                compact_parameters(layout, t, a, b),
                Some(plan),
            )
            &&& compact_tried_too_tall(
                layout,
                measure,
                available_width_px,
                fitting,
                available_height_px,
                t,
                a,
                b,
            )
            &&& (fits || (t == fewest_lines(layout.title) && a == fewest_lines(layout.artist) && b
                == fewest_lines(layout.album)))
        })
}

proof fn lemma_balanced_lengths_agree(
    widths: Seq<Seq<u32>>,
    available_px: u32,
    unbroken_px: u32,
    maximum_lines: int,
    first: Seq<usize>,
    second: Seq<usize>,
)
    requires
        is_balanced_breaking(widths, available_px, unbroken_px, maximum_lines, first),
        is_balanced_breaking(widths, available_px, unbroken_px, maximum_lines, second),
    ensures
        first.len() == second.len(),
{
    assert(can_break(widths, available_px, first.len() as int));
    assert(can_break(widths, available_px, second.len() as int));
}

proof fn lemma_preference_is_antisymmetric(first: Seq<usize>, second: Seq<usize>)
    requires
        first.len() == second.len(),
        covered(first) == covered(second),
        prefers_breaks(first, second),
        prefers_breaks(second, first),
    ensures
        first == second,
    decreases first.len(),
{
    if first.len() > 0 {
        lemma_preference_is_antisymmetric(first.drop_last(), second.drop_last());
        assert(first =~= first.drop_last().push(first.last()));
        assert(second =~= second.drop_last().push(second.last()));
    }
}

/// The words of a line have exactly one balanced breaking: the fewest lines,
/// the least shortfall, and the preference among equally short breakings
/// leave no choice.
pub proof fn lemma_balanced_breaking_is_unique(
    widths: Seq<Seq<u32>>,
    available_px: u32,
    unbroken_px: u32,
    maximum_lines: int,
    first: Seq<usize>,
    second: Seq<usize>,
)
    requires
        is_balanced_breaking(widths, available_px, unbroken_px, maximum_lines, first),
        is_balanced_breaking(widths, available_px, unbroken_px, maximum_lines, second),
    ensures
        first == second,
{
    lemma_balanced_lengths_agree(widths, available_px, unbroken_px, maximum_lines, first, second);
    let line_count = first.len() as int;
    assert(splits_into(widths, available_px, line_count, widths.len() as int, first));
    assert(splits_into(widths, available_px, line_count, widths.len() as int, second));
    lemma_preference_is_antisymmetric(first, second);
}

proof fn lemma_line_candidate_height<F: Fn(MetadataTypography, &str, u32) -> (u32, u32)>(
    line: Option<MetadataLineLayout>,
    measure: F,
    available_px: u32,
    size_px: u32,
    maximum_lines: int,
    ellipsize_when_needed: bool,
    first: Option<LinePlanView>,
    second: Option<LinePlanView>,
)
    requires
        line_candidate(line, measure, available_px, size_px, maximum_lines, ellipsize_when_needed, first),
        line_candidate(line, measure, available_px, size_px, maximum_lines, ellipsize_when_needed, second),
    ensures
        first is Some <==> second is Some,
        planned_height(first) == planned_height(second),
{
    if let Some(layout) = line {
        let width = face_width(measure, layout.typography);
        let words = words_of(layout.text@);
        if words.len() > 0 && !(width(layout.text@, size_px) <= available_px) && fits_on_lines(
            width,
            words,
            size_px,
            available_px,
            maximum_lines,
        ) {
            let widths = measured_table(width, words, size_px);
            let unbroken_px = measured_unbroken_px(width, words, size_px);
            let first_plan = first->0;
            let second_plan = second->0;
            let first_breaks = choose|breaks: Seq<usize>|
                #[trigger] is_balanced_breaking(widths, available_px, unbroken_px, maximum_lines, breaks)
                    && first_plan.lines == lines_of(words, breaks);
            let second_breaks = choose|breaks: Seq<usize>|
                #[trigger] is_balanced_breaking(widths, available_px, unbroken_px, maximum_lines, breaks)
                    && second_plan.lines == lines_of(words, breaks);
            lemma_balanced_lengths_agree(
                widths,
                available_px,
                unbroken_px,
                maximum_lines,
                first_breaks,
                second_breaks,
            );
        }
    }
}

proof fn lemma_group_height_unique<F: Fn(MetadataTypography, &str, u32) -> (u32, u32)>(
    layout: MetadataLayout,
    measure: F,
    available_px: u32,
    fitting: MetadataFitting,
    parameters: GroupParameters,
    first: GroupPlanView,
    second: GroupPlanView,
)
    requires
        group_plan_spec(layout, measure, available_px, fitting, parameters, Some(first)),
        group_plan_spec(layout, measure, available_px, fitting, parameters, Some(second)),
    ensures
        first.height_px == second.height_px,
{
    lemma_line_candidate_height(
        layout.title,
        measure,
        available_px,
        parameters.title_size_px,
        parameters.title_lines,
        parameters.ellipsize_title,
        first.title,
        second.title,
    );
    lemma_line_candidate_height(
        layout.artist,
        measure,
        available_px,
        credit_size(layout.artist, parameters.density),
        parameters.artist_lines,
        true,
        first.artist,
        second.artist,
    );
    lemma_line_candidate_height(
        layout.album,
        measure,
        available_px,
        credit_size(layout.album, parameters.density),
        parameters.album_lines,
        true,
        first.album,
        second.album,
    );
}

proof fn lemma_group_declines<F: Fn(MetadataTypography, &str, u32) -> (u32, u32)>(
    layout: MetadataLayout,
    measure: F,
    available_px: u32,
    fitting: MetadataFitting,
    parameters: GroupParameters,
    group: GroupPlanView,
)
    requires
        group_plan_spec(layout, measure, available_px, fitting, parameters, None),
    ensures
        !group_plan_spec(layout, measure, available_px, fitting, parameters, Some(group)),
{
    if group_plan_spec(layout, measure, available_px, fitting, parameters, Some(group)) {
        lemma_line_candidate_height(
            layout.title,
            measure,
            available_px,
            parameters.title_size_px,
            parameters.title_lines,
            parameters.ellipsize_title,
            None,
            group.title,
        );
    }
}

/// The most lines of a line, zero when it is absent.
fn line_limit(line: &Option<MetadataLineLayout>) -> (limit: usize)
    ensures
        limit as int == most_lines(*line),
{
    match line {
        Some(layout) => layout.maximum_lines as usize,
        None => 0,
    }
}

impl MetadataLayout {
    /// The normal plan at `title_size_px` when it fits `available_height_px`.
    fn normal_plan<F: Fn(MetadataTypography, &str, u32) -> (u32, u32)>(
        &self,
        available_width_px: u32,
        available_height_px: u32,
        fitting: MetadataFitting,
        sizes: MetadataFontSizes,
        title_size_px: u32,
        measure_text_px: &F,
    ) -> (plan: Option<MetadataGroupPlan>)
        requires
            measures_metadata(*measure_text_px),
            line_is_settable(self.title),
            line_is_settable(self.artist),
            line_is_settable(self.album),
            group_arithmetic_fits(*self, *measure_text_px, fitting),
            sizes == title_sizes(*self),
            title_size_px == sizes.preferred_px || title_size_px == sizes.reduced_px || title_size_px
                == sizes.minimum_px,
        ensures
            match plan {
                Some(found) => group_plan_spec(
                    *self,
                    *measure_text_px,
                    available_width_px,
                    fitting,
                    normal_parameters(*self, title_size_px),
                    Some(found@),
                ) && found.height_px <= available_height_px,
                None => too_tall(
                    *self,
                    *measure_text_px,
                    available_width_px,
                    fitting,
                    normal_parameters(*self, title_size_px),
                    available_height_px,
                ),
            },
    {
        let ghost parameters = normal_parameters(*self, title_size_px);
        let candidate = self.group_plan(
            available_width_px,
            MetadataDensity::Normal,
            title_size_px,
            line_limit(&self.title),
            line_limit(&self.artist),
            line_limit(&self.album),
            fitting,
            title_size_px == sizes.minimum_px,
            measure_text_px,
        );
        match candidate {
            Some(found) => {
                if found.height_px <= available_height_px {
                    Some(found)
                } else {
                    proof {
                        assert forall|group: GroupPlanView|
                            #[trigger] group_plan_spec(
                                *self,
                                *measure_text_px,
                                available_width_px,
                                fitting,
                                parameters,
                                Some(group),
                            ) implies group.height_px > available_height_px by {
                            lemma_group_height_unique(
                                *self,
                                *measure_text_px,
                                available_width_px,
                                fitting,
                                parameters,
                                found@,
                                group,
                            );
                        }
                    }
                    None
                }
            },
            None => {
                proof {
                    assert forall|group: GroupPlanView|
                        #[trigger] group_plan_spec(
                            *self,
                            *measure_text_px,
                            available_width_px,
                            fitting,
                            parameters,
                            Some(group),
                        ) implies group.height_px > available_height_px by {
                        lemma_group_declines(
                            *self,
                            *measure_text_px,
                            available_width_px,
                            fitting,
                            parameters,
                            group,
                        );
                    }
                }
                None
            },
        }
    }

    /// The compact plan with the given most lines; compact plans always
    /// exist, since every present line has a word and may be ellipsized.
    fn compact_plan<F: Fn(MetadataTypography, &str, u32) -> (u32, u32)>(
        &self,
        available_width_px: u32,
        fitting: MetadataFitting,
        title_minimum_px: u32,
        title_lines: usize,
        artist_lines: usize,
        album_lines: usize,
        measure_text_px: &F,
    ) -> (plan: MetadataGroupPlan)
        requires
            measures_metadata(*measure_text_px),
            line_is_settable(self.title),
            line_is_settable(self.artist),
            line_is_settable(self.album),
            group_arithmetic_fits(*self, *measure_text_px, fitting),
            title_minimum_px == title_sizes(*self).minimum_px,
            in_compact_ranges(*self, title_lines as int, artist_lines as int, album_lines as int),
        ensures
            group_plan_spec(
                *self,
                *measure_text_px,
                available_width_px,
                fitting,
                compact_parameters(*self, title_lines as int, artist_lines as int, album_lines as int),
                Some(plan@),
            ),
    {
        let candidate = self.group_plan(
            available_width_px,
            MetadataDensity::CompactCredits,
            title_minimum_px,
            title_lines,
            artist_lines,
            album_lines,
            fitting,
            true,
            measure_text_px,
        );
        candidate.unwrap()
    }

    /// How Title, Artist and Album are set in `available_width_px` by
    /// `available_height_px`; see `fitting_group_plan_spec`.
    pub fn fitting_group_plan<F: Fn(MetadataTypography, &str, u32) -> (u32, u32)>(
        &self,
        available_width_px: u32,
        available_height_px: u32,
        fitting: MetadataFitting,
        measure_text_px: F,
    ) -> (plan: MetadataGroupPlan)
        requires
            available_width_px > 0,
            available_height_px > 0,
            measures_metadata(measure_text_px),
            line_is_settable(self.title),
            line_is_settable(self.artist),
            line_is_settable(self.album),
            group_arithmetic_fits(*self, measure_text_px, fitting),
        ensures
            fitting_group_plan_spec(
                *self,
                measure_text_px,
                available_width_px,
                available_height_px,
                fitting,
                plan@,
            ),
    {
        let sizes = match &self.title {
            Some(line) => line.font_sizes,
            None => MetadataFontSizes { preferred_px: 0, reduced_px: 0, minimum_px: 0 },
        };
        let measure = &measure_text_px;
        if let Some(found) = self.normal_plan(
            available_width_px,
            available_height_px,
            fitting,
            sizes,
            sizes.preferred_px,
            measure,
        ) {
            return found;
        }
        if let Some(found) = self.normal_plan(
            available_width_px,
            available_height_px,
            fitting,
            sizes,
            sizes.reduced_px,
            measure,
        ) {
            return found;
        }
        if let Some(found) = self.normal_plan(
            available_width_px,
            available_height_px,
            fitting,
            sizes,
            sizes.minimum_px,
            measure,
        ) {
            return found;
        }
        let ghost layout = *self;
        let (title_low, title_high) = line_count_range(&self.title);
        let (artist_low, artist_high) = line_count_range(&self.artist);
        let (album_low, album_high) = line_count_range(&self.album);
        let mut smallest: Option<MetadataGroupPlan> = None;
        let ghost mut last: (int, int, int) = (0, 0, 0);
        let mut title_next: u64 = title_high as u64 + 1;
        while title_next > title_low as u64
            invariant
                layout == *self,
                measures_metadata(measure_text_px),
                    line_is_settable(self.title),
                line_is_settable(self.artist),
                line_is_settable(self.album),
                group_arithmetic_fits(layout, measure_text_px, fitting),
                sizes == title_sizes(layout),
                normal_passes_too_tall(layout, measure_text_px, available_width_px, fitting, available_height_px),
                title_low == fewest_lines(layout.title),
                artist_low == fewest_lines(layout.artist),
                album_low == fewest_lines(layout.album),
                title_high == most_lines(layout.title),
                artist_high == most_lines(layout.artist),
                album_high == most_lines(layout.album),
                title_low <= title_next <= title_high + 1,
                compact_tried_too_tall(
                    layout,
                    measure_text_px,
                    available_width_px,
                    fitting,
                    available_height_px,
                    title_next - 1,
                    artist_high as int,
                    album_high as int,
                ),
                title_next <= title_high ==> last == (title_next as int, artist_low as int, album_low as int),
                title_next <= title_high ==> (smallest matches Some(found) && group_plan_spec(
                    layout,
                    measure_text_px,
                    available_width_px,
                    fitting,
                    compact_parameters(layout, last.0, last.1, last.2),
                    Some(found@),
                )),
            decreases title_next,
        {
            let title_lines = (title_next - 1) as usize;
            let mut artist_next: u64 = artist_high as u64 + 1;
            while artist_next > artist_low as u64
                invariant
                    layout == *self,
                    measures_metadata(measure_text_px),
                            line_is_settable(self.title),
                    line_is_settable(self.artist),
                    line_is_settable(self.album),
                    group_arithmetic_fits(layout, measure_text_px, fitting),
                    sizes == title_sizes(layout),
                    normal_passes_too_tall(layout, measure_text_px, available_width_px, fitting, available_height_px),
                    title_low == fewest_lines(layout.title),
                    artist_low == fewest_lines(layout.artist),
                    album_low == fewest_lines(layout.album),
                    title_high == most_lines(layout.title),
                    artist_high == most_lines(layout.artist),
                    album_high == most_lines(layout.album),
                    title_low <= title_lines <= title_high,
                    artist_low <= artist_next <= artist_high + 1,
                    compact_tried_too_tall(
                        layout,
                        measure_text_px,
                        available_width_px,
                        fitting,
                        available_height_px,
                        title_lines as int,
                        artist_next - 1,
                        album_high as int,
                    ),
                    artist_next <= artist_high ==> last == (title_lines as int, artist_next as int, album_low as int),
                    artist_next <= artist_high ==> (smallest matches Some(found) && group_plan_spec(
                        layout,
                        measure_text_px,
                        available_width_px,
                        fitting,
                        compact_parameters(layout, last.0, last.1, last.2),
                        Some(found@),
                    )),
                decreases artist_next,
            {
                let artist_lines = (artist_next - 1) as usize;
                let mut album_next: u64 = album_high as u64 + 1;
                while album_next > album_low as u64
                    invariant
                        layout == *self,
                        measures_metadata(measure_text_px),
                                    line_is_settable(self.title),
                        line_is_settable(self.artist),
                        line_is_settable(self.album),
                        group_arithmetic_fits(layout, measure_text_px, fitting),
                        sizes == title_sizes(layout),
                        normal_passes_too_tall(layout, measure_text_px, available_width_px, fitting, available_height_px),
                        title_low == fewest_lines(layout.title),
                        artist_low == fewest_lines(layout.artist),
                        album_low == fewest_lines(layout.album),
                        title_high == most_lines(layout.title),
                        artist_high == most_lines(layout.artist),
                        album_high == most_lines(layout.album),
                        title_low <= title_lines <= title_high,
                        artist_low <= artist_lines <= artist_high,
                        album_low <= album_next <= album_high + 1,
                        compact_tried_too_tall(
                            layout,
                            measure_text_px,
                            available_width_px,
                            fitting,
                            available_height_px,
                            title_lines as int,
                            artist_lines as int,
                            album_next - 1,
                        ),
                        album_next <= album_high ==> last == (title_lines as int, artist_lines as int, album_next as int),
                        album_next <= album_high ==> (smallest matches Some(found) && group_plan_spec(
                            layout,
                            measure_text_px,
                            available_width_px,
                            fitting,
                            compact_parameters(layout, last.0, last.1, last.2),
                            Some(found@),
                        )),
                    decreases album_next,
                {
                    let album_lines = (album_next - 1) as usize;
                    let found = self.compact_plan(
                        available_width_px,
                        fitting,
                        sizes.minimum_px,
                        title_lines,
                        artist_lines,
                        album_lines,
                        &measure_text_px,
                    );
                    let ghost parameters = compact_parameters(
                        layout,
                        title_lines as int,
                        artist_lines as int,
                        album_lines as int,
                    );
                    if found.height_px <= available_height_px {
                        proof {
                            assert(in_compact_ranges(
                                layout,
                                title_lines as int,
                                artist_lines as int,
                                album_lines as int,
                            ));
                        }
                        return found;
                    }
                    proof {
                        assert forall|group: GroupPlanView|
                            #[trigger] group_plan_spec(
                                layout,
                                measure_text_px,
                                available_width_px,
                                fitting,
                                parameters,
                                Some(group),
                            ) implies group.height_px > available_height_px by {
                            lemma_group_height_unique(
                                layout,
                                measure_text_px,
                                available_width_px,
                                fitting,
                                parameters,
                                found@,
                                group,
                            );
                        }
                        assert forall|t: int, a: int, b: int|
                            in_compact_ranges(layout, t, a, b) && tried_before(
                                t,
                                a,
                                b,
                                title_lines as int,
                                artist_lines as int,
                                album_lines - 1,
                            ) implies #[trigger] too_tall(
                            layout,
                            measure_text_px,
                            available_width_px,
                            fitting,
                            compact_parameters(layout, t, a, b),
                            available_height_px,
                        ) by {
                            if !(t == title_lines && a == artist_lines && b == album_lines) {
                                assert(tried_before(
                                    t,
                                    a,
                                    b,
                                    title_lines as int,
                                    artist_lines as int,
                                    album_next - 1,
                                ));
                            }
                        }
                        last = (title_lines as int, artist_lines as int, album_lines as int);
                    }
                    smallest = Some(found);
                    album_next = album_lines as u64;
                }
                proof {
                    assert forall|t: int, a: int, b: int|
                        in_compact_ranges(layout, t, a, b) && tried_before(
                            t,
                            a,
                            b,
                            title_lines as int,
                            artist_lines - 1,
                            album_high as int,
                        ) implies #[trigger] too_tall(
                        layout,
                        measure_text_px,
                        available_width_px,
                        fitting,
                        compact_parameters(layout, t, a, b),
                        available_height_px,
                    ) by {
                        assert(tried_before(
                            t,
                            a,
                            b,
                            title_lines as int,
                            artist_lines as int,
                            album_next - 1,
                        ));
                    }
                }
                artist_next = artist_lines as u64;
            }
            proof {
                assert forall|t: int, a: int, b: int|
                    in_compact_ranges(layout, t, a, b) && tried_before(
                        t,
                        a,
                        b,
                        title_lines - 1,
                        artist_high as int,
                        album_high as int,
                    ) implies #[trigger] too_tall(
                    layout,
                    measure_text_px,
                    available_width_px,
                    fitting,
                    compact_parameters(layout, t, a, b),
                    available_height_px,
                ) by {
                    assert(tried_before(
                        t,
                        a,
                        b,
                        title_lines as int,
                        artist_next - 1,
                        album_high as int,
                    ));
                }
            }
            title_next = title_lines as u64;
        }
        proof {
            assert(in_compact_ranges(layout, last.0, last.1, last.2));
        }
        smallest.unwrap()
    }
}

// ---------------------------------------------------------------------------
// Metadata of a presentation
// ---------------------------------------------------------------------------
/// The compact pass's range of most lines for a line: one to its most, or
/// none but zero when it is absent.
fn line_count_range(line: &Option<MetadataLineLayout>) -> (range: (usize, usize))
    ensures
        range.0 as int == fewest_lines(*line),
        range.1 as int == most_lines(*line),
{
    match line {
        Some(layout) => (1, layout.maximum_lines as usize),
        None => (0, 0),
    }
}

/// A metadata line of `text`.
pub open spec fn line_layout_spec(
    text: Seq<char>,
    typography: MetadataTypography,
    sizes: MetadataFontSizes,
    maximum_lines: u32,
    line: MetadataLineLayout,
) -> bool {
    &&& line.text@ == text
    &&& line.typography == typography
    &&& line.font_sizes == sizes
    &&& line.maximum_lines == maximum_lines
}

/// The metadata line of an optional text.
pub open spec fn optional_line_spec(
    text: Option<String>,
    typography: MetadataTypography,
    sizes: MetadataFontSizes,
    maximum_lines: u32,
    line: Option<MetadataLineLayout>,
) -> bool {
    match text {
        Some(text) => line matches Some(found) && line_layout_spec(
            text@,
            typography,
            sizes,
            maximum_lines,
            found,
        ),
        None => line is None,
    }
}

fn line_layout(
    text: &str,
    typography: MetadataTypography,
    sizes: MetadataFontSizes,
    maximum_lines: u32,
) -> (line: MetadataLineLayout)
    ensures
        line_layout_spec(text@, typography, sizes, maximum_lines, line),
{
    MetadataLineLayout { text: String::from_str(text), typography, font_sizes: sizes, maximum_lines }
}

fn optional_line(
    text: &Option<String>,
    typography: MetadataTypography,
    sizes: MetadataFontSizes,
    maximum_lines: u32,
) -> (line: Option<MetadataLineLayout>)
    ensures
        optional_line_spec(*text, typography, sizes, maximum_lines, line),
{
    match text {
        Some(text) => Some(line_layout(text.as_str(), typography, sizes, maximum_lines)),
        None => None,
    }
}

/// The metadata lines of a presentation in a viewport: Title in the serif
/// on at most five lines, Artist and Album in the sans on at most three,
/// at the Now Playing sizes of the viewport; a missing field has no line.
pub fn metadata_layout(presentation: &NowPlayingPresentation, viewport: Viewport) -> (layout: MetadataLayout)
    requires
        viewport.width_px > 0,
        viewport.height_px > 0,
        now_playing_viewport_supported(viewport),
    ensures
        optional_line_spec(
            presentation.title,
            MetadataTypography::EditorialSerif,
            np_typography(viewport).title,
            TITLE_MAXIMUM_LINES,
            layout.title,
        ),
        optional_line_spec(
            presentation.artist,
            MetadataTypography::ArtistSans,
            np_typography(viewport).artist,
            ARTIST_MAXIMUM_LINES,
            layout.artist,
        ),
        optional_line_spec(
            presentation.album,
            MetadataTypography::AlbumSans,
            np_typography(viewport).album,
            ALBUM_MAXIMUM_LINES,
            layout.album,
        ),
{
    let typography = NowPlayingLayout::for_viewport(viewport).typography;
    MetadataLayout {
        title: optional_line(
            &presentation.title,
            MetadataTypography::EditorialSerif,
            typography.title,
            TITLE_MAXIMUM_LINES,
        ),
        artist: optional_line(
            &presentation.artist,
            MetadataTypography::ArtistSans,
            typography.artist,
            ARTIST_MAXIMUM_LINES,
        ),
        album: optional_line(
            &presentation.album,
            MetadataTypography::AlbumSans,
            typography.album,
            ALBUM_MAXIMUM_LINES,
        ),
    }
}

// ---------------------------------------------------------------------------
// Laws of line breaking
// ---------------------------------------------------------------------------
proof fn lemma_joined_split(words: Seq<Seq<char>>, start: int, middle: int, end: int)
    requires
        start < middle < end,
    ensures
        joined(words, start, middle) + seq![' '] + joined(words, middle, end) == joined(
            words,
            start,
            end,
        ),
    decreases end - middle,
{
    if end == middle + 1 {
        assert(joined(words, middle, end) == words[middle]);
    } else {
        lemma_joined_split(words, start, middle, end - 1);
        assert(joined(words, middle, end) == joined(words, middle, end - 1) + seq![' '] + words[end
            - 1]);
        assert(joined(words, start, middle) + seq![' '] + joined(words, middle, end) =~= (joined(
            words,
            start,
            middle,
        ) + seq![' '] + joined(words, middle, end - 1)) + seq![' '] + words[end - 1]);
    }
}

/// Setting words on lines loses, adds and reorders nothing: the lines of a
/// breaking that covers all the words, joined by spaces, are the words
/// joined by spaces.
pub proof fn lemma_lines_keep_every_word(words: Seq<Seq<char>>, breaks: Seq<usize>)
    requires
        breaks.len() >= 1,
        breaks_ordered(breaks, words.len() as int),
        breaks.last() == words.len(),
    ensures
        joined(lines_of(words, breaks), 0, breaks.len() as int) == joined(
            words,
            0,
            words.len() as int,
        ),
{
    lemma_lines_keep_words_up_to(words, breaks, breaks.len() as int);
}

proof fn lemma_lines_keep_words_up_to(words: Seq<Seq<char>>, breaks: Seq<usize>, count: int)
    requires
        1 <= count <= breaks.len(),
        breaks_ordered(breaks, words.len() as int),
    ensures
        joined(lines_of(words, breaks), 0, count) == joined(words, 0, breaks[count - 1] as int),
    decreases count,
{
    let lines = lines_of(words, breaks);
    assert(line_start(breaks, count - 1) < breaks[count - 1]);
    if count == 1 {
        assert(joined(lines, 0, 1) == lines[0]);
    } else {
        lemma_lines_keep_words_up_to(words, breaks, count - 1);
        let middle = breaks[count - 2] as int;
        assert(line_start(breaks, count - 2) < breaks[count - 2]);
        assert(line_start(breaks, count - 1) == middle);
        lemma_joined_split(words, 0, middle, breaks[count - 1] as int);
    }
}

} // verus!
