use roonscape_renderer::layout::{MetadataFitting, MetadataFontSizes};
use roonscape_renderer::metadata::{
    balanced_breaks, join_words, split_words, MetadataDensity, MetadataLayout, MetadataLineLayout,
    MetadataTypography, rendered_text_height_px,
};

fn line(text: &str, typography: MetadataTypography, sizes: (u32, u32, u32), maximum_lines: u32) -> MetadataLineLayout {
    MetadataLineLayout {
        text: text.to_owned(),
        typography,
        font_sizes: MetadataFontSizes {
            preferred_px: sizes.0,
            reduced_px: sizes.1,
            minimum_px: sizes.2,
        },
        maximum_lines,
    }
}

fn by_characters(text: &str, size_px: u32) -> u32 {
    text.chars().count() as u32 * size_px
}

#[test]
fn words_are_split_at_unicode_white_space() {
    let words = split_words("  Last  Light\ton\u{a0}Phobos \u{3000}");
    assert_eq!(words, vec!["Last", "Light", "on", "Phobos"]);
    assert!(split_words(" \t\n ").is_empty());
    assert_eq!(join_words(&words, 1, 3), "Light on");
    assert_eq!(join_words(&words, 2, 2), "");
}

#[test]
fn balanced_breaks_share_the_width_evenly() {
    // Four words of width 10 with spaces of width 1: the run from `start`
    // to `end` is 11 * (end - start) - 1 wide.
    let table: Vec<Vec<u32>> = (0..4)
        .map(|start| {
            (0..=4)
                .map(|end| if end <= start { 0 } else { 11 * (end - start) as u32 - 1 })
                .collect()
        })
        .collect();
    assert_eq!(balanced_breaks(&table, 2, 21, 43), Some(vec![2, 4]));
    assert_eq!(balanced_breaks(&table, 1, 43, 43), Some(vec![4]));
    assert_eq!(balanced_breaks(&table, 2, 20, 43), None);
    assert_eq!(balanced_breaks(&table, 3, 21, 43), Some(vec![1, 2, 4]));
}

#[test]
fn line_heights_add_the_leading_of_each_further_line() {
    assert_eq!(rendered_text_height_px(1, 40, 125), 40);
    assert_eq!(rendered_text_height_px(0, 40, 125), 40);
    assert_eq!(rendered_text_height_px(3, 10, 125), 35);
    assert_eq!(rendered_text_height_px(2, 6, 118), 14);
}

#[test]
fn a_text_that_fits_stays_on_one_line_at_its_preferred_size() {
    let layout = line("aa bb", MetadataTypography::EditorialSerif, (10, 8, 6), 5);
    let plan = layout.fitting_line_plan(100, by_characters);
    assert_eq!(plan.lines, vec!["aa bb"]);
    assert_eq!(plan.font_size_px, 10);
    assert_eq!(plan.line_height_percent, 94);
    assert_eq!(plan.height_px, 10);
    assert!(!plan.ellipsized);
}

#[test]
fn a_long_text_is_balanced_over_the_fewest_lines() {
    let layout = line("aa bb cc dd", MetadataTypography::ArtistSans, (10, 8, 6), 2);
    let plan = layout.fitting_line_plan(60, by_characters);
    assert_eq!(plan.lines, vec!["aa bb", "cc dd"]);
    assert_eq!(plan.font_size_px, 10);
    assert_eq!(plan.line_height_percent, 125);
    assert_eq!(plan.height_px, 23);
    assert!(!plan.ellipsized);
}

#[test]
fn a_text_that_fits_nowhere_is_truncated_and_ellipsized_at_the_minimum() {
    let layout = line("aa bb cc dd", MetadataTypography::AlbumSans, (10, 8, 6), 2);
    let plan = layout.fitting_line_plan(15, by_characters);
    assert_eq!(plan.lines, vec!["aa", "\u{2026}"]);
    assert_eq!(plan.font_size_px, 6);
    assert_eq!(plan.line_height_percent, 118);
    assert_eq!(plan.height_px, 14);
    assert!(plan.ellipsized);
}

#[test]
fn a_text_without_words_is_one_empty_line() {
    let layout = line("   ", MetadataTypography::EditorialSerif, (10, 8, 6), 5);
    let plan = layout.fitting_line_plan(15, by_characters);
    assert_eq!(plan.lines, vec![""]);
    assert_eq!(plan.font_size_px, 10);
}

#[test]
fn the_group_takes_the_first_normal_plan_that_fits_its_height() {
    let layout = MetadataLayout {
        title: Some(line("aa bb", MetadataTypography::EditorialSerif, (10, 8, 6), 5)),
        artist: Some(line("cc", MetadataTypography::ArtistSans, (5, 4, 3), 3)),
        album: None,
    };
    let fitting = MetadataFitting {
        normal_title_to_credit_gap_px: 7,
        compact_title_to_credit_gap_px: 3,
        normal_album_gap_px: 5,
        compact_album_gap_px: 2,
    };
    let plan = layout.fitting_group_plan(100, 100, fitting, |_: MetadataTypography, text: &str, size_px: u32| {
        (by_characters(text, size_px), size_px + 2)
    });
    assert_eq!(plan.density, MetadataDensity::Normal);
    let title = plan.title.expect("the title is present");
    assert_eq!(title.lines, vec!["aa bb"]);
    assert_eq!(title.height_px, 12);
    let artist = plan.artist.expect("the artist is present");
    assert_eq!(artist.height_px, 7);
    assert!(plan.album.is_none());
    assert_eq!(plan.height_px, 12 + 7 + 7);
}

#[test]
fn a_group_too_tall_for_every_plan_ends_with_the_fewest_compact_lines() {
    let layout = MetadataLayout {
        title: Some(line("aa bb", MetadataTypography::EditorialSerif, (10, 8, 6), 2)),
        artist: None,
        album: None,
    };
    let fitting = MetadataFitting {
        normal_title_to_credit_gap_px: 7,
        compact_title_to_credit_gap_px: 3,
        normal_album_gap_px: 5,
        compact_album_gap_px: 2,
    };
    let plan = layout.fitting_group_plan(100, 1, fitting, |_: MetadataTypography, text: &str, size_px: u32| {
        (by_characters(text, size_px), size_px)
    });
    assert_eq!(plan.density, MetadataDensity::CompactCredits);
    let title = plan.title.expect("the title is present");
    assert_eq!(title.font_size_px, 6);
    assert_eq!(title.lines, vec!["aa bb"]);
    assert_eq!(plan.height_px, 6);
}

#[test]
fn equally_balanced_breakings_keep_the_longer_lines_last() {
    // Three words of width 10 with spaces of width 1: both two-line
    // breakings fall 5 and 6 pixels short of the even share of 16.
    let table: Vec<Vec<u32>> = (0..3)
        .map(|start| {
            (0..=3)
                .map(|end| if end <= start { 0 } else { 11 * (end - start) as u32 - 1 })
                .collect()
        })
        .collect();
    assert_eq!(balanced_breaks(&table, 2, 21, 32), Some(vec![1, 3]));
    let layout = line("aa bb cc", MetadataTypography::ArtistSans, (10, 8, 6), 2);
    let plan = layout.fitting_line_plan(50, by_characters);
    assert_eq!(plan.lines, vec!["aa", "bb cc"]);
    assert_eq!(plan.font_size_px, 10);
}
