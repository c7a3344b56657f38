use std::collections::HashSet;

use roonscape_renderer::typography::{select_typography, TypographyPair};

fn available_families<const N: usize>(families: [&str; N]) -> HashSet<String> {
    families.into_iter().map(str::to_owned).collect()
}

#[test]
fn selects_the_preferred_pair_only_when_both_host_faces_are_available() {
    let complete = available_families(["Palatino Linotype", "Segoe UI"]);
    let serif_only = available_families(["Palatino Linotype"]);
    let sans_only = available_families(["Segoe UI"]);
    let absent = available_families([]);

    assert_eq!(select_typography(&complete), TypographyPair::Preferred);
    assert_eq!(select_typography(&serif_only), TypographyPair::Fallback);
    assert_eq!(select_typography(&sans_only), TypographyPair::Fallback);
    assert_eq!(select_typography(&absent), TypographyPair::Fallback);
}

#[test]
fn exposes_complete_editorial_and_utility_pairs_without_mixing() {
    assert_eq!(
        (
            TypographyPair::Preferred.editorial_family(),
            TypographyPair::Preferred.utility_family(),
        ),
        ("Palatino Linotype", "Segoe UI")
    );
    assert_eq!(
        (
            TypographyPair::Fallback.editorial_family(),
            TypographyPair::Fallback.utility_family(),
        ),
        ("Libre Baskerville", "IBM Plex Sans")
    );
}

#[test]
fn family_names_must_match_exactly() {
    let near_misses = available_families(["palatino linotype", "Segoe UI ", "Segoe"]);
    assert_eq!(select_typography(&near_misses), TypographyPair::Fallback);
    let with_extras = available_families(["Segoe UI", "Helvetica", "Palatino Linotype"]);
    assert_eq!(select_typography(&with_extras), TypographyPair::Preferred);
}
