use vstd::prelude::*;

use std::collections::HashSet;

verus! {

/// The serif and sans faces the renderer sets text in.
#[derive(Clone, Copy, Debug, Eq, PartialEq, Structural)]
pub enum TypographyPair {
    /// Palatino Linotype with Segoe UI, when the host has both.
    Preferred,
    /// The packaged Libre Baskerville with IBM Plex Sans.
    Fallback,
}

/// The editorial (serif) family of a pair.
pub open spec fn editorial_family_name(pair: TypographyPair) -> Seq<char> {
    match pair {
        TypographyPair::Preferred => "Palatino Linotype"@,
        TypographyPair::Fallback => "Libre Baskerville"@,
    }
}

/// The utility (sans) family of a pair.
pub open spec fn utility_family_name(pair: TypographyPair) -> Seq<char> {
    match pair {
        TypographyPair::Preferred => "Segoe UI"@,
        TypographyPair::Fallback => "IBM Plex Sans"@,
    }
}

impl TypographyPair {
    pub fn editorial_family(self) -> (family: &'static str)
        ensures
            family@ == editorial_family_name(self),
    {
        self.families().0
    }

    pub fn utility_family(self) -> (family: &'static str)
        ensures
            family@ == utility_family_name(self),
    {
        self.families().1
    }

    fn families(self) -> (families: (&'static str, &'static str))
        ensures
            families.0@ == editorial_family_name(self),
            families.1@ == utility_family_name(self),
    {
        match self {
            TypographyPair::Preferred => ("Palatino Linotype", "Segoe UI"),
            TypographyPair::Fallback => ("Libre Baskerville", "IBM Plex Sans"),
        }
    }
}

/// Whether `families` holds a name with the characters `family`.
pub open spec fn has_family(families: Set<String>, family: Seq<char>) -> bool {
    exists|member: String| families.contains(member) && #[trigger] member@ == family
}

/// `HashSet::contains` on a set of family names, asked with a `&str`: true
/// exactly when the set holds a `String` equal to it, which for `String`
/// means the same characters.
#[verifier::external_body]
fn contains_family(families: &HashSet<String>, family: &str) -> (found: bool)
    ensures
        found == has_family(families@, family@),
{
    families.contains(family)
}

/// The preferred pair when the host has both of its families, else the
/// fallback pair.
pub fn select_typography(available_families: &HashSet<String>) -> (pair: TypographyPair)
    ensures
        pair == if has_family(available_families@, "Palatino Linotype"@) && has_family(
            available_families@,
            "Segoe UI"@,
        ) {
            TypographyPair::Preferred
        } else {
            TypographyPair::Fallback
        },
{
    if contains_family(available_families, "Palatino Linotype") && contains_family(
        available_families,
        "Segoe UI",
    ) {
        TypographyPair::Preferred
    } else {
        TypographyPair::Fallback
    }
}

} // verus!
