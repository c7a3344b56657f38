use vstd::prelude::*;

use crate::layout::Viewport;
use crate::text::same_text;

verus! {

/// The value of a decimal digit character.
pub open spec fn digit_value(c: char) -> int {
    c as int - '0' as int
}

/// Whether every character is a decimal digit.
pub open spec fn all_digits(text: Seq<char>) -> bool {
    forall|index: int| 0 <= index < text.len() ==> '0' <= #[trigger] text[index] <= '9'
}

/// The number the decimal digits `text` write.
pub open spec fn digits_value(text: Seq<char>) -> int
    decreases text.len(),
{
    if text.len() == 0 {
        0
    } else {
        digits_value(text.drop_last()) * 10 + digit_value(text.last())
    }
}

/// What `u32::from_str` makes of `text`: an optional `+` and at least one
/// decimal digit, with a value that fits 32 bits; otherwise nothing.
pub open spec fn parsed_u32(text: Seq<char>) -> Option<u32> {
    let body = if text.len() > 0 && text[0] == '+' {
        text.drop_first()
    } else {
        text
    };
    if body.len() > 0 && all_digits(body) && digits_value(body) <= u32::MAX {
        Some(digits_value(body) as u32)
    } else {
        None
    }
}

pub(crate) proof fn lemma_digits_value_nonnegative(text: Seq<char>)
    requires
        all_digits(text),
    ensures
        digits_value(text) >= 0,
    decreases text.len(),
{
    if text.len() > 0 {
        assert(all_digits(text.drop_last()));
        lemma_digits_value_nonnegative(text.drop_last());
    }
}

/// `text[start..end]` read as a `u32` the way `u32::from_str` reads it.
fn parse_u32(text: &str, start: usize, end: usize) -> (value: Option<u32>)
    requires
        start <= end <= text@.len(),
    ensures
        value == parsed_u32(text@.subrange(start as int, end as int)),
{
    let ghost whole = text@.subrange(start as int, end as int);
    let mut first = start;
    if start < end && text.get_char(start) == '+' {
        first = start + 1;
    }
    let ghost body = text@.subrange(first as int, end as int);
    assert(body == if whole.len() > 0 && whole[0] == '+' {
        whole.drop_first()
    } else {
        whole
    });
    if first == end {
        return None;
    }
    let cap: u64 = 0x1_0000_0000;
    let mut value: u64 = 0;
    let mut index = first;
    while index < end
        invariant
            first <= index <= end <= text@.len(),
            start <= first,
            whole == text@.subrange(start as int, end as int),
            body == text@.subrange(first as int, end as int),
            body == if whole.len() > 0 && whole[0] == '+' {
                whole.drop_first()
            } else {
                whole
            },
            cap == 0x1_0000_0000,
            value <= cap,
            all_digits(text@.subrange(first as int, index as int)),
            value == if digits_value(text@.subrange(first as int, index as int)) < cap {
                digits_value(text@.subrange(first as int, index as int))
            } else {
                cap as int
            },
        decreases end - index,
    {
        let c = text.get_char(index);
        let ghost before = text@.subrange(first as int, index as int);
        let ghost after = text@.subrange(first as int, index + 1);
        assert(after.drop_last() =~= before);
        assert(after.last() == c);
        if !('0' <= c && c <= '9') {
            assert(!all_digits(body)) by {
                assert(body[index - first] == c);
            }
            return None;
        }
        let digit = (c as u32 - '0' as u32) as u64;
        proof {
            lemma_digits_value_nonnegative(before);
        }
        value = if value >= cap {
            cap
        } else {
            let next = value * 10 + digit;
            if next >= cap {
                cap
            } else {
                next
            }
        };
        index = index + 1;
        assert(all_digits(after));
    }
    assert(text@.subrange(first as int, end as int) =~= body);
    if value >= cap {
        None
    } else {
        Some(value as u32)
    }
}

/// The first index of `x` in `text`, if any.
pub open spec fn first_x(text: Seq<char>, index: int) -> bool {
    &&& 0 <= index < text.len()
    &&& text[index] == 'x'
    &&& forall|earlier: int| 0 <= earlier < index ==> text[earlier] != 'x'
}

/// What a capture viewport setting `WIDTHxHEIGHT` means: split at the first
/// `x`, each side a `u32`, both positive and within the signed 32-bit window
/// sizes; otherwise the matching complaint.
pub open spec fn capture_viewport_spec(text: Seq<char>, result: Result<Viewport, &'static str>) -> bool {
    if forall|index: int| 0 <= index < text.len() ==> text[index] != 'x' {
        result == Err::<Viewport, &'static str>("ROONSCAPE_CAPTURE_VIEWPORT must use WIDTHxHEIGHT")
    } else {
        exists|split: int| #[trigger] first_x(text, split) && {
            let width = parsed_u32(text.subrange(0, split));
            let height = parsed_u32(text.subrange(split + 1, text.len() as int));
            if width is None {
                result == Err::<Viewport, &'static str>(
                    "ROONSCAPE_CAPTURE_VIEWPORT width must be a positive integer",
                )
            } else if height is None {
                result == Err::<Viewport, &'static str>(
                    "ROONSCAPE_CAPTURE_VIEWPORT height must be a positive integer",
                )
            } else {
                let w = width->0;
                let h = height->0;
                if w == 0 || h == 0 || w > i32::MAX || h > i32::MAX {
                    result == Err::<Viewport, &'static str>(
                        "ROONSCAPE_CAPTURE_VIEWPORT dimensions must fit positive window sizes",
                    )
                } else {
                    result == Ok::<Viewport, &'static str>(Viewport { width_px: w, height_px: h })
                }
            }
        }
    }
}

/// Reads a capture viewport setting such as `1600x900`; see
/// `capture_viewport_spec`.
pub fn parse_capture_viewport(value: &str) -> (viewport: Result<Viewport, &'static str>)
    ensures
        capture_viewport_spec(value@, viewport),
{
    let length = value.unicode_len();
    let mut split: usize = 0;
    while split < length && value.get_char(split) != 'x'
        invariant
            length == value@.len(),
            split <= length,
            forall|earlier: int| 0 <= earlier < split ==> value@[earlier] != 'x',
        decreases length - split,
    {
        split = split + 1;
    }
    if split == length {
        return Err("ROONSCAPE_CAPTURE_VIEWPORT must use WIDTHxHEIGHT");
    }
    assert(first_x(value@, split as int));
    let width = match parse_u32(value, 0, split) {
        Some(width) => width,
        None => {
            return Err("ROONSCAPE_CAPTURE_VIEWPORT width must be a positive integer");
        },
    };
    let height = match parse_u32(value, split + 1, length) {
        Some(height) => height,
        None => {
            return Err("ROONSCAPE_CAPTURE_VIEWPORT height must be a positive integer");
        },
    };
    if width == 0 || height == 0 || width > 0x7fff_ffff || height > 0x7fff_ffff {
        return Err("ROONSCAPE_CAPTURE_VIEWPORT dimensions must fit positive window sizes");
    }
    Ok(Viewport::new(width, height))
}

/// The title face a capture is rendered with.
#[derive(Clone, Copy, Debug, PartialEq, Eq, Structural)]
pub enum NowPlayingTitleFace {
    Preferred,
    Fallback,
}

/// The capture settings of a renderer: a fixed viewport, a fixed title face,
/// and whether animation is reduced.
#[derive(Clone, Copy, Debug, PartialEq, Eq, Structural)]
pub struct CaptureConfiguration {
    pub viewport: Option<Viewport>,
    pub typography: Option<NowPlayingTitleFace>,
    pub reduced_animation: bool,
}

/// What a capture typography setting asks for, if it is `preferred` or `fallback`.
pub open spec fn title_face_setting(text: Seq<char>) -> Option<NowPlayingTitleFace> {
    if text == "preferred"@ {
        Some(NowPlayingTitleFace::Preferred)
    } else if text == "fallback"@ {
        Some(NowPlayingTitleFace::Fallback)
    } else {
        None
    }
}

/// The capture configuration that settings give, from the outcome of reading
/// the viewport setting (where there is one) and the typography and reduced
/// animation settings: a bad viewport, then a bad typography, then a
/// typography or reduced animation without a viewport is refused.
pub open spec fn capture_configuration_spec(
    viewport: Option<Result<Viewport, &'static str>>,
    typography: Option<Seq<char>>,
    reduced_animation: Option<Seq<char>>,
) -> Result<CaptureConfiguration, &'static str> {
    match viewport {
        Some(Err(message)) => Err(message),
        _ => {
            let viewport = match viewport {
                Some(Ok(viewport)) => Some(viewport),
                _ => None,
            };
            let reduced = reduced_animation == Some("1"@);
            match typography {
                Some(text) if title_face_setting(text) is None => Err(
                    "ROONSCAPE_CAPTURE_TYPOGRAPHY must be preferred or fallback",
                ),
                _ => {
                    let face = match typography {
                        Some(text) => title_face_setting(text),
                        None => None,
                    };
                    if face is Some && viewport is None {
                        Err("ROONSCAPE_CAPTURE_TYPOGRAPHY requires ROONSCAPE_CAPTURE_VIEWPORT")
                    } else if reduced && viewport is None {
                        Err(
                            "ROONSCAPE_CAPTURE_REDUCED_ANIMATION requires ROONSCAPE_CAPTURE_VIEWPORT",
                        )
                    } else {
                        Ok(CaptureConfiguration { viewport, typography: face, reduced_animation: reduced })
                    }
                },
            }
        },
    }
}

/// Reads the capture settings `ROONSCAPE_CAPTURE_VIEWPORT`,
/// `ROONSCAPE_CAPTURE_TYPOGRAPHY` and `ROONSCAPE_CAPTURE_REDUCED_ANIMATION`;
/// see `capture_configuration_spec`.
pub fn capture_configuration(
    viewport: Option<&str>,
    typography: Option<&str>,
    reduced_animation: Option<&str>,
) -> (configuration: Result<CaptureConfiguration, &'static str>)
    ensures
        ({
            let typography_text = match typography {
                Some(text) => Some(text@),
                None => None,
            };
            let reduced_text = match reduced_animation {
                Some(text) => Some(text@),
                None => None,
            };
            match viewport {
                None => configuration == capture_configuration_spec(
                    None,
                    typography_text,
                    reduced_text,
                ),
                Some(text) => exists|parsed: Result<Viewport, &'static str>|
                    #[trigger] capture_viewport_spec(text@, parsed) && configuration
                        == capture_configuration_spec(Some(parsed), typography_text, reduced_text),
            }
        }),
{
    let parsed = match viewport {
        Some(text) => Some(parse_capture_viewport(text)),
        None => None,
    };
    let fixed = match parsed {
        Some(Err(message)) => {
            return Err(message);
        },
        Some(Ok(viewport)) => Some(viewport),
        None => None,
    };
    proof {
        reveal_strlit("preferred");
        reveal_strlit("fallback");
        reveal_strlit("1");
    }
    let face = match typography {
        Some(text) => {
            if same_text(text, "preferred") {
                Some(NowPlayingTitleFace::Preferred)
            } else if same_text(text, "fallback") {
                Some(NowPlayingTitleFace::Fallback)
            } else {
                return Err("ROONSCAPE_CAPTURE_TYPOGRAPHY must be preferred or fallback");
            }
        },
        None => None,
    };
    let reduced = match reduced_animation {
        Some(text) => same_text(text, "1"),
        None => false,
    };
    if face.is_some() && fixed.is_none() {
        return Err("ROONSCAPE_CAPTURE_TYPOGRAPHY requires ROONSCAPE_CAPTURE_VIEWPORT");
    }
    if reduced && fixed.is_none() {
        return Err("ROONSCAPE_CAPTURE_REDUCED_ANIMATION requires ROONSCAPE_CAPTURE_VIEWPORT");
    }
    Ok(CaptureConfiguration { viewport: fixed, typography: face, reduced_animation: reduced })
}

} // verus!
