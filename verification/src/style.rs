use vstd::prelude::*;

use crate::gallery_layout::GallerySplitLayout;
use crate::layout::FullFieldLayout;
use crate::palette::{hex_color, PresentationPalette};
use crate::text::{decimal, push_decimal};

verus! {

/// Line 1 of the palette style sheet.
pub open spec fn style_line_1(class_name: Seq<char>, palette: PresentationPalette, layout: GallerySplitLayout, full_field_layout: FullFieldLayout) -> Seq<char> {
    "."@
        + class_name
        + " { background-color: "@
        + hex_color(palette.background)
        + "; color: "@
        + hex_color(palette.primary_text)
        + "; }\n"@
}

/// Line 2 of the palette style sheet.
pub open spec fn style_line_2(class_name: Seq<char>, palette: PresentationPalette, layout: GallerySplitLayout, full_field_layout: FullFieldLayout) -> Seq<char> {
    "."@
        + class_name
        + ".gallery-split { background-image: linear-gradient(118deg, "@
        + hex_color(palette.artwork_field)
        + " 0%, "@
        + hex_color(palette.background)
        + " 62%, "@
        + hex_color(palette.metadata_field)
        + " 100%); }\n"@
}

/// Line 3 of the palette style sheet.
pub open spec fn style_line_3(class_name: Seq<char>, palette: PresentationPalette, layout: GallerySplitLayout, full_field_layout: FullFieldLayout) -> Seq<char> {
    "."@
        + class_name
        + " .artwork-frame { box-shadow: 0 "@
        + decimal(layout.artwork_shadow_offset_px as nat)
        + "px "@
        + decimal(layout.artwork_shadow_blur_px as nat)
        + "px alpha("@
        + hex_color(palette.background)
        + ", 0.72); }\n"@
}

/// Line 4 of the palette style sheet.
pub open spec fn style_line_4(class_name: Seq<char>, palette: PresentationPalette, layout: GallerySplitLayout, full_field_layout: FullFieldLayout) -> Seq<char> {
    "."@
        + class_name
        + " .artwork { border-color: alpha("@
        + hex_color(palette.primary_text)
        + ", 0.16); background-color: "@
        + hex_color(palette.artwork_field)
        + "; }\n"@
}

/// Line 5 of the palette style sheet.
pub open spec fn style_line_5(class_name: Seq<char>, palette: PresentationPalette, layout: GallerySplitLayout, full_field_layout: FullFieldLayout) -> Seq<char> {
    "."@
        + class_name
        + " .artwork-missing { border-color: alpha("@
        + hex_color(palette.muted_text)
        + ", 0.22); background-image: linear-gradient(142deg, alpha("@
        + hex_color(palette.muted_text)
        + ", 0.09), "@
        + hex_color(palette.artwork_field)
        + " 52%, "@
        + hex_color(palette.background)
        + "); box-shadow: inset 0 0 0 24px alpha("@
        + hex_color(palette.background)
        + ", 0.16); }\n"@
}

/// Line 6 of the palette style sheet.
pub open spec fn style_line_6(class_name: Seq<char>, palette: PresentationPalette, layout: GallerySplitLayout, full_field_layout: FullFieldLayout) -> Seq<char> {
    "."@
        + class_name
        + ".full-field .full-copy { border-left: "@
        + decimal(full_field_layout.accent_width_px as nat)
        + "px solid "@
        + hex_color(palette.accent)
        + "; }\n"@
}

/// Line 7 of the palette style sheet.
pub open spec fn style_line_7(class_name: Seq<char>, palette: PresentationPalette, layout: GallerySplitLayout, full_field_layout: FullFieldLayout) -> Seq<char> {
    "."@
        + class_name
        + " .playback-state { color: "@
        + hex_color(palette.accent)
        + "; }\n"@
}

/// Line 8 of the palette style sheet.
pub open spec fn style_line_8(class_name: Seq<char>, palette: PresentationPalette, layout: GallerySplitLayout, full_field_layout: FullFieldLayout) -> Seq<char> {
    "."@
        + class_name
        + " .state-dot { background-color: "@
        + hex_color(palette.accent)
        + "; box-shadow: 0 0 18px alpha("@
        + hex_color(palette.accent)
        + ", 0.72); }\n"@
}

/// Line 9 of the palette style sheet.
pub open spec fn style_line_9(class_name: Seq<char>, palette: PresentationPalette, layout: GallerySplitLayout, full_field_layout: FullFieldLayout) -> Seq<char> {
    "."@
        + class_name
        + " .title, ."@
        + class_name
        + " .full-field-heading { color: "@
        + hex_color(palette.primary_text)
        + "; }\n"@
}

/// Line 10 of the palette style sheet.
pub open spec fn style_line_10(class_name: Seq<char>, palette: PresentationPalette, layout: GallerySplitLayout, full_field_layout: FullFieldLayout) -> Seq<char> {
    "."@
        + class_name
        + " .artist, ."@
        + class_name
        + " .album, ."@
        + class_name
        + " .time, ."@
        + class_name
        + " .identity-name { color: "@
        + hex_color(palette.secondary_text)
        + "; }\n"@
}

/// Line 11 of the palette style sheet.
pub open spec fn style_line_11(class_name: Seq<char>, palette: PresentationPalette, layout: GallerySplitLayout, full_field_layout: FullFieldLayout) -> Seq<char> {
    "."@
        + class_name
        + " .full-field-explanation { color: "@
        + hex_color(palette.muted_text)
        + "; }\n"@
}

/// Line 12 of the palette style sheet.
pub open spec fn style_line_12(class_name: Seq<char>, palette: PresentationPalette, layout: GallerySplitLayout, full_field_layout: FullFieldLayout) -> Seq<char> {
    "."@
        + class_name
        + " .identity-label { color: "@
        + hex_color(palette.muted_text)
        + "; }\n"@
}

/// Line 13 of the palette style sheet.
pub open spec fn style_line_13(class_name: Seq<char>, palette: PresentationPalette, layout: GallerySplitLayout, full_field_layout: FullFieldLayout) -> Seq<char> {
    "."@
        + class_name
        + " progressbar trough { background-color: "@
        + hex_color(palette.progress_track)
        + "; }\n"@
}

/// Line 14 of the palette style sheet.
pub open spec fn style_line_14(class_name: Seq<char>, palette: PresentationPalette, layout: GallerySplitLayout, full_field_layout: FullFieldLayout) -> Seq<char> {
    "."@
        + class_name
        + " progressbar progress { background-color: "@
        + hex_color(palette.progress_fill)
        + "; }\n"@
}

/// Line 15 of the palette style sheet.
pub open spec fn style_line_15(class_name: Seq<char>, palette: PresentationPalette, layout: GallerySplitLayout, full_field_layout: FullFieldLayout) -> Seq<char> {
    "."@
        + class_name
        + " .diagnostics { color: "@
        + hex_color(palette.diagnostics_text)
        + "; background-color: "@
        + hex_color(palette.diagnostics_field)
        + "; border-color: "@
        + hex_color(palette.diagnostics_border)
        + "; }\n"@
}

/// The style sheet that colours a presentation with its palette, one rule
/// per line, for widgets of the style class `class_name`.
pub open spec fn palette_styles(class_name: Seq<char>, palette: PresentationPalette, layout: GallerySplitLayout, full_field_layout: FullFieldLayout) -> Seq<char> {
    style_line_1(class_name, palette, layout, full_field_layout) + style_line_2(class_name, palette, layout, full_field_layout) + style_line_3(class_name, palette, layout, full_field_layout) + style_line_4(class_name, palette, layout, full_field_layout) + style_line_5(class_name, palette, layout, full_field_layout) + style_line_6(class_name, palette, layout, full_field_layout) + style_line_7(class_name, palette, layout, full_field_layout) + style_line_8(class_name, palette, layout, full_field_layout) + style_line_9(class_name, palette, layout, full_field_layout) + style_line_10(class_name, palette, layout, full_field_layout) + style_line_11(class_name, palette, layout, full_field_layout) + style_line_12(class_name, palette, layout, full_field_layout) + style_line_13(class_name, palette, layout, full_field_layout) + style_line_14(class_name, palette, layout, full_field_layout) + style_line_15(class_name, palette, layout, full_field_layout)
}

fn push_style_line_1(text: &mut String, class_name: &str, palette: PresentationPalette, layout: &GallerySplitLayout, full_field_layout: &FullFieldLayout)
    ensures
        final(text)@ == old(text)@ + style_line_1(class_name@, palette, *layout, *full_field_layout),
{
    proof {
        reveal_strlit(" { background-color: ");
        reveal_strlit(".");
        reveal_strlit("; color: ");
        reveal_strlit("; }\n");
    }
    text.append(".");
    text.append(class_name);
    text.append(" { background-color: ");
    text.append(palette.background.to_hex().as_str());
    text.append("; color: ");
    text.append(palette.primary_text.to_hex().as_str());
    text.append("; }\n");
    assert(final(text)@ =~= old(text)@ + style_line_1(class_name@, palette, *layout, *full_field_layout));
}

fn push_style_line_2(text: &mut String, class_name: &str, palette: PresentationPalette, layout: &GallerySplitLayout, full_field_layout: &FullFieldLayout)
    ensures
        final(text)@ == old(text)@ + style_line_2(class_name@, palette, *layout, *full_field_layout),
{
    proof {
        reveal_strlit(" 0%, ");
        reveal_strlit(" 100%); }\n");
        reveal_strlit(" 62%, ");
        reveal_strlit(".");
        reveal_strlit(".gallery-split { background-image: linear-gradient(118deg, ");
    }
    text.append(".");
    text.append(class_name);
    text.append(".gallery-split { background-image: linear-gradient(118deg, ");
    text.append(palette.artwork_field.to_hex().as_str());
    text.append(" 0%, ");
    text.append(palette.background.to_hex().as_str());
    text.append(" 62%, ");
    text.append(palette.metadata_field.to_hex().as_str());
    text.append(" 100%); }\n");
    assert(final(text)@ =~= old(text)@ + style_line_2(class_name@, palette, *layout, *full_field_layout));
}

fn push_style_line_3(text: &mut String, class_name: &str, palette: PresentationPalette, layout: &GallerySplitLayout, full_field_layout: &FullFieldLayout)
    ensures
        final(text)@ == old(text)@ + style_line_3(class_name@, palette, *layout, *full_field_layout),
{
    proof {
        reveal_strlit(" .artwork-frame { box-shadow: 0 ");
        reveal_strlit(", 0.72); }\n");
        reveal_strlit(".");
        reveal_strlit("px ");
        reveal_strlit("px alpha(");
    }
    text.append(".");
    text.append(class_name);
    text.append(" .artwork-frame { box-shadow: 0 ");
    push_decimal(text, layout.artwork_shadow_offset_px as u128);
    text.append("px ");
    push_decimal(text, layout.artwork_shadow_blur_px as u128);
    text.append("px alpha(");
    text.append(palette.background.to_hex().as_str());
    text.append(", 0.72); }\n");
    assert(final(text)@ =~= old(text)@ + style_line_3(class_name@, palette, *layout, *full_field_layout));
}

fn push_style_line_4(text: &mut String, class_name: &str, palette: PresentationPalette, layout: &GallerySplitLayout, full_field_layout: &FullFieldLayout)
    ensures
        final(text)@ == old(text)@ + style_line_4(class_name@, palette, *layout, *full_field_layout),
{
    proof {
        reveal_strlit(" .artwork { border-color: alpha(");
        reveal_strlit(", 0.16); background-color: ");
        reveal_strlit(".");
        reveal_strlit("; }\n");
    }
    text.append(".");
    text.append(class_name);
    text.append(" .artwork { border-color: alpha(");
    text.append(palette.primary_text.to_hex().as_str());
    text.append(", 0.16); background-color: ");
    text.append(palette.artwork_field.to_hex().as_str());
    text.append("; }\n");
    assert(final(text)@ =~= old(text)@ + style_line_4(class_name@, palette, *layout, *full_field_layout));
}

fn push_style_line_5(text: &mut String, class_name: &str, palette: PresentationPalette, layout: &GallerySplitLayout, full_field_layout: &FullFieldLayout)
    ensures
        final(text)@ == old(text)@ + style_line_5(class_name@, palette, *layout, *full_field_layout),
{
    proof {
        reveal_strlit(" .artwork-missing { border-color: alpha(");
        reveal_strlit(" 52%, ");
        reveal_strlit("); box-shadow: inset 0 0 0 24px alpha(");
        reveal_strlit(", 0.09), ");
        reveal_strlit(", 0.16); }\n");
        reveal_strlit(", 0.22); background-image: linear-gradient(142deg, alpha(");
        reveal_strlit(".");
    }
    text.append(".");
    text.append(class_name);
    text.append(" .artwork-missing { border-color: alpha(");
    text.append(palette.muted_text.to_hex().as_str());
    text.append(", 0.22); background-image: linear-gradient(142deg, alpha(");
    text.append(palette.muted_text.to_hex().as_str());
    text.append(", 0.09), ");
    text.append(palette.artwork_field.to_hex().as_str());
    text.append(" 52%, ");
    text.append(palette.background.to_hex().as_str());
    text.append("); box-shadow: inset 0 0 0 24px alpha(");
    text.append(palette.background.to_hex().as_str());
    text.append(", 0.16); }\n");
    assert(final(text)@ =~= old(text)@ + style_line_5(class_name@, palette, *layout, *full_field_layout));
}

fn push_style_line_6(text: &mut String, class_name: &str, palette: PresentationPalette, layout: &GallerySplitLayout, full_field_layout: &FullFieldLayout)
    ensures
        final(text)@ == old(text)@ + style_line_6(class_name@, palette, *layout, *full_field_layout),
{
    proof {
        reveal_strlit(".");
        reveal_strlit(".full-field .full-copy { border-left: ");
        reveal_strlit("; }\n");
        reveal_strlit("px solid ");
    }
    text.append(".");
    text.append(class_name);
    text.append(".full-field .full-copy { border-left: ");
    push_decimal(text, full_field_layout.accent_width_px as u128);
    text.append("px solid ");
    text.append(palette.accent.to_hex().as_str());
    text.append("; }\n");
    assert(final(text)@ =~= old(text)@ + style_line_6(class_name@, palette, *layout, *full_field_layout));
}

fn push_style_line_7(text: &mut String, class_name: &str, palette: PresentationPalette, layout: &GallerySplitLayout, full_field_layout: &FullFieldLayout)
    ensures
        final(text)@ == old(text)@ + style_line_7(class_name@, palette, *layout, *full_field_layout),
{
    proof {
        reveal_strlit(" .playback-state { color: ");
        reveal_strlit(".");
        reveal_strlit("; }\n");
    }
    text.append(".");
    text.append(class_name);
    text.append(" .playback-state { color: ");
    text.append(palette.accent.to_hex().as_str());
    text.append("; }\n");
    assert(final(text)@ =~= old(text)@ + style_line_7(class_name@, palette, *layout, *full_field_layout));
}

fn push_style_line_8(text: &mut String, class_name: &str, palette: PresentationPalette, layout: &GallerySplitLayout, full_field_layout: &FullFieldLayout)
    ensures
        final(text)@ == old(text)@ + style_line_8(class_name@, palette, *layout, *full_field_layout),
{
    proof {
        reveal_strlit(" .state-dot { background-color: ");
        reveal_strlit(", 0.72); }\n");
        reveal_strlit(".");
        reveal_strlit("; box-shadow: 0 0 18px alpha(");
    }
    text.append(".");
    text.append(class_name);
    text.append(" .state-dot { background-color: ");
    text.append(palette.accent.to_hex().as_str());
    text.append("; box-shadow: 0 0 18px alpha(");
    text.append(palette.accent.to_hex().as_str());
    text.append(", 0.72); }\n");
    assert(final(text)@ =~= old(text)@ + style_line_8(class_name@, palette, *layout, *full_field_layout));
}

fn push_style_line_9(text: &mut String, class_name: &str, palette: PresentationPalette, layout: &GallerySplitLayout, full_field_layout: &FullFieldLayout)
    ensures
        final(text)@ == old(text)@ + style_line_9(class_name@, palette, *layout, *full_field_layout),
{
    proof {
        reveal_strlit(" .full-field-heading { color: ");
        reveal_strlit(" .title, .");
        reveal_strlit(".");
        reveal_strlit("; }\n");
    }
    text.append(".");
    text.append(class_name);
    text.append(" .title, .");
    text.append(class_name);
    text.append(" .full-field-heading { color: ");
    text.append(palette.primary_text.to_hex().as_str());
    text.append("; }\n");
    assert(final(text)@ =~= old(text)@ + style_line_9(class_name@, palette, *layout, *full_field_layout));
}

fn push_style_line_10(text: &mut String, class_name: &str, palette: PresentationPalette, layout: &GallerySplitLayout, full_field_layout: &FullFieldLayout)
    ensures
        final(text)@ == old(text)@ + style_line_10(class_name@, palette, *layout, *full_field_layout),
{
    proof {
        reveal_strlit(" .album, .");
        reveal_strlit(" .artist, .");
        reveal_strlit(" .identity-name { color: ");
        reveal_strlit(" .time, .");
        reveal_strlit(".");
        reveal_strlit("; }\n");
    }
    text.append(".");
    text.append(class_name);
    text.append(" .artist, .");
    text.append(class_name);
    text.append(" .album, .");
    text.append(class_name);
    text.append(" .time, .");
    text.append(class_name);
    text.append(" .identity-name { color: ");
    text.append(palette.secondary_text.to_hex().as_str());
    text.append("; }\n");
    assert(final(text)@ =~= old(text)@ + style_line_10(class_name@, palette, *layout, *full_field_layout));
}

fn push_style_line_11(text: &mut String, class_name: &str, palette: PresentationPalette, layout: &GallerySplitLayout, full_field_layout: &FullFieldLayout)
    ensures
        final(text)@ == old(text)@ + style_line_11(class_name@, palette, *layout, *full_field_layout),
{
    proof {
        reveal_strlit(" .full-field-explanation { color: ");
        reveal_strlit(".");
        reveal_strlit("; }\n");
    }
    text.append(".");
    text.append(class_name);
    text.append(" .full-field-explanation { color: ");
    text.append(palette.muted_text.to_hex().as_str());
    text.append("; }\n");
    assert(final(text)@ =~= old(text)@ + style_line_11(class_name@, palette, *layout, *full_field_layout));
}

fn push_style_line_12(text: &mut String, class_name: &str, palette: PresentationPalette, layout: &GallerySplitLayout, full_field_layout: &FullFieldLayout)
    ensures
        final(text)@ == old(text)@ + style_line_12(class_name@, palette, *layout, *full_field_layout),
{
    proof {
        reveal_strlit(" .identity-label { color: ");
        reveal_strlit(".");
        reveal_strlit("; }\n");
    }
    text.append(".");
    text.append(class_name);
    text.append(" .identity-label { color: ");
    text.append(palette.muted_text.to_hex().as_str());
    text.append("; }\n");
    assert(final(text)@ =~= old(text)@ + style_line_12(class_name@, palette, *layout, *full_field_layout));
}

fn push_style_line_13(text: &mut String, class_name: &str, palette: PresentationPalette, layout: &GallerySplitLayout, full_field_layout: &FullFieldLayout)
    ensures
        final(text)@ == old(text)@ + style_line_13(class_name@, palette, *layout, *full_field_layout),
{
    proof {
        reveal_strlit(" progressbar trough { background-color: ");
        reveal_strlit(".");
        reveal_strlit("; }\n");
    }
    text.append(".");
    text.append(class_name);
    text.append(" progressbar trough { background-color: ");
    text.append(palette.progress_track.to_hex().as_str());
    text.append("; }\n");
    assert(final(text)@ =~= old(text)@ + style_line_13(class_name@, palette, *layout, *full_field_layout));
}

fn push_style_line_14(text: &mut String, class_name: &str, palette: PresentationPalette, layout: &GallerySplitLayout, full_field_layout: &FullFieldLayout)
    ensures
        final(text)@ == old(text)@ + style_line_14(class_name@, palette, *layout, *full_field_layout),
{
    proof {
        reveal_strlit(" progressbar progress { background-color: ");
        reveal_strlit(".");
        reveal_strlit("; }\n");
    }
    text.append(".");
    text.append(class_name);
    text.append(" progressbar progress { background-color: ");
    text.append(palette.progress_fill.to_hex().as_str());
    text.append("; }\n");
    assert(final(text)@ =~= old(text)@ + style_line_14(class_name@, palette, *layout, *full_field_layout));
}

fn push_style_line_15(text: &mut String, class_name: &str, palette: PresentationPalette, layout: &GallerySplitLayout, full_field_layout: &FullFieldLayout)
    ensures
        final(text)@ == old(text)@ + style_line_15(class_name@, palette, *layout, *full_field_layout),
{
    proof {
        reveal_strlit(" .diagnostics { color: ");
        reveal_strlit(".");
        reveal_strlit("; background-color: ");
        reveal_strlit("; border-color: ");
        reveal_strlit("; }\n");
    }
    text.append(".");
    text.append(class_name);
    text.append(" .diagnostics { color: ");
    text.append(palette.diagnostics_text.to_hex().as_str());
    text.append("; background-color: ");
    text.append(palette.diagnostics_field.to_hex().as_str());
    text.append("; border-color: ");
    text.append(palette.diagnostics_border.to_hex().as_str());
    text.append("; }\n");
    assert(final(text)@ =~= old(text)@ + style_line_15(class_name@, palette, *layout, *full_field_layout));
}

/// The style sheet of a presentation's palette; see `palette_styles`.
pub fn presentation_palette_styles(
    class_name: &str,
    palette: PresentationPalette,
    layout: &GallerySplitLayout,
    full_field_layout: &FullFieldLayout,
) -> (styles: String)
    ensures
        styles@ == palette_styles(class_name@, palette, *layout, *full_field_layout),
{
    let mut text = String::new();
    push_style_line_1(&mut text, class_name, palette, layout, full_field_layout);
    push_style_line_2(&mut text, class_name, palette, layout, full_field_layout);
    push_style_line_3(&mut text, class_name, palette, layout, full_field_layout);
    push_style_line_4(&mut text, class_name, palette, layout, full_field_layout);
    push_style_line_5(&mut text, class_name, palette, layout, full_field_layout);
    push_style_line_6(&mut text, class_name, palette, layout, full_field_layout);
    push_style_line_7(&mut text, class_name, palette, layout, full_field_layout);
    push_style_line_8(&mut text, class_name, palette, layout, full_field_layout);
    push_style_line_9(&mut text, class_name, palette, layout, full_field_layout);
    push_style_line_10(&mut text, class_name, palette, layout, full_field_layout);
    push_style_line_11(&mut text, class_name, palette, layout, full_field_layout);
    push_style_line_12(&mut text, class_name, palette, layout, full_field_layout);
    push_style_line_13(&mut text, class_name, palette, layout, full_field_layout);
    push_style_line_14(&mut text, class_name, palette, layout, full_field_layout);
    push_style_line_15(&mut text, class_name, palette, layout, full_field_layout);
    assert(text@ =~= palette_styles(class_name@, palette, *layout, *full_field_layout));
    text
}

/// Whether `rule` occurs in `sheet`.
pub open spec fn contains_rule(sheet: Seq<char>, rule: Seq<char>) -> bool {
    exists|start: int|
        0 <= start && start + rule.len() <= sheet.len() && #[trigger] sheet.subrange(
            start,
            start + rule.len(),
        ) == rule
}

spec fn style_line(
    class_name: Seq<char>,
    palette: PresentationPalette,
    layout: GallerySplitLayout,
    full_field_layout: FullFieldLayout,
    k: int,
) -> Seq<char> {
    if k == 1 {
        style_line_1(class_name, palette, layout, full_field_layout)
    } else if k == 2 {
        style_line_2(class_name, palette, layout, full_field_layout)
    } else if k == 3 {
        style_line_3(class_name, palette, layout, full_field_layout)
    } else if k == 4 {
        style_line_4(class_name, palette, layout, full_field_layout)
    } else if k == 5 {
        style_line_5(class_name, palette, layout, full_field_layout)
    } else if k == 6 {
        style_line_6(class_name, palette, layout, full_field_layout)
    } else if k == 7 {
        style_line_7(class_name, palette, layout, full_field_layout)
    } else if k == 8 {
        style_line_8(class_name, palette, layout, full_field_layout)
    } else if k == 9 {
        style_line_9(class_name, palette, layout, full_field_layout)
    } else if k == 10 {
        style_line_10(class_name, palette, layout, full_field_layout)
    } else if k == 11 {
        style_line_11(class_name, palette, layout, full_field_layout)
    } else if k == 12 {
        style_line_12(class_name, palette, layout, full_field_layout)
    } else if k == 13 {
        style_line_13(class_name, palette, layout, full_field_layout)
    } else if k == 14 {
        style_line_14(class_name, palette, layout, full_field_layout)
    } else {
        style_line_15(class_name, palette, layout, full_field_layout)
    }
}

spec fn style_lines(
    class_name: Seq<char>,
    palette: PresentationPalette,
    layout: GallerySplitLayout,
    full_field_layout: FullFieldLayout,
    count: nat,
) -> Seq<char>
    decreases count,
{
    if count == 0 {
        Seq::empty()
    } else {
        style_lines(class_name, palette, layout, full_field_layout, (count - 1) as nat) + style_line(class_name, palette, layout, full_field_layout, count as int)
    }
}

proof fn lemma_style_lines_contain(
    class_name: Seq<char>,
    palette: PresentationPalette,
    layout: GallerySplitLayout,
    full_field_layout: FullFieldLayout,
    count: nat,
    k: int,
)
    requires
        1 <= k <= count,
    ensures
        contains_rule(style_lines(class_name, palette, layout, full_field_layout, count), style_line(class_name, palette, layout, full_field_layout, k)),
    decreases count,
{
    let whole = style_lines(class_name, palette, layout, full_field_layout, count);
    let earlier = style_lines(class_name, palette, layout, full_field_layout, (count - 1) as nat);
    let line = style_line(class_name, palette, layout, full_field_layout, count as int);
    assert(whole == earlier + line);
    if k == count {
        assert(whole.subrange(earlier.len() as int, (earlier.len() + line.len()) as int) =~= line);
    } else {
        lemma_style_lines_contain(class_name, palette, layout, full_field_layout, (count - 1) as nat, k);
        let rule = style_line(class_name, palette, layout, full_field_layout, k);
        let start = choose|start: int|
            0 <= start && start + rule.len() <= earlier.len() && #[trigger] earlier.subrange(
                start,
                start + rule.len(),
            ) == rule;
        assert(whole.subrange(start, start + rule.len()) =~= earlier.subrange(
            start,
            start + rule.len(),
        ));
    }
}

proof fn lemma_sheet_contains_line(
    class_name: Seq<char>,
    palette: PresentationPalette,
    layout: GallerySplitLayout,
    full_field_layout: FullFieldLayout,
    k: int,
)
    requires
        1 <= k <= 15,
    ensures
        contains_rule(palette_styles(class_name, palette, layout, full_field_layout), style_line(class_name, palette, layout, full_field_layout, k)),
{
    reveal_with_fuel(style_lines, 16);
    assert(palette_styles(class_name, palette, layout, full_field_layout) =~= style_lines(class_name, palette, layout, full_field_layout, 15));
    lemma_style_lines_contain(class_name, palette, layout, full_field_layout, 15, k);
}

/// Each palette role paints its own widgets, whatever the palette: the
/// layer's background and text, the full-field accent border, the playback
/// state, titles and headings, the muted explanation and identity label,
/// the progress bar's trough and fill, and the diagnostics overlay.
pub proof fn lemma_roles_paint_their_widgets(
    class_name: Seq<char>,
    palette: PresentationPalette,
    layout: GallerySplitLayout,
    full_field_layout: FullFieldLayout,
)
    ensures
        contains_rule(
            palette_styles(class_name, palette, layout, full_field_layout),
            "."@ + class_name + " { background-color: "@ + hex_color(palette.background)
                + "; color: "@ + hex_color(palette.primary_text) + "; }\n"@,
        ),
        contains_rule(
            palette_styles(class_name, palette, layout, full_field_layout),
            "."@ + class_name + ".full-field .full-copy { border-left: "@ + decimal(
                full_field_layout.accent_width_px as nat,
            ) + "px solid "@ + hex_color(palette.accent) + "; }\n"@,
        ),
        contains_rule(
            palette_styles(class_name, palette, layout, full_field_layout),
            "."@ + class_name + " .playback-state { color: "@ + hex_color(palette.accent)
                + "; }\n"@,
        ),
        contains_rule(
            palette_styles(class_name, palette, layout, full_field_layout),
            "."@ + class_name + " .title, ."@ + class_name + " .full-field-heading { color: "@
                + hex_color(palette.primary_text) + "; }\n"@,
        ),
        contains_rule(
            palette_styles(class_name, palette, layout, full_field_layout),
            "."@ + class_name + " .full-field-explanation { color: "@ + hex_color(
                palette.muted_text,
            ) + "; }\n"@,
        ),
        contains_rule(
            palette_styles(class_name, palette, layout, full_field_layout),
            "."@ + class_name + " .identity-label { color: "@ + hex_color(palette.muted_text)
                + "; }\n"@,
        ),
        contains_rule(
            palette_styles(class_name, palette, layout, full_field_layout),
            "."@ + class_name + " progressbar trough { background-color: "@ + hex_color(
                palette.progress_track,
            ) + "; }\n"@,
        ),
        contains_rule(
            palette_styles(class_name, palette, layout, full_field_layout),
            "."@ + class_name + " progressbar progress { background-color: "@ + hex_color(
                palette.progress_fill,
            ) + "; }\n"@,
        ),
        contains_rule(
            palette_styles(class_name, palette, layout, full_field_layout),
            "."@ + class_name + " .diagnostics { color: "@ + hex_color(palette.diagnostics_text)
                + "; background-color: "@ + hex_color(palette.diagnostics_field)
                + "; border-color: "@ + hex_color(palette.diagnostics_border) + "; }\n"@,
        ),
{
    lemma_sheet_contains_line(class_name, palette, layout, full_field_layout, 1);
    lemma_sheet_contains_line(class_name, palette, layout, full_field_layout, 6);
    lemma_sheet_contains_line(class_name, palette, layout, full_field_layout, 7);
    lemma_sheet_contains_line(class_name, palette, layout, full_field_layout, 9);
    lemma_sheet_contains_line(class_name, palette, layout, full_field_layout, 11);
    lemma_sheet_contains_line(class_name, palette, layout, full_field_layout, 12);
    lemma_sheet_contains_line(class_name, palette, layout, full_field_layout, 13);
    lemma_sheet_contains_line(class_name, palette, layout, full_field_layout, 14);
    lemma_sheet_contains_line(class_name, palette, layout, full_field_layout, 15);
}

} // verus!
