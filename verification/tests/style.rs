use roonscape_renderer::gallery_layout::GallerySplitLayout;
use roonscape_renderer::layout::{FullFieldLayout, Viewport};
use roonscape_renderer::palette::{PresentationPalette, Rgb};
use roonscape_renderer::style::presentation_palette_styles;

#[test]
fn the_fallback_palette_colours_every_surface() {
    let palette = PresentationPalette::fallback();
    let layout = GallerySplitLayout::for_viewport(Viewport::windowed_fixture());
    let full_field_layout = FullFieldLayout::for_viewport(Viewport::windowed_fixture());

    let styles = presentation_palette_styles("presentation-current", palette, &layout, &full_field_layout);

    for declaration in [
        ".presentation-current { background-color: #071522; color: #F3EAD7; }\n",
        "linear-gradient(118deg, #142856 0%, #071522 62%, #0A1429 100%)",
        ".artist, .presentation-current .album, .presentation-current .time, .presentation-current .identity-name { color: #C9C5BD; }",
        ".identity-label { color: #9299A8; }",
        ".full-field .full-copy { border-left: 6px solid #FF7051; }",
        ".playback-state { color: #FF7051; }",
        ".full-field-heading { color: #F3EAD7; }",
        ".full-field-explanation { color: #9299A8; }",
        "progressbar trough { background-color: #9299A8; }",
        "progressbar progress { background-color: #FF7051; }",
        "box-shadow: 0 36px 81px alpha(#071522, 0.72);",
    ] {
        assert!(styles.contains(declaration), "styles should contain {declaration:?}");
    }
    assert_eq!(styles.lines().count(), 15);
    assert!(styles.ends_with("border-color: #FF7051; }\n"));
}

#[test]
fn the_diagnostics_rule_takes_the_diagnostics_roles_of_its_layer() {
    let palette = PresentationPalette {
        diagnostics_field: Rgb::new(0x10, 0x10, 0x10),
        diagnostics_text: Rgb::new(0xfa, 0xfa, 0xfa),
        diagnostics_border: Rgb::new(0xff, 0xaa, 0x00),
        ..PresentationPalette::fallback()
    };
    let layout = GallerySplitLayout::for_viewport(Viewport::windowed_fixture());
    let full_field_layout = FullFieldLayout::for_viewport(Viewport::windowed_fixture());
    let styles = presentation_palette_styles("presentation-outgoing", palette, &layout, &full_field_layout);
    let diagnostics = styles
        .lines()
        .find(|line| line.starts_with(".presentation-outgoing .diagnostics"))
        .expect("the diagnostics rule should be on the layer");
    assert_eq!(
        diagnostics,
        ".presentation-outgoing .diagnostics { color: #FAFAFA; background-color: #101010; border-color: #FFAA00; }"
    );
}

#[test]
fn hex_colours_are_upper_case_with_two_digits_per_channel() {
    assert_eq!(Rgb::new(0x07, 0x15, 0x22).to_hex(), "#071522");
    assert_eq!(Rgb::new(0xff, 0x00, 0xab).to_hex(), "#FF00AB");
}

#[test]
fn artwork_without_a_derived_palette_uses_the_fixed_fallback() {
    let fallback = PresentationPalette::fallback();
    assert_eq!(PresentationPalette::for_artwork::<()>(None), fallback);
    assert_eq!(PresentationPalette::for_artwork(Some(Err("unreadable artwork"))), fallback);
    let derived = PresentationPalette {
        background: Rgb::new(1, 2, 3),
        ..fallback
    };
    assert_eq!(PresentationPalette::for_artwork::<()>(Some(Ok(derived))), derived);
}

#[test]
fn semantic_palette_roles_drive_every_presentation_surface() {
    let palette = PresentationPalette::fallback();
    let layout = GallerySplitLayout::for_viewport(Viewport::windowed_fixture());
    let full_field_layout = FullFieldLayout::for_viewport(Viewport::windowed_fixture());

    let styles =
        presentation_palette_styles("presentation-current", palette, &layout, &full_field_layout);

    for declaration in [
        "background-color: #071522; color: #F3EAD7",
        "linear-gradient(118deg, #142856 0%, #071522 62%, #0A1429 100%)",
        ".artist, .presentation-current .album, .presentation-current .time, .presentation-current .identity-name { color: #C9C5BD; }",
        ".identity-label { color: #9299A8; }",
        ".full-field .full-copy { border-left: 6px solid #FF7051; }",
        ".playback-state { color: #FF7051; }",
        ".full-field-heading { color: #F3EAD7; }",
        ".full-field-explanation { color: #9299A8; }",
        "progressbar trough { background-color: #9299A8; }",
        "progressbar progress { background-color: #FF7051; }",
    ] {
        assert!(
            styles.contains(declaration),
            "presentation styles should contain {declaration:?}"
        );
    }
}

fn rgb(red: u8, green: u8, blue: u8) -> Rgb {
    Rgb { red, green, blue }
}

#[test]
fn semantic_palette_roles_adapt_the_diagnostics_overlay() {
    let fallback = PresentationPalette::fallback();
    let layout = GallerySplitLayout::for_viewport(Viewport::windowed_fixture());
    let full_field_layout = FullFieldLayout::for_viewport(Viewport::windowed_fixture());
    let palettes = [
        (
            "presentation-current",
            "fixed fallback",
            fallback,
            ["color: #F3EAD7", "background-color: #0A1429", "border-color: #FF7051"],
        ),
        (
            "presentation-outgoing",
            "dark artwork",
            PresentationPalette {
                diagnostics_field: rgb(0x10, 0x10, 0x10),
                diagnostics_text: rgb(0xfa, 0xfa, 0xfa),
                diagnostics_border: rgb(0xff, 0xaa, 0x00),
                ..fallback
            },
            ["color: #FAFAFA", "background-color: #101010", "border-color: #FFAA00"],
        ),
        (
            "presentation-current",
            "light artwork",
            PresentationPalette {
                diagnostics_field: rgb(0xf6, 0xf0, 0xdc),
                diagnostics_text: rgb(0x18, 0x14, 0x0f),
                diagnostics_border: rgb(0x7c, 0x31, 0x0e),
                ..fallback
            },
            ["color: #18140F", "background-color: #F6F0DC", "border-color: #7C310E"],
        ),
    ];

    for (layer, source, palette, expected_roles) in palettes {
        let styles = presentation_palette_styles(layer, palette, &layout, &full_field_layout);
        let diagnostics = styles
            .lines()
            .find(|line| line.starts_with(&format!(".{layer} .diagnostics")))
            .unwrap_or_else(|| panic!("{source} should style diagnostics on its own layer"));

        for role in expected_roles {
            assert!(
                diagnostics.contains(role),
                "{source} diagnostics should consume semantic role {role:?}"
            );
        }
    }
}

#[test]
fn uses_the_fixed_prototype_palette_without_artwork() {
    let palette = PresentationPalette::for_artwork::<()>(None);

    assert_eq!(palette.background.to_hex(), "#071522");
    assert_eq!(palette.artwork_field.to_hex(), "#142856");
    assert_eq!(palette.metadata_field.to_hex(), "#0A1429");
    assert_eq!(palette.primary_text.to_hex(), "#F3EAD7");
    assert_eq!(palette.secondary_text.to_hex(), "#C9C5BD");
    assert_eq!(palette.muted_text.to_hex(), "#9299A8");
    assert_eq!(palette.accent.to_hex(), "#FF7051");
    assert_eq!(palette.progress_track.to_hex(), "#9299A8");
    assert_eq!(palette.progress_fill.to_hex(), "#FF7051");
    assert_eq!(palette.diagnostics_field.to_hex(), "#0A1429");
    assert_eq!(palette.diagnostics_text.to_hex(), "#F3EAD7");
    assert_eq!(palette.diagnostics_border.to_hex(), "#FF7051");
}
