use roonscape_renderer::capture_viewport::{
    NowPlayingTitleFace, capture_configuration, parse_capture_viewport,
};
use roonscape_renderer::layout::Viewport;

#[test]
fn capture_viewports_are_width_by_height() {
    assert_eq!(parse_capture_viewport("1600x900"), Ok(Viewport::new(1600, 900)));
    assert_eq!(parse_capture_viewport("+3840x+2160"), Ok(Viewport::new(3840, 2160)));
}

#[test]
fn malformed_capture_viewports_name_their_fault() {
    assert_eq!(
        parse_capture_viewport("1600"),
        Err("ROONSCAPE_CAPTURE_VIEWPORT must use WIDTHxHEIGHT")
    );
    assert_eq!(
        parse_capture_viewport("widex900"),
        Err("ROONSCAPE_CAPTURE_VIEWPORT width must be a positive integer")
    );
    assert_eq!(
        parse_capture_viewport("99999999999x1"),
        Err("ROONSCAPE_CAPTURE_VIEWPORT width must be a positive integer")
    );
    assert_eq!(
        parse_capture_viewport("1600x"),
        Err("ROONSCAPE_CAPTURE_VIEWPORT height must be a positive integer")
    );
    assert_eq!(
        parse_capture_viewport("1600x900x2"),
        Err("ROONSCAPE_CAPTURE_VIEWPORT height must be a positive integer")
    );
    assert_eq!(
        parse_capture_viewport("0x900"),
        Err("ROONSCAPE_CAPTURE_VIEWPORT dimensions must fit positive window sizes")
    );
    assert_eq!(
        parse_capture_viewport("3000000000x10"),
        Err("ROONSCAPE_CAPTURE_VIEWPORT dimensions must fit positive window sizes")
    );
    assert_eq!(
        parse_capture_viewport("-1x10"),
        Err("ROONSCAPE_CAPTURE_VIEWPORT width must be a positive integer")
    );
}

#[test]
fn capture_settings_need_a_viewport_for_typography_and_reduced_animation() {
    let configuration = capture_configuration(Some("1600x900"), Some("fallback"), Some("1"))
        .expect("complete capture settings");
    assert_eq!(configuration.viewport, Some(Viewport::new(1600, 900)));
    assert_eq!(configuration.typography, Some(NowPlayingTitleFace::Fallback));
    assert!(configuration.reduced_animation);

    let plain = capture_configuration(None, None, Some("0")).expect("no capture settings");
    assert_eq!(plain.viewport, None);
    assert_eq!(plain.typography, None);
    assert!(!plain.reduced_animation);

    assert_eq!(
        capture_configuration(None, Some("preferred"), None),
        Err("ROONSCAPE_CAPTURE_TYPOGRAPHY requires ROONSCAPE_CAPTURE_VIEWPORT")
    );
    assert_eq!(
        capture_configuration(None, None, Some("1")),
        Err("ROONSCAPE_CAPTURE_REDUCED_ANIMATION requires ROONSCAPE_CAPTURE_VIEWPORT")
    );
    assert_eq!(
        capture_configuration(Some("1600x900"), Some("serif"), None),
        Err("ROONSCAPE_CAPTURE_TYPOGRAPHY must be preferred or fallback")
    );
    assert_eq!(
        capture_configuration(Some("wide"), Some("serif"), None),
        Err("ROONSCAPE_CAPTURE_VIEWPORT must use WIDTHxHEIGHT")
    );
    assert_eq!(
        capture_configuration(Some("1600x900"), Some("preferred"), None)
            .map(|configuration| configuration.typography),
        Ok(Some(NowPlayingTitleFace::Preferred))
    );
}
