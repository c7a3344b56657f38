use roonscape_renderer::gallery_layout::{GalleryField, GallerySplitLayout, GallerySplitRole};
use roonscape_renderer::layout::{IdentityPlacement, Viewport};
use roonscape_renderer::presentation::{
    NowPlayingPresentation, PresentationProgress, PresentationStatus, PresentationStatusEmphasis,
    PresentationStatusMotion, PresentationStatusSymbol,
};

fn presentation(title: Option<&str>, artist: Option<&str>, album: Option<&str>, progress: bool) -> NowPlayingPresentation {
    NowPlayingPresentation {
        title: title.map(str::to_owned),
        artist: artist.map(str::to_owned),
        album: album.map(str::to_owned),
        tracked_output: "Living Room".to_owned(),
        tracked_zone: "Main".to_owned(),
        status: PresentationStatus {
            label: "PLAYING",
            symbol: PresentationStatusSymbol::Playing,
            motion: PresentationStatusMotion::Static,
            emphasis: PresentationStatusEmphasis::FullAccent,
        },
        progress: progress.then(|| PresentationProgress {
            fraction_bits: 0.5f64.to_bits(),
            elapsed: "1:00".to_owned(),
            remaining: "-1:00".to_owned(),
        }),
        activity: None,
        artwork_revision: None,
        artwork_path: None,
        lyrics: None,
    }
}

#[test]
fn gallery_geometry_at_the_reference_viewport() {
    let layout = GallerySplitLayout::for_viewport(Viewport::new(3840, 2160));
    assert_eq!(layout.field, GalleryField::Cohesive);
    assert_eq!(layout.outer_gutter_px, 160);
    assert_eq!(layout.column_gap_px, 192);
    assert_eq!(layout.artwork_column_width_px, 1964);
    assert_eq!(layout.metadata_column_width_px, 1364);
    assert_eq!(layout.artwork_field_width_px, 1750);
    assert_eq!(layout.artwork_field_height_px, 1750);
    assert_eq!(layout.status_top_inset_px, 39);
    assert_eq!(layout.identity_placement, IdentityPlacement::BottomRight);
    assert_eq!(layout.typography.title.preferred_px, 168);
    assert_eq!(layout.typography.artist.preferred_px, 64);
    assert_eq!(layout.typography.album.preferred_px, 45);
    assert_eq!(layout.typography.status_px, 30);
    assert_eq!(layout.typography.status_letter_spacing_px, 4);
    assert!(layout.metadata_roles.is_empty());
}

#[test]
fn gallery_geometry_at_the_windowed_viewport() {
    let layout = GallerySplitLayout::for_viewport(Viewport::windowed_fixture());
    assert_eq!(layout.outer_gutter_px, 67);
    assert_eq!(layout.column_gap_px, 80);
    assert_eq!(layout.artwork_column_width_px, 818);
    assert_eq!(layout.metadata_column_width_px, 568);
    assert_eq!(layout.artwork_field_width_px, 729);
    assert_eq!(layout.status_top_inset_px, 16);
    assert_eq!(layout.typography.title.preferred_px, 74);
    assert_eq!(layout.typography.artist.preferred_px, 28);
    assert_eq!(layout.typography.album.preferred_px, 20);
    assert_eq!(layout.typography.status_px, 13);
    assert_eq!(layout.typography.status_letter_spacing_px, 2);
    assert_eq!(layout.state_dot_size_px, 8);
    assert_eq!(layout.album_spacing_px, 10);
    assert_eq!(
        layout.outer_gutter_px * 2
            + layout.artwork_column_width_px
            + layout.column_gap_px
            + layout.metadata_column_width_px,
        1600
    );
}

#[test]
fn gallery_rows_follow_the_presentation() {
    let full = GallerySplitLayout::for_presentation(
        &presentation(Some("Title"), Some("Artist"), Some("Album"), true),
        Viewport::new(3840, 2160),
    );
    assert_eq!(
        full.metadata_roles,
        vec![
            GallerySplitRole::PlaybackStatus,
            GallerySplitRole::Title,
            GallerySplitRole::Artist,
            GallerySplitRole::Album,
            GallerySplitRole::Progress,
        ]
    );
    let sparse = GallerySplitLayout::for_presentation(
        &presentation(Some("Title"), None, None, false),
        Viewport::new(3840, 2160),
    );
    assert_eq!(
        sparse.metadata_roles,
        vec![GallerySplitRole::PlaybackStatus, GallerySplitRole::Title]
    );
}

#[test]
fn a_narrow_viewport_saturates_the_content_width() {
    let layout = GallerySplitLayout::for_viewport(Viewport::new(100, 100));
    assert_eq!(layout.artwork_column_width_px, 0);
    assert_eq!(layout.metadata_column_width_px, 0);
    assert_eq!(layout.artwork_field_width_px, 0);
}

#[test]
fn a_tall_viewport_caps_the_square_artwork_field_by_its_height() {
    let tall = GallerySplitLayout::for_viewport(Viewport::new(3840, 2400));
    assert_eq!(tall.artwork_field_width_px, 1944);
    assert_eq!(tall.artwork_field_height_px, 1944);
    assert_eq!(tall.status_top_inset_px, 43);
    assert_eq!(tall.typography.title.preferred_px, 168);
    assert_eq!(
        tall.outer_gutter_px * 2
            + tall.artwork_column_width_px
            + tall.column_gap_px
            + tall.metadata_column_width_px,
        3840
    );
}
