use vstd::prelude::*;

use crate::layout::{
    ratio_px, ratio_px_spec, saturating_mul_spec, saturating_sub_spec, scaled, scaled_spec,
    ArtworkFit, IdentityPlacement, MetadataFontSizes, Viewport,
};
use crate::presentation::NowPlayingPresentation;

verus! {

/// The field behind a gallery split composition.
#[derive(Clone, Copy, Debug, PartialEq, Eq, Structural)]
pub enum GalleryField {
    Cohesive,
}

/// The rows of the gallery split's metadata column, top to bottom.
#[derive(Clone, Copy, Debug, PartialEq, Eq, Structural)]
pub enum GallerySplitRole {
    PlaybackStatus,
    Title,
    Artist,
    Album,
    Progress,
}

/// The type sizes of the gallery split.
#[derive(Clone, Copy, Debug, PartialEq, Eq, Structural)]
pub struct GallerySplitTypography {
    pub title: MetadataFontSizes,
    pub artist: MetadataFontSizes,
    pub album: MetadataFontSizes,
    pub status_px: u32,
    pub status_letter_spacing_px: u32,
    pub time_px: u32,
    pub identity_px: u32,
}

/// Artwork beside a metadata column, scaled from the viewport.
#[derive(Clone, Debug, PartialEq, Eq)]
pub struct GallerySplitLayout {
    pub field: GalleryField,
    pub outer_gutter_px: u32,
    pub column_gap_px: u32,
    pub artwork_column_width_px: u32,
    pub metadata_column_width_px: u32,
    pub artwork_field_width_px: u32,
    pub artwork_field_height_px: u32,
    pub artwork_fit: ArtworkFit,
    pub identity_placement: IdentityPlacement,
    pub metadata_roles: Vec<GallerySplitRole>,
    pub metadata_right_inset_px: u32,
    pub status_top_inset_px: u32,
    pub status_to_title_spacing_px: u32,
    pub artist_spacing_px: u32,
    pub album_spacing_px: u32,
    pub progress_spacing_px: u32,
    pub time_spacing_px: u32,
    pub identity_gap_px: u32,
    pub state_dot_size_px: u32,
    pub progress_height_px: u32,
    pub artwork_shadow_offset_px: u32,
    pub artwork_shadow_blur_px: u32,
    pub typography: GallerySplitTypography,
}

/// The width left for the two columns: the viewport less two gutters and
/// the column gap, each step saturating at zero.
pub open spec fn gallery_content_width(w: int, gutter: int, gap: int) -> int {
    saturating_sub_spec(saturating_sub_spec(w, saturating_mul_spec(gutter, 2)), gap)
}

/// The gallery split's geometry for a viewport: gutters and gap scale with
/// the width; the artwork column takes 59% of the content width and the
/// metadata column the rest; the square artwork field is the artwork column,
/// at most 81% of the height; every size scales with an axis between a
/// minimum and a maximum. The status row sits 1.8% of the height below the
/// top of the column, its letters spaced by a thousandth of the width.
pub open spec fn gallery_geometry(layout: GallerySplitLayout, viewport: Viewport) -> bool {
    let w = viewport.width_px as int;
    let h = viewport.height_px as int;
    let gutter = scaled_spec(w, 42, 1000, 32, 160);
    let gap = scaled_spec(w, 5, 100, 40, 192);
    let content = gallery_content_width(w, gutter, gap);
    let artwork_column = ratio_px_spec(content, 59, 100);
    let artwork_field = if artwork_column <= ratio_px_spec(h, 81, 100) {
        artwork_column
    } else {
        ratio_px_spec(h, 81, 100)
    };
    &&& layout.field == GalleryField::Cohesive
    &&& layout.outer_gutter_px == gutter
    &&& layout.column_gap_px == gap
    &&& layout.artwork_column_width_px == artwork_column
    &&& layout.metadata_column_width_px == content - artwork_column
    &&& layout.artwork_field_width_px == artwork_field
    &&& layout.artwork_field_height_px == artwork_field
    &&& layout.artwork_fit == ArtworkFit::Contain
    &&& layout.identity_placement == IdentityPlacement::BottomRight
    &&& layout.typography.title.preferred_px == scaled_spec(w, 46, 1000, 53, 168)
    &&& layout.typography.title.reduced_px == scaled_spec(w, 365, 10_000, 40, 128)
    &&& layout.typography.title.minimum_px == scaled_spec(w, 28, 1000, 36, 96)
    &&& layout.typography.artist.preferred_px == scaled_spec(w, 175, 10_000, 22, 64)
    &&& layout.typography.artist.reduced_px == scaled_spec(w, 146, 10_000, 20, 56)
    &&& layout.typography.artist.minimum_px == scaled_spec(w, 125, 10_000, 18, 48)
    &&& layout.typography.album.preferred_px == scaled_spec(w, 122, 10_000, 17, 45)
    &&& layout.typography.album.reduced_px == scaled_spec(w, 106, 10_000, 16, 40)
    &&& layout.typography.album.minimum_px == scaled_spec(w, 94, 10_000, 15, 35)
    &&& layout.typography.status_px == scaled_spec(w, 8, 1000, 12, 30)
    &&& layout.typography.status_letter_spacing_px == scaled_spec(w, 1, 1000, 1, 4)
    &&& layout.typography.time_px == scaled_spec(w, 72, 10_000, 11, 26)
    &&& layout.typography.identity_px == scaled_spec(w, 72, 10_000, 11, 27)
    &&& layout.metadata_right_inset_px == scaled_spec(w, 2, 100, 24, 77)
    &&& layout.status_top_inset_px == scaled_spec(h, 18, 1000, 12, 48)
    &&& layout.status_to_title_spacing_px == scaled_spec(h, 46, 1000, 32, 96)
    &&& layout.artist_spacing_px == scaled_spec(h, 32, 1000, 26, 72)
    &&& layout.album_spacing_px == ratio_px_spec(layout.typography.album.preferred_px as int, 48, 100)
    &&& layout.progress_spacing_px == scaled_spec(h, 65, 1000, 45, 128)
    &&& layout.time_spacing_px == scaled_spec(w, 55, 10_000, 7, 22)
    &&& layout.identity_gap_px == scaled_spec(w, 18, 1000, 19, 64)
    &&& layout.state_dot_size_px == ratio_px_spec(layout.typography.status_px as int, 58, 100)
    &&& layout.progress_height_px == scaled_spec(w, 16, 10_000, 3, 6)
    &&& layout.artwork_shadow_offset_px == scaled_spec(h, 4, 100, 36, 86)
    &&& layout.artwork_shadow_blur_px == scaled_spec(h, 9, 100, 81, 194)
}

/// The rows shown for a presentation: the playback status, then each of
/// Title, Artist, Album and progress that it has.
pub open spec fn gallery_roles_spec(presentation: NowPlayingPresentation) -> Seq<GallerySplitRole> {
    seq![GallerySplitRole::PlaybackStatus] + (if presentation.title is Some {
        seq![GallerySplitRole::Title]
    } else {
        seq![]
    }) + (if presentation.artist is Some {
        seq![GallerySplitRole::Artist]
    } else {
        seq![]
    }) + (if presentation.album is Some {
        seq![GallerySplitRole::Album]
    } else {
        seq![]
    }) + (if presentation.progress is Some {
        seq![GallerySplitRole::Progress]
    } else {
        seq![]
    })
}

fn metadata_roles(presentation: &NowPlayingPresentation) -> (roles: Vec<GallerySplitRole>)
    ensures
        roles@ == gallery_roles_spec(*presentation),
{
    let mut roles = Vec::new();
    roles.push(GallerySplitRole::PlaybackStatus);
    if presentation.title.is_some() {
        roles.push(GallerySplitRole::Title);
    }
    if presentation.artist.is_some() {
        roles.push(GallerySplitRole::Artist);
    }
    if presentation.album.is_some() {
        roles.push(GallerySplitRole::Album);
    }
    if presentation.progress.is_some() {
        roles.push(GallerySplitRole::Progress);
    }
    assert(roles@ =~= gallery_roles_spec(*presentation));
    roles
}

impl GallerySplitLayout {
    /// The viewport's geometry with the rows of the presentation.
    pub fn for_presentation(presentation: &NowPlayingPresentation, viewport: Viewport) -> (layout: Self)
        ensures
            gallery_geometry(layout, viewport),
            layout.metadata_roles@ == gallery_roles_spec(*presentation),
    {
        let mut layout = Self::for_viewport(viewport);
        layout.metadata_roles = metadata_roles(presentation);
        layout
    }

    /// The viewport's geometry, before any rows are known.
    pub fn for_viewport(viewport: Viewport) -> (layout: Self)
        ensures
            gallery_geometry(layout, viewport),
            layout.metadata_roles@ == Seq::<GallerySplitRole>::empty(),
    {
        let outer_gutter_px = scaled(viewport.width_px, 42, 1000, 32, 160);
        let column_gap_px = scaled(viewport.width_px, 5, 100, 40, 192);
        let content_width_px = viewport.width_px.saturating_sub(outer_gutter_px * 2).saturating_sub(
            column_gap_px,
        );
        let artwork_column_width_px = ratio_px(content_width_px, 59, 100);
        assert(artwork_column_width_px <= content_width_px) by (nonlinear_arith)
            requires
                artwork_column_width_px <= (content_width_px as int * 59 + 50) / 100,
        ;
        let metadata_column_width_px = content_width_px - artwork_column_width_px;
        let height_limit_px = ratio_px(viewport.height_px, 81, 100);
        let artwork_field_size_px = if artwork_column_width_px <= height_limit_px {
            artwork_column_width_px
        } else {
            height_limit_px
        };
        let typography = GallerySplitTypography {
            title: MetadataFontSizes {
                preferred_px: scaled(viewport.width_px, 46, 1000, 53, 168),
                reduced_px: scaled(viewport.width_px, 365, 10_000, 40, 128),
                minimum_px: scaled(viewport.width_px, 28, 1000, 36, 96),
            },
            artist: MetadataFontSizes {
                preferred_px: scaled(viewport.width_px, 175, 10_000, 22, 64),
                reduced_px: scaled(viewport.width_px, 146, 10_000, 20, 56),
                minimum_px: scaled(viewport.width_px, 125, 10_000, 18, 48),
            },
            album: MetadataFontSizes {
                preferred_px: scaled(viewport.width_px, 122, 10_000, 17, 45),
                reduced_px: scaled(viewport.width_px, 106, 10_000, 16, 40),
                minimum_px: scaled(viewport.width_px, 94, 10_000, 15, 35),
            },
            status_px: scaled(viewport.width_px, 8, 1000, 12, 30),
            status_letter_spacing_px: scaled(viewport.width_px, 1, 1000, 1, 4),
            time_px: scaled(viewport.width_px, 72, 10_000, 11, 26),
            identity_px: scaled(viewport.width_px, 72, 10_000, 11, 27),
        };
        Self {
            field: GalleryField::Cohesive,
            outer_gutter_px,
            column_gap_px,
            artwork_column_width_px,
            metadata_column_width_px,
            artwork_field_width_px: artwork_field_size_px,
            artwork_field_height_px: artwork_field_size_px,
            artwork_fit: ArtworkFit::Contain,
            identity_placement: IdentityPlacement::BottomRight,
            metadata_roles: Vec::new(),
            metadata_right_inset_px: scaled(viewport.width_px, 2, 100, 24, 77),
            status_top_inset_px: scaled(viewport.height_px, 18, 1000, 12, 48),
            status_to_title_spacing_px: scaled(viewport.height_px, 46, 1000, 32, 96),
            artist_spacing_px: scaled(viewport.height_px, 32, 1000, 26, 72),
            album_spacing_px: ratio_px(typography.album.preferred_px, 48, 100),
            progress_spacing_px: scaled(viewport.height_px, 65, 1000, 45, 128),
            time_spacing_px: scaled(viewport.width_px, 55, 10_000, 7, 22),
            identity_gap_px: scaled(viewport.width_px, 18, 1000, 19, 64),
            state_dot_size_px: ratio_px(typography.status_px, 58, 100),
            progress_height_px: scaled(viewport.width_px, 16, 10_000, 3, 6),
            artwork_shadow_offset_px: scaled(viewport.height_px, 4, 100, 36, 86),
            artwork_shadow_blur_px: scaled(viewport.height_px, 9, 100, 81, 194),
            typography,
        }
    }
}

/// The composition uses the whole width: two gutters, the two columns and
/// the gap add up to the viewport width whenever the viewport is wide
/// enough to hold the gutters and the gap.
pub proof fn lemma_gallery_fills_the_width(layout: GallerySplitLayout, viewport: Viewport)
    requires
        gallery_geometry(layout, viewport),
        viewport.width_px >= layout.outer_gutter_px * 2 + layout.column_gap_px,
    ensures
        layout.outer_gutter_px * 2 + layout.artwork_column_width_px + layout.column_gap_px
            + layout.metadata_column_width_px == viewport.width_px,
{
}

} // verus!
