use vstd::prelude::*;

use crate::double_rounding::{double_ratio_round, double_ratio_round_exec};
use crate::presentation::{
    INACTIVE_HORIZONTAL_BOUND, INACTIVE_VERTICAL_BOUND, InactivityTransform, NowPlayingPresentation,
};

verus! {

// ---------------------------------------------------------------------------
// Integer proportions
// ---------------------------------------------------------------------------

/// `value * numerator / denominator`, rounded half up, kept to its low 32 bits.
#[verifier::opaque]
pub open spec fn rounded_fraction_spec(value: int, numerator: int, denominator: int) -> int {
    ((value * numerator + denominator / 2) / denominator) % 0x1_0000_0000
}

/// `value` scaled by the decimal ratio `numerator / denominator` in double
/// precision, rounded half away from zero and saturated to the `u32` range.
#[verifier::opaque]
pub open spec fn ratio_px_spec(value: int, numerator: int, denominator: int) -> int {
    let rounded = double_ratio_round(value as nat, numerator as nat, denominator as nat) as int;
    if rounded > u32::MAX {
        u32::MAX as int
    } else {
        rounded
    }
}

pub open spec fn clamp_spec(value: int, minimum: int, maximum: int) -> int {
    if value < minimum {
        minimum
    } else if value > maximum {
        maximum
    } else {
        value
    }
}

/// An axis scaled by a ratio and clamped to `[minimum, maximum]`.
#[verifier::opaque]
pub open spec fn scaled_spec(
    axis: int,
    numerator: int,
    denominator: int,
    minimum: int,
    maximum: int,
) -> int {
    clamp_spec(ratio_px_spec(axis, numerator, denominator), minimum, maximum)
}

pub open spec fn min_spec(a: int, b: int) -> int {
    if a <= b {
        a
    } else {
        b
    }
}

pub open spec fn max_spec(a: int, b: int) -> int {
    if a >= b {
        a
    } else {
        b
    }
}

pub open spec fn saturating_sub_spec(a: int, b: int) -> int {
    if a >= b {
        a - b
    } else {
        0
    }
}

pub open spec fn saturating_mul_spec(a: int, b: int) -> int {
    if a * b > u32::MAX {
        u32::MAX as int
    } else {
        a * b
    }
}

proof fn lemma_u32_product_bound(a: u32, b: u32)
    ensures
        a as int * b as int <= 0xFFFF_FFFE_0000_0001,
{
    assert(a as int * b as int <= 0xFFFF_FFFF * 0xFFFF_FFFF) by (nonlinear_arith)
        requires
            a <= 0xFFFF_FFFF,
            b <= 0xFFFF_FFFF,
    ;
}

pub(crate) fn rounded_fraction(value: u32, numerator: u32, denominator: u32) -> (result: u32)
    requires
        denominator > 0,
    ensures
        result == rounded_fraction_spec(value as int, numerator as int, denominator as int),
        result <= (value as int * numerator as int + denominator as int / 2) / denominator as int,
{
    proof {
        lemma_u32_product_bound(value, numerator);
    }
    let product: u64 = value as u64 * numerator as u64;
    let rounded: u64 = (product + denominator as u64 / 2) / denominator as u64;
    proof {
        reveal(rounded_fraction_spec);
    }
    (rounded % 0x1_0000_0000) as u32
}

pub(crate) fn ratio_px(value: u32, numerator: u32, denominator: u32) -> (result: u32)
    requires
        1 <= numerator < 2 * denominator,
        denominator <= 100_000,
    ensures
        result == ratio_px_spec(value as int, numerator as int, denominator as int),
        result <= (value as int * numerator as int + denominator as int / 2) / denominator as int,
{
    let rounded = double_ratio_round_exec(value, numerator, denominator);
    proof {
        reveal(ratio_px_spec);
    }
    if rounded > u32::MAX as u64 {
        u32::MAX
    } else {
        rounded as u32
    }
}

pub(crate) fn scaled(
    axis_px: u32,
    numerator: u32,
    denominator: u32,
    minimum_px: u32,
    maximum_px: u32,
) -> (result: u32)
    requires
        1 <= numerator < 2 * denominator,
        denominator <= 100_000,
        minimum_px <= maximum_px,
    ensures
        result == scaled_spec(
            axis_px as int,
            numerator as int,
            denominator as int,
            minimum_px as int,
            maximum_px as int,
        ),
        minimum_px <= result <= maximum_px,
{
    let value = ratio_px(axis_px, numerator, denominator);
    proof {
        reveal(scaled_spec);
    }
    if value < minimum_px {
        minimum_px
    } else if value > maximum_px {
        maximum_px
    } else {
        value
    }
}

// ---------------------------------------------------------------------------
// Viewport and inactivity
// ---------------------------------------------------------------------------

/// A logical display area in pixels; both sides are positive.
#[derive(Clone, Copy, Debug, PartialEq, Eq, Structural)]
pub struct Viewport {
    pub width_px: u32,
    pub height_px: u32,
}

impl Viewport {
    pub fn new(width_px: u32, height_px: u32) -> (viewport: Self)
        requires
            width_px > 0,
            height_px > 0,
        ensures
            viewport.width_px == width_px,
            viewport.height_px == height_px,
    {
        Self { width_px, height_px }
    }

    /// The windowed fixture viewport, 1600 by 900 pixels.
    pub fn windowed_fixture() -> (viewport: Self)
        ensures
            viewport.width_px == 1600,
            viewport.height_px == 900,
    {
        Self::new(1600, 900)
    }
}

/// The content viewport and margins that keep a moving, inactive composition
/// inside its movement envelope.
#[derive(Clone, Copy, Debug, PartialEq, Eq, Structural)]
pub struct InactivityLayout {
    pub content_viewport: Viewport,
    pub margin_start_px: u32,
    pub margin_end_px: u32,
    pub margin_top_px: u32,
    pub margin_bottom_px: u32,
}

impl InactivityLayout {
    /// The resting transform leaves the viewport untouched. Any other transform
    /// reserves the movement envelope on every side and moves the content by
    /// its offset within it.
    pub fn for_viewport(viewport: Viewport, transform: InactivityTransform) -> (layout: Self)
        requires
            !transform.is_at_rest() ==> {
                &&& viewport.width_px > INACTIVE_HORIZONTAL_BOUND * 2
                &&& viewport.height_px > INACTIVE_VERTICAL_BOUND * 2
                &&& -INACTIVE_HORIZONTAL_BOUND <= transform.offset.x <= INACTIVE_HORIZONTAL_BOUND
                &&& -INACTIVE_VERTICAL_BOUND <= transform.offset.y <= INACTIVE_VERTICAL_BOUND
            },
        ensures
            transform.is_at_rest() ==> layout == (InactivityLayout {
                content_viewport: viewport,
                margin_start_px: 0,
                margin_end_px: 0,
                margin_top_px: 0,
                margin_bottom_px: 0,
            }),
            !transform.is_at_rest() ==> {
                &&& layout.content_viewport.width_px == viewport.width_px
                    - INACTIVE_HORIZONTAL_BOUND * 2
                &&& layout.content_viewport.height_px == viewport.height_px
                    - INACTIVE_VERTICAL_BOUND * 2
                &&& layout.margin_start_px == INACTIVE_HORIZONTAL_BOUND + transform.offset.x
                &&& layout.margin_end_px == INACTIVE_HORIZONTAL_BOUND - transform.offset.x
                &&& layout.margin_top_px == INACTIVE_VERTICAL_BOUND + transform.offset.y
                &&& layout.margin_bottom_px == INACTIVE_VERTICAL_BOUND - transform.offset.y
            },
    {
        if transform.opacity_bits == crate::presentation::FULL_OPACITY_BITS
            && transform.offset.x == 0 && transform.offset.y == 0 {
            return Self {
                content_viewport: viewport,
                margin_start_px: 0,
                margin_end_px: 0,
                margin_top_px: 0,
                margin_bottom_px: 0,
            };
        }
        let horizontal_bound: u32 = 18;
        let vertical_bound: u32 = 12;
        Self {
            content_viewport: Viewport::new(
                viewport.width_px - horizontal_bound * 2,
                viewport.height_px - vertical_bound * 2,
            ),
            margin_start_px: (INACTIVE_HORIZONTAL_BOUND + transform.offset.x) as u32,
            margin_end_px: (INACTIVE_HORIZONTAL_BOUND - transform.offset.x) as u32,
            margin_top_px: (INACTIVE_VERTICAL_BOUND + transform.offset.y) as u32,
            margin_bottom_px: (INACTIVE_VERTICAL_BOUND - transform.offset.y) as u32,
        }
    }
}


// ---------------------------------------------------------------------------
// Artwork
// ---------------------------------------------------------------------------

#[derive(Clone, Copy, Debug, PartialEq, Eq, Structural)]
pub enum NowPlayingField {
    Cohesive,
}

#[derive(Clone, Copy, Debug, PartialEq, Eq, Structural)]
pub enum ArtworkFit {
    Contain,
}

#[derive(Clone, Copy, Debug, PartialEq, Eq, Structural)]
pub enum ArtworkAlignment {
    Center,
}

#[derive(Clone, Copy, Debug, PartialEq, Eq, Structural)]
pub enum ArtworkContent {
    Supplied,
    QuietField,
}

/// Pixel dimensions of artwork or of a space reserved for it.
#[derive(Clone, Copy, Debug, PartialEq, Eq, Structural)]
pub struct ArtworkDimensions {
    pub width_px: u32,
    pub height_px: u32,
}

/// The largest dimensions of `image`'s aspect ratio inside `reservation`: the
/// constrained side fills the reservation, the other is rounded, at least one
/// pixel and never beyond the reservation.
pub open spec fn contained_within_spec(
    image: ArtworkDimensions,
    reservation: ArtworkDimensions,
) -> ArtworkDimensions {
    if image.width_px * reservation.height_px >= image.height_px * reservation.width_px {
        ArtworkDimensions {
            width_px: reservation.width_px,
            height_px: min_spec(
                max_spec(
                    rounded_fraction_spec(
                        reservation.width_px as int,
                        image.height_px as int,
                        image.width_px as int,
                    ),
                    1,
                ),
                reservation.height_px as int,
            ) as u32,
        }
    } else {
        ArtworkDimensions {
            width_px: min_spec(
                max_spec(
                    rounded_fraction_spec(
                        reservation.height_px as int,
                        image.width_px as int,
                        image.height_px as int,
                    ),
                    1,
                ),
                reservation.width_px as int,
            ) as u32,
            height_px: reservation.height_px,
        }
    }
}

/// `part` is `whole * numerator / denominator` rounded half up: the
/// rounded proportion of `whole`, stated by the inequalities that fix it.
pub open spec fn is_rounded_proportion(part: int, whole: int, numerator: int, denominator: int) -> bool {
    part * denominator <= whole * numerator + denominator / 2 < (part + 1) * denominator
}

/// Contained artwork keeps its aspect ratio: the side that constrains it
/// fills the reservation, and the other side is the proportional length,
/// rounded half up, at least one pixel, and never beyond the reservation.
pub proof fn lemma_contained_keeps_aspect_ratio(
    image: ArtworkDimensions,
    reservation: ArtworkDimensions,
)
    requires
        image.width_px > 0,
        image.height_px > 0,
        reservation.width_px > 0,
        reservation.height_px > 0,
    ensures
        image.width_px * reservation.height_px >= image.height_px * reservation.width_px ==> {
            &&& contained_within_spec(image, reservation).width_px == reservation.width_px
            &&& 1 <= contained_within_spec(image, reservation).height_px <= reservation.height_px
            &&& (is_rounded_proportion(
                contained_within_spec(image, reservation).height_px as int,
                reservation.width_px as int,
                image.height_px as int,
                image.width_px as int,
            ) || (contained_within_spec(image, reservation).height_px == 1 && is_rounded_proportion(
                0,
                reservation.width_px as int,
                image.height_px as int,
                image.width_px as int,
            )))
        },
        image.width_px * reservation.height_px < image.height_px * reservation.width_px ==> {
            &&& contained_within_spec(image, reservation).height_px == reservation.height_px
            &&& 1 <= contained_within_spec(image, reservation).width_px <= reservation.width_px
            &&& (is_rounded_proportion(
                contained_within_spec(image, reservation).width_px as int,
                reservation.height_px as int,
                image.width_px as int,
                image.height_px as int,
            ) || (contained_within_spec(image, reservation).width_px == 1 && is_rounded_proportion(
                0,
                reservation.height_px as int,
                image.width_px as int,
                image.height_px as int,
            )))
        },
{
    reveal(rounded_fraction_spec);
    let w = image.width_px as int;
    let h = image.height_px as int;
    let rw = reservation.width_px as int;
    let rh = reservation.height_px as int;
    if w * rh >= h * rw {
        lemma_rounded_proportion_within(rw, h, w, rh);
    } else {
        lemma_rounded_proportion_within(rh, w, h, rw);
    }
}

/// Rounding `whole * numerator / denominator` half up, when that proportion
/// is at most `limit`, gives a value at most `limit` that satisfies the
/// rounding inequalities.
proof fn lemma_rounded_proportion_within(whole: int, numerator: int, denominator: int, limit: int)
    requires
        whole > 0,
        numerator > 0,
        denominator > 0,
        0 < limit <= u32::MAX,
        whole * numerator <= limit * denominator,
    ensures
        (whole * numerator + denominator / 2) / denominator <= limit,
        is_rounded_proportion(
            (whole * numerator + denominator / 2) / denominator,
            whole,
            numerator,
            denominator,
        ),
        (whole * numerator + denominator / 2) / denominator % 0x1_0000_0000 == (whole * numerator
            + denominator / 2) / denominator,
{
    let total = whole * numerator + denominator / 2;
    let rounded = total / denominator;
    vstd::arithmetic::div_mod::lemma_fundamental_div_mod(total, denominator);
    assert(total < (limit + 1) * denominator) by (nonlinear_arith)
        requires
            total == whole * numerator + denominator / 2,
            whole * numerator <= limit * denominator,
            denominator / 2 < denominator,
    ;
    assert(rounded <= limit) by (nonlinear_arith)
        requires
            total == denominator * rounded + total % denominator,
            0 <= total % denominator,
            total < (limit + 1) * denominator,
            denominator > 0,
    ;
    assert(rounded >= 0) by (nonlinear_arith)
        requires
            total == denominator * rounded + total % denominator,
            total % denominator < denominator,
            total >= 0,
            denominator > 0,
    ;
    assert(rounded * denominator <= total < (rounded + 1) * denominator) by (nonlinear_arith)
        requires
            total == denominator * rounded + total % denominator,
            0 <= total % denominator < denominator,
    ;
}

impl ArtworkDimensions {
    pub fn new(width_px: u32, height_px: u32) -> (dimensions: Self)
        requires
            width_px > 0,
            height_px > 0,
        ensures
            dimensions.width_px == width_px,
            dimensions.height_px == height_px,
    {
        Self { width_px, height_px }
    }

    fn contained_within(self, reservation: Self) -> (contained: Self)
        requires
            self.width_px > 0,
            self.height_px > 0,
            reservation.width_px > 0,
            reservation.height_px > 0,
        ensures
            contained == contained_within_spec(self, reservation),
            0 < contained.width_px <= reservation.width_px,
            0 < contained.height_px <= reservation.height_px,
    {
        proof {
            lemma_u32_product_bound(self.width_px, reservation.height_px);
            lemma_u32_product_bound(self.height_px, reservation.width_px);
        }
        let width_constrained = self.width_px as u64 * reservation.height_px as u64
            >= self.height_px as u64 * reservation.width_px as u64;
        if width_constrained {
            let scaled_height = rounded_fraction(
                reservation.width_px,
                self.height_px,
                self.width_px,
            );
            let at_least_one = if scaled_height < 1 { 1 } else { scaled_height };
            let height = if at_least_one > reservation.height_px {
                reservation.height_px
            } else {
                at_least_one
            };
            Self::new(reservation.width_px, height)
        } else {
            let scaled_width = rounded_fraction(
                reservation.height_px,
                self.width_px,
                self.height_px,
            );
            let at_least_one = if scaled_width < 1 { 1 } else { scaled_width };
            let width = if at_least_one > reservation.width_px {
                reservation.width_px
            } else {
                at_least_one
            };
            Self::new(width, reservation.height_px)
        }
    }
}

#[derive(Clone, Copy, Debug, PartialEq, Eq, Structural)]
pub enum ArtworkDecoration {
    ContainedImage(ArtworkDimensions),
    QuietSquareField,
}

/// The square print plate behind the artwork and its offset.
#[derive(Clone, Copy, Debug, PartialEq, Eq, Structural)]
pub struct ArtworkPrintPlateLayout {
    pub footprint: ArtworkDimensions,
    pub offset_px: u32,
}

/// Width in pixels of the border drawn around contained artwork.
pub const ARTWORK_DECORATION_BORDER_WIDTH_PX: u32 = 1;

/// How artwork is placed in its square field.
#[derive(Clone, Copy, Debug, PartialEq, Eq, Structural)]
pub struct ArtworkLayout {
    pub content: ArtworkContent,
    pub fit: ArtworkFit,
    pub alignment: ArtworkAlignment,
    pub decoration: ArtworkDecoration,
}

impl ArtworkLayout {
    /// Supplied artwork with known dimensions is contained as an image; in
    /// every other case the field stays a quiet square.
    pub fn for_presentation(
        presentation: &NowPlayingPresentation,
        intrinsic_dimensions: Option<ArtworkDimensions>,
    ) -> (layout: Self)
        ensures
            layout.fit == ArtworkFit::Contain,
            layout.alignment == ArtworkAlignment::Center,
            (presentation.artwork_path is Some && intrinsic_dimensions is Some) ==> {
                &&& layout.content == ArtworkContent::Supplied
                &&& layout.decoration == ArtworkDecoration::ContainedImage(
                    intrinsic_dimensions.unwrap(),
                )
            },
            !(presentation.artwork_path is Some && intrinsic_dimensions is Some) ==> {
                &&& layout.content == ArtworkContent::QuietField
                &&& layout.decoration == ArtworkDecoration::QuietSquareField
            },
    {
        let (content, decoration) = match (&presentation.artwork_path, intrinsic_dimensions) {
            (Some(_), Some(dimensions)) => (
                ArtworkContent::Supplied,
                ArtworkDecoration::ContainedImage(dimensions),
            ),
            _ => (ArtworkContent::QuietField, ArtworkDecoration::QuietSquareField),
        };
        Self { content, fit: ArtworkFit::Contain, alignment: ArtworkAlignment::Center, decoration }
    }

    /// The border on both sides of contained artwork, in pixels.
    pub open spec fn border_extent_spec() -> int {
        ARTWORK_DECORATION_BORDER_WIDTH_PX * 2
    }

    /// The image area inside `reservation` once the border is taken away, for
    /// contained artwork; `None` for the quiet field.
    pub fn fitted_image(self, reservation: ArtworkDimensions) -> (image: Option<ArtworkDimensions>)
        requires
            reservation.width_px > Self::border_extent_spec(),
            reservation.height_px > Self::border_extent_spec(),
            self.decoration matches ArtworkDecoration::ContainedImage(dimensions) ==> (
            dimensions.width_px > 0 && dimensions.height_px > 0),
        ensures
            match self.decoration {
                ArtworkDecoration::ContainedImage(dimensions) => image == Some(
                    contained_within_spec(
                        dimensions,
                        ArtworkDimensions {
                            width_px: (reservation.width_px - Self::border_extent_spec()) as u32,
                            height_px: (reservation.height_px - Self::border_extent_spec()) as u32,
                        },
                    ),
                ),
                ArtworkDecoration::QuietSquareField => image is None,
            },
            image matches Some(fitted) ==> {
                &&& 0 < fitted.width_px
                &&& fitted.width_px + Self::border_extent_spec() <= reservation.width_px
                &&& 0 < fitted.height_px
                &&& fitted.height_px + Self::border_extent_spec() <= reservation.height_px
            },
    {
        let border_extent_px = self.border_extent_px();
        match (self.fit, self.decoration) {
            (ArtworkFit::Contain, ArtworkDecoration::ContainedImage(dimensions)) => {
                Some(
                    dimensions.contained_within(
                        ArtworkDimensions::new(
                            reservation.width_px - border_extent_px,
                            reservation.height_px - border_extent_px,
                        ),
                    ),
                )
            },
            (ArtworkFit::Contain, ArtworkDecoration::QuietSquareField) => None,
        }
    }

    /// The area the decorated artwork occupies: the fitted image with its
    /// border, or the whole reservation for the quiet field.
    pub fn visible_decoration(self, reservation: ArtworkDimensions) -> (visible: ArtworkDimensions)
        requires
            reservation.width_px > Self::border_extent_spec(),
            reservation.height_px > Self::border_extent_spec(),
            self.decoration matches ArtworkDecoration::ContainedImage(dimensions) ==> (
            dimensions.width_px > 0 && dimensions.height_px > 0),
        ensures
            match self.decoration {
                ArtworkDecoration::ContainedImage(dimensions) => {
                    let fitted = contained_within_spec(
                        dimensions,
                        ArtworkDimensions {
                            width_px: (reservation.width_px - Self::border_extent_spec()) as u32,
                            height_px: (reservation.height_px - Self::border_extent_spec()) as u32,
                        },
                    );
                    &&& visible.width_px == fitted.width_px + Self::border_extent_spec()
                    &&& visible.height_px == fitted.height_px + Self::border_extent_spec()
                },
                ArtworkDecoration::QuietSquareField => visible == reservation,
            },
            visible.width_px <= reservation.width_px,
            visible.height_px <= reservation.height_px,
    {
        match self.fitted_image(reservation) {
            Some(image) => {
                let border_extent_px = self.border_extent_px();
                ArtworkDimensions::new(
                    image.width_px + border_extent_px,
                    image.height_px + border_extent_px,
                )
            },
            None => reservation,
        }
    }

    fn border_extent_px(self) -> (extent: u32)
        ensures
            extent == Self::border_extent_spec(),
    {
        ARTWORK_DECORATION_BORDER_WIDTH_PX * 2
    }
}


// ---------------------------------------------------------------------------
// Identity, typography and fitting
// ---------------------------------------------------------------------------

#[derive(Clone, Copy, Debug, PartialEq, Eq, Structural)]
pub enum IdentityPlacement {
    BottomRight,
}

#[derive(Clone, Copy, Debug, PartialEq, Eq, Structural)]
pub enum TextOverflow {
    EllipsizeEnd,
}

#[derive(Clone, Copy, Debug, PartialEq, Eq, Structural)]
pub struct IdentityLineLayout {
    pub maximum_lines: u32,
    pub overflow: TextOverflow,
}

impl IdentityLineLayout {
    /// A single line, ellipsized at its end.
    pub open spec fn defensive_spec() -> IdentityLineLayout {
        IdentityLineLayout { maximum_lines: 1, overflow: TextOverflow::EllipsizeEnd }
    }

    fn defensive() -> (line: Self)
        ensures
            line == Self::defensive_spec(),
    {
        Self { maximum_lines: 1, overflow: TextOverflow::EllipsizeEnd }
    }
}

#[derive(Clone, Copy, Debug, PartialEq, Eq, Structural)]
pub enum NowPlayingRole {
    PresentationStatus,
    Title,
    Artist,
    Album,
    Progress,
    Activity,
}

/// The preferred, reduced and minimum font sizes of a metadata line.
#[derive(Clone, Copy, Debug, PartialEq, Eq, Structural)]
pub struct MetadataFontSizes {
    pub preferred_px: u32,
    pub reduced_px: u32,
    pub minimum_px: u32,
}

/// The size `fitting_font_size` selects when `fits` answered `preferred_fits`
/// for the preferred size and `reduced_fits` for the reduced size.
pub open spec fn fitting_metadata_size(
    sizes: MetadataFontSizes,
    preferred_fits: bool,
    reduced_fits: bool,
) -> u32 {
    if preferred_fits || sizes.preferred_px == sizes.minimum_px {
        sizes.preferred_px
    } else if reduced_fits || sizes.reduced_px == sizes.minimum_px {
        sizes.reduced_px
    } else {
        sizes.minimum_px
    }
}

/// `size` is what `fitting_font_size` returns when `fits` answered
/// `preferred_fits` for the preferred size and, when asked, `reduced_fits` for
/// the reduced size.
pub open spec fn metadata_fit_outcome<F: Fn(u32) -> bool>(
    sizes: MetadataFontSizes,
    fits: F,
    preferred_fits: bool,
    reduced_fits: bool,
    size: u32,
) -> bool {
    &&& fits.ensures((sizes.preferred_px,), preferred_fits)
    &&& (!(preferred_fits || sizes.preferred_px == sizes.minimum_px) ==> fits.ensures(
        (sizes.reduced_px,),
        reduced_fits,
    ))
    &&& size == fitting_metadata_size(sizes, preferred_fits, reduced_fits)
}

impl MetadataFontSizes {
    /// The first of the preferred, reduced and minimum sizes that fits; the
    /// minimum is selected whether or not it fits.
    pub fn fitting_font_size<F: Fn(u32) -> bool>(&self, fits: F) -> (size: u32)
        requires
            forall|size_px: u32| fits.requires((size_px,)),
        ensures
            exists|preferred_fits: bool, reduced_fits: bool|
                metadata_fit_outcome(*self, fits, preferred_fits, reduced_fits, size),
    {
        let preferred_fits = fits(self.preferred_px);
        if preferred_fits || self.preferred_px == self.minimum_px {
            assert(metadata_fit_outcome(*self, fits, preferred_fits, false, self.preferred_px));
            return self.preferred_px;
        }
        let reduced_fits = fits(self.reduced_px);
        if reduced_fits || self.reduced_px == self.minimum_px {
            assert(metadata_fit_outcome(
                *self,
                fits,
                preferred_fits,
                reduced_fits,
                self.reduced_px,
            ));
            return self.reduced_px;
        }
        let _ = fits(self.minimum_px);
        assert(metadata_fit_outcome(*self, fits, preferred_fits, reduced_fits, self.minimum_px));
        self.minimum_px
    }
}

/// Title, artist and album sizes and the utility type sizes of Now Playing.
#[derive(Clone, Copy, Debug, PartialEq, Eq, Structural)]
pub struct NowPlayingTypography {
    pub title: MetadataFontSizes,
    pub artist: MetadataFontSizes,
    pub album: MetadataFontSizes,
    pub time_px: u32,
    pub activity_heading_px: u32,
    pub activity_detail_px: u32,
    pub identity_px: u32,
}

/// The gaps used when metadata is fitted normally or compactly.
#[derive(Clone, Copy, Debug, PartialEq, Eq, Structural)]
pub struct MetadataFitting {
    pub normal_title_to_credit_gap_px: u32,
    pub compact_title_to_credit_gap_px: u32,
    pub normal_album_gap_px: u32,
    pub compact_album_gap_px: u32,
}

#[derive(Clone, Copy, Debug, PartialEq, Eq, Structural)]
pub enum NowPlayingFooterContent {
    DeterminateProgress,
    IndeterminateActivity,
    IdentityOnly,
}

#[derive(Clone, Copy, Debug, PartialEq, Eq, Structural)]
pub enum IdentityPhraseAlignment {
    Baseline,
}

/// The identity row: output and zone phrases with their labels.
#[derive(Clone, Copy, Debug, PartialEq, Eq, Structural)]
pub struct IdentityRowLayout {
    pub output_phrase_max_width_px: u32,
    pub zone_phrase_max_width_px: u32,
    pub phrase_gap_px: u32,
    pub label_px: u32,
    pub label_letter_spacing_px: u32,
    pub label_gap_px: u32,
    pub separator_size_px: u32,
    pub phrase_alignment: IdentityPhraseAlignment,
}

/// The separator dot diameter for a name size: five twenty-sixths of it,
/// rounded up, clamped to four to ten pixels.
pub open spec fn separator_diameter_spec(name_px: int) -> int {
    clamp_spec((name_px * 5 + 25) / 26, 4, 10)
}

impl IdentityRowLayout {
    /// Tracking for uppercase labels: four percent of the label size.
    pub fn tracked_label_letter_spacing_px(label_px: u32) -> (spacing: u32)
        ensures
            spacing == ratio_px_spec(label_px as int, 4, 100),
    {
        ratio_px(label_px, 4, 100)
    }

    pub fn separator_diameter_px(name_px: u32) -> (diameter: u32)
        requires
            name_px * 5 <= u32::MAX,
        ensures
            diameter == separator_diameter_spec(name_px as int),
            4 <= diameter <= 10,
    {
        let fifths = name_px * 5;
        let rounded_up = fifths / 26 + if fifths % 26 == 0 { 0 } else { 1 };
        assert(rounded_up == (name_px * 5 + 25) / 26);
        if rounded_up < 4 {
            4
        } else if rounded_up > 10 {
            10
        } else {
            rounded_up
        }
    }
}

#[derive(Clone, Copy, Debug, PartialEq, Eq, Structural)]
pub enum PresentationStatusDecoration {
    Circle,
    CircleFree,
}

/// The presentation status symbol and label geometry.
#[derive(Clone, Copy, Debug, PartialEq, Eq, Structural)]
pub struct PresentationStatusLayout {
    pub symbol_size_px: u32,
    pub symbol_gap_px: u32,
    pub font_px: u32,
    pub letter_spacing_px: u32,
    pub decoration: PresentationStatusDecoration,
}

/// The Now Playing status: label size from the viewport height, symbol and
/// spacing proportional to it, without a circle.
pub open spec fn now_playing_status_spec(viewport: Viewport) -> PresentationStatusLayout {
    let font_px = scaled_spec(viewport.height_px as int, 2685, 100_000, 22, 58);
    PresentationStatusLayout {
        symbol_size_px: ratio_px_spec(font_px, 142, 100) as u32,
        symbol_gap_px: ratio_px_spec(font_px, 42, 100) as u32,
        font_px: font_px as u32,
        letter_spacing_px: ratio_px_spec(font_px, 105, 1000) as u32,
        decoration: PresentationStatusDecoration::CircleFree,
    }
}

/// The full-field status: sizes from the viewport width, with a circle.
pub open spec fn full_field_status_spec(viewport: Viewport) -> PresentationStatusLayout {
    let font_px = scaled_spec(viewport.width_px as int, 22, 1000, 29, 52);
    PresentationStatusLayout {
        symbol_size_px: scaled_spec(viewport.width_px as int, 385, 10_000, 56, 96) as u32,
        symbol_gap_px: scaled_spec(viewport.width_px as int, 115, 10_000, 16, 44) as u32,
        font_px: font_px as u32,
        letter_spacing_px: ratio_px_spec(font_px, 55, 1000) as u32,
        decoration: PresentationStatusDecoration::Circle,
    }
}

impl PresentationStatusLayout {
    fn for_now_playing(viewport: Viewport) -> (layout: Self)
        ensures
            layout == now_playing_status_spec(viewport),
            22 <= layout.font_px <= 58,
            layout.symbol_size_px <= 83,
    {
        let font_px = scaled(viewport.height_px, 2685, 100_000, 22, 58);
        Self {
            symbol_size_px: ratio_px(font_px, 142, 100),
            symbol_gap_px: ratio_px(font_px, 42, 100),
            font_px,
            letter_spacing_px: ratio_px(font_px, 105, 1000),
            decoration: PresentationStatusDecoration::CircleFree,
        }
    }

    fn for_full_field(viewport: Viewport) -> (layout: Self)
        ensures
            layout == full_field_status_spec(viewport),
            56 <= layout.symbol_size_px <= 96,
    {
        let font_px = scaled(viewport.width_px, 22, 1000, 29, 52);
        Self {
            symbol_size_px: scaled(viewport.width_px, 385, 10_000, 56, 96),
            symbol_gap_px: scaled(viewport.width_px, 115, 10_000, 16, 44),
            font_px,
            letter_spacing_px: ratio_px(font_px, 55, 1000),
            decoration: PresentationStatusDecoration::Circle,
        }
    }
}


// ---------------------------------------------------------------------------
// Anchors
// ---------------------------------------------------------------------------

/// Vertical anchors derived from the artwork field.
#[derive(Clone, Copy, Debug, PartialEq, Eq, Structural)]
pub struct ArtworkFieldAnchors {
    pub artwork_top_viewport_y_px: u32,
    pub artwork_bottom_viewport_y_px: u32,
    pub information_rail_inset_px: u32,
    pub presentation_status_top_viewport_y_px: u32,
    pub information_rail_bottom_viewport_y_px: u32,
}

/// The anchors of an artwork field at `top` with height `height`: the
/// information rail is inset by 1.3% of the viewport height at both ends.
pub open spec fn artwork_field_anchors_spec(
    viewport: Viewport,
    top: int,
    height: int,
) -> ArtworkFieldAnchors {
    let inset = rounded_fraction_spec(viewport.height_px as int, 13, 1000);
    ArtworkFieldAnchors {
        artwork_top_viewport_y_px: top as u32,
        artwork_bottom_viewport_y_px: (top + height) as u32,
        information_rail_inset_px: inset as u32,
        presentation_status_top_viewport_y_px: (top + inset) as u32,
        information_rail_bottom_viewport_y_px: (top + height - inset) as u32,
    }
}

impl ArtworkFieldAnchors {
    fn for_artwork_field(
        viewport: Viewport,
        artwork_top_viewport_y_px: u32,
        artwork_field_height_px: u32,
    ) -> (anchors: Self)
        requires
            artwork_top_viewport_y_px + artwork_field_height_px <= u32::MAX,
            artwork_top_viewport_y_px + rounded_fraction_spec(viewport.height_px as int, 13, 1000)
                <= u32::MAX,
            artwork_top_viewport_y_px + artwork_field_height_px >= rounded_fraction_spec(
                viewport.height_px as int,
                13,
                1000,
            ),
        ensures
            anchors == artwork_field_anchors_spec(
                viewport,
                artwork_top_viewport_y_px as int,
                artwork_field_height_px as int,
            ),
    {
        let artwork_bottom_viewport_y_px = artwork_top_viewport_y_px + artwork_field_height_px;
        let information_rail_inset_px = rounded_fraction(viewport.height_px, 13, 1_000);
        Self {
            artwork_top_viewport_y_px,
            artwork_bottom_viewport_y_px,
            information_rail_inset_px,
            presentation_status_top_viewport_y_px: artwork_top_viewport_y_px
                + information_rail_inset_px,
            information_rail_bottom_viewport_y_px: artwork_bottom_viewport_y_px
                - information_rail_inset_px,
        }
    }

    /// The status top margin inside a container starting at
    /// `container_top_viewport_y_px`.
    pub fn presentation_status_margin_top_px(self, container_top_viewport_y_px: u32) -> (margin:
        u32)
        ensures
            margin == saturating_sub_spec(
                self.presentation_status_top_viewport_y_px as int,
                container_top_viewport_y_px as int,
            ),
    {
        if self.presentation_status_top_viewport_y_px >= container_top_viewport_y_px {
            self.presentation_status_top_viewport_y_px - container_top_viewport_y_px
        } else {
            0
        }
    }
}

/// A bottom anchor in viewport coordinates.
#[derive(Clone, Copy, Debug, PartialEq, Eq, Structural)]
pub struct BottomAnchor {
    pub bottom_viewport_y_px: u32,
    pub viewport_height_px: u32,
}

impl BottomAnchor {
    /// The height of the viewport the anchor was placed in.
    pub open spec fn viewport_height_spec(self) -> u32 {
        self.viewport_height_px
    }

    /// The anchor's bottom in viewport coordinates.
    pub open spec fn bottom_spec(self) -> u32 {
        self.bottom_viewport_y_px
    }

    /// The anchor with the given bottom in a viewport of the given height.
    pub open spec fn placed(bottom_viewport_y_px: int, viewport_height_px: int) -> BottomAnchor {
        BottomAnchor {
            bottom_viewport_y_px: bottom_viewport_y_px as u32,
            viewport_height_px: viewport_height_px as u32,
        }
    }

    /// The Now Playing footer sits on the information rail, raised optically.
    pub open spec fn now_playing_spec(
        viewport: Viewport,
        anchors: ArtworkFieldAnchors,
        footer_optical_raise_px: int,
    ) -> (int, int) {
        (
            saturating_sub_spec(
                anchors.information_rail_bottom_viewport_y_px as int,
                footer_optical_raise_px,
            ),
            viewport.height_px as int,
        )
    }

    fn for_now_playing(
        viewport: Viewport,
        anchors: ArtworkFieldAnchors,
        footer_optical_raise_px: u32,
    ) -> (anchor: Self)
        ensures
            anchor == Self::placed(
                Self::now_playing_spec(viewport, anchors, footer_optical_raise_px as int).0,
                Self::now_playing_spec(viewport, anchors, footer_optical_raise_px as int).1,
            ),
    {
        Self {
            bottom_viewport_y_px: if anchors.information_rail_bottom_viewport_y_px
                >= footer_optical_raise_px {
                anchors.information_rail_bottom_viewport_y_px - footer_optical_raise_px
            } else {
                0
            },
            viewport_height_px: viewport.height_px,
        }
    }

    /// The established inset of full-field identity above the artwork bottom.
    pub open spec fn full_field_inset_spec(viewport: Viewport) -> int {
        scaled_spec(viewport.height_px as int, 18, 1000, 16, 44)
    }

    fn for_full_field(viewport: Viewport, anchors: ArtworkFieldAnchors) -> (anchor: Self)
        requires
            anchors.artwork_bottom_viewport_y_px >= Self::full_field_inset_spec(viewport),
        ensures
            anchor == Self::placed(
                anchors.artwork_bottom_viewport_y_px - Self::full_field_inset_spec(viewport),
                viewport.height_px as int,
            ),
    {
        let established_inset_px = scaled(viewport.height_px, 18, 1000, 16, 44);
        Self {
            bottom_viewport_y_px: anchors.artwork_bottom_viewport_y_px - established_inset_px,
            viewport_height_px: viewport.height_px,
        }
    }

    /// The bottom margin that places content on this anchor inside a
    /// container whose bottom is `container_bottom_viewport_inset_px` above the
    /// viewport bottom.
    pub fn margin_bottom_px(self, container_bottom_viewport_inset_px: u32) -> (margin: u32)
        ensures
            margin == saturating_sub_spec(
                saturating_sub_spec(
                    self.viewport_height_spec() as int,
                    container_bottom_viewport_inset_px as int,
                ),
                self.bottom_spec() as int,
            ),
    {
        let container_bottom = if self.viewport_height_px >= container_bottom_viewport_inset_px {
            self.viewport_height_px - container_bottom_viewport_inset_px
        } else {
            0
        };
        if container_bottom >= self.bottom_viewport_y_px {
            container_bottom - self.bottom_viewport_y_px
        } else {
            0
        }
    }
}

// ---------------------------------------------------------------------------
// Full field
// ---------------------------------------------------------------------------

#[derive(Clone, Copy, Debug, PartialEq, Eq, Structural)]
pub struct FullFieldLineLayout {
    pub maximum_lines: u32,
    pub wrap: bool,
    pub overflow: TextOverflow,
}

impl FullFieldLineLayout {
    /// One unwrapped line, ellipsized at its end.
    pub open spec fn complete_spec() -> FullFieldLineLayout {
        FullFieldLineLayout { maximum_lines: 1, wrap: false, overflow: TextOverflow::EllipsizeEnd }
    }

    fn complete() -> (line: Self)
        ensures
            line == Self::complete_spec(),
    {
        Self { maximum_lines: 1, wrap: false, overflow: TextOverflow::EllipsizeEnd }
    }
}

/// A full-field font size that shrinks one pixel at a time until it fits.
#[derive(Clone, Copy, Debug, PartialEq, Eq, Structural)]
pub struct FullFieldFontSize {
    pub preferred_px: u32,
}

impl FullFieldFontSize {
    /// The largest size from the preferred size down to one pixel for which
    /// `fits` answers true; one pixel when none does.
    pub fn fitting_font_size<F: Fn(u32) -> bool>(self, fits: F) -> (size: u32)
        requires
            forall|size_px: u32| fits.requires((size_px,)),
        ensures
            1 <= size,
            self.preferred_px >= 1 ==> size <= self.preferred_px,
            self.preferred_px == 0 ==> size == 1,
            size > 1 ==> fits.ensures((size,), true),
            forall|larger: u32| size < larger <= self.preferred_px ==> fits.ensures(
                (larger,),
                false,
            ),
    {
        let mut candidate = self.preferred_px;
        while candidate >= 1
            invariant
                candidate <= self.preferred_px,
                forall|size_px: u32| fits.requires((size_px,)),
                forall|larger: u32| candidate < larger <= self.preferred_px ==> fits.ensures(
                    (larger,),
                    false,
                ),
            decreases candidate,
        {
            if fits(candidate) {
                return candidate;
            }
            candidate = candidate - 1;
        }
        1
    }
}

/// A vertical slot in viewport coordinates.
#[derive(Clone, Copy, Debug, PartialEq, Eq, Structural)]
pub struct FullFieldSlot {
    pub top_viewport_y_px: u32,
    pub height_px: u32,
}

impl FullFieldSlot {
    pub fn bottom_viewport_y_px(self) -> (bottom: u32)
        requires
            self.top_viewport_y_px + self.height_px <= u32::MAX,
        ensures
            bottom == self.top_viewport_y_px + self.height_px,
    {
        self.top_viewport_y_px + self.height_px
    }
}


// ---------------------------------------------------------------------------
// Now Playing
// ---------------------------------------------------------------------------

/// Where the information column starts and how wide its parts are.
#[derive(Clone, Copy, Debug, PartialEq, Eq, Structural)]
pub struct NowPlayingInformationLayout {
    pub left_viewport_x_px: u32,
    pub utility_width_px: u32,
    pub musical_metadata_width_px: u32,
}

pub open spec fn np_outer_gutter(v: Viewport) -> int {
    scaled_spec(v.width_px as int, 425, 10_000, 32, 160)
}

pub open spec fn np_column_gap(v: Viewport) -> int {
    scaled_spec(v.width_px as int, 42, 1000, 40, 192)
}

/// The width left for artwork and information once gutters and gap are taken.
pub open spec fn np_content_width(v: Viewport) -> int {
    saturating_sub_spec(
        saturating_sub_spec(v.width_px as int, saturating_mul_spec(np_outer_gutter(v), 2)),
        np_column_gap(v),
    )
}

/// The square artwork side: 84% of the height, at most 56% of the width.
pub open spec fn np_artwork_size(v: Viewport) -> int {
    min_spec(
        rounded_fraction_spec(v.height_px as int, 84, 100),
        rounded_fraction_spec(v.width_px as int, 56, 100),
    )
}

pub open spec fn np_artwork_top(v: Viewport) -> int {
    saturating_sub_spec(v.height_px as int, np_artwork_size(v)) / 2
}

pub open spec fn np_anchors(v: Viewport) -> ArtworkFieldAnchors {
    artwork_field_anchors_spec(v, np_artwork_top(v), np_artwork_size(v))
}

pub open spec fn np_footer_optical_raise(v: Viewport) -> int {
    rounded_fraction_spec(v.height_px as int, 48, 1000)
}

pub open spec fn np_information(v: Viewport) -> NowPlayingInformationLayout {
    let utility = np_content_width(v) - np_artwork_size(v);
    NowPlayingInformationLayout {
        left_viewport_x_px: (np_outer_gutter(v) + np_artwork_size(v) + np_column_gap(v)) as u32,
        utility_width_px: utility as u32,
        musical_metadata_width_px: min_spec(
            utility,
            rounded_fraction_spec(v.height_px as int, 72, 100),
        ) as u32,
    }
}

pub open spec fn np_typography(v: Viewport) -> NowPlayingTypography {
    let h = v.height_px as int;
    let w = v.width_px as int;
    NowPlayingTypography {
        title: MetadataFontSizes {
            preferred_px: scaled_spec(h, 815, 10_000, 88, 180) as u32,
            reduced_px: min_spec(
                scaled_spec(h, 7, 100, 68, 154),
                scaled_spec(w, 4, 100, 68, 154),
            ) as u32,
            minimum_px: min_spec(
                scaled_spec(h, 58, 1000, 54, 128),
                scaled_spec(w, 34, 1000, 54, 128),
            ) as u32,
        },
        artist: MetadataFontSizes {
            preferred_px: scaled_spec(h, 32, 1000, 26, 68) as u32,
            reduced_px: scaled_spec(h, 26, 1000, 22, 56) as u32,
            minimum_px: scaled_spec(h, 22, 1000, 20, 48) as u32,
        },
        album: MetadataFontSizes {
            preferred_px: scaled_spec(h, 26, 1000, 22, 56) as u32,
            reduced_px: scaled_spec(h, 22, 1000, 19, 48) as u32,
            minimum_px: scaled_spec(h, 19, 1000, 18, 42) as u32,
        },
        time_px: scaled_spec(h, 259, 10_000, 22, 56) as u32,
        activity_heading_px: scaled_spec(h, 259, 10_000, 22, 56) as u32,
        activity_detail_px: scaled_spec(h, 259, 10_000, 21, 56) as u32,
        identity_px: min_spec(scaled_spec(h, 241, 10_000, 22, 52), scaled_spec(w, 14, 1000, 22, 52))
            as u32,
    }
}

pub open spec fn np_identity_row(v: Viewport) -> IdentityRowLayout {
    let identity_px = np_typography(v).identity_px as int;
    let phrase_gap = ratio_px_spec(identity_px, 11, 10);
    let label = ratio_px_spec(identity_px, 885, 1000);
    let separator = separator_diameter_spec(identity_px);
    let phrase_width = saturating_sub_spec(
        np_information(v).utility_width_px as int,
        phrase_gap * 2 + separator,
    );
    let output_max = rounded_fraction_spec(phrase_width, 57, 100);
    IdentityRowLayout {
        output_phrase_max_width_px: output_max as u32,
        zone_phrase_max_width_px: saturating_sub_spec(phrase_width, output_max) as u32,
        phrase_gap_px: phrase_gap as u32,
        label_px: label as u32,
        label_letter_spacing_px: ratio_px_spec(label, 4, 100) as u32,
        label_gap_px: ratio_px_spec(identity_px, 42, 100) as u32,
        separator_size_px: separator as u32,
        phrase_alignment: IdentityPhraseAlignment::Baseline,
    }
}

pub open spec fn np_metadata_fitting(v: Viewport) -> MetadataFitting {
    let h = v.height_px as int;
    MetadataFitting {
        normal_title_to_credit_gap_px: scaled_spec(h, 185, 10_000, 22, 40) as u32,
        compact_title_to_credit_gap_px: scaled_spec(h, 14, 1000, 14, 28) as u32,
        normal_album_gap_px: ratio_px_spec(np_typography(v).album.preferred_px as int, 38, 100)
            as u32,
        compact_album_gap_px: ratio_px_spec(np_typography(v).album.minimum_px as int, 38, 100)
            as u32,
    }
}

/// The viewports Now Playing is laid out for: the artwork square fits the
/// content width and every anchor stays inside the `u32` range.
pub open spec fn now_playing_viewport_supported(v: Viewport) -> bool {
    &&& np_artwork_size(v) <= np_content_width(v)
    &&& np_anchors(v).presentation_status_top_viewport_y_px as int
        + now_playing_status_spec(v).symbol_size_px <= u32::MAX
}

/// Every field of `layout` that depends on the viewport alone.
pub open spec fn now_playing_geometry(layout: NowPlayingLayout, v: Viewport) -> bool {
    let h = v.height_px as int;
    let w = v.width_px as int;
    let size = np_artwork_size(v);
    let typography = np_typography(v);
    &&& layout.field == NowPlayingField::Cohesive
    &&& layout.outer_gutter_px == np_outer_gutter(v)
    &&& layout.column_gap_px == np_column_gap(v)
    &&& layout.artwork_column_width_px == size
    &&& layout.artwork_field_width_px == size
    &&& layout.artwork_field_height_px == size
    &&& layout.artwork_print_plate == (ArtworkPrintPlateLayout {
        footprint: ArtworkDimensions { width_px: size as u32, height_px: size as u32 },
        offset_px: scaled_spec(h, 45, 10_000, 6, 12) as u32,
    })
    &&& layout.identity_placement == IdentityPlacement::BottomRight
    &&& layout.identity_line == IdentityLineLayout::defensive_spec()
    &&& layout.information == np_information(v)
    &&& layout.artwork_field_anchors == np_anchors(v)
    &&& layout.footer_anchor == BottomAnchor::placed(
        BottomAnchor::now_playing_spec(v, np_anchors(v), np_footer_optical_raise(v)).0,
        h,
    )
    &&& layout.artist_spacing_px == np_metadata_fitting(v).normal_title_to_credit_gap_px
    &&& layout.album_spacing_px == np_metadata_fitting(v).normal_album_gap_px
    &&& layout.time_spacing_px == ratio_px_spec(typography.time_px as int, 58, 100)
    &&& layout.footer_gap_px == scaled_spec(h, 185, 10_000, 18, 40)
    &&& layout.footer_optical_raise_px == np_footer_optical_raise(v)
    &&& layout.identity_row == np_identity_row(v)
    &&& layout.presentation_status == now_playing_status_spec(v)
    &&& layout.progress_height_px == scaled_spec(w, 2, 1000, 3, 5)
    &&& layout.activity_waveform_width_px == scaled_spec(w, 58, 1000, 74, 180)
    &&& layout.activity_waveform_height_px == scaled_spec(h, 65, 1000, 46, 96)
    &&& layout.activity_copy_gap_px == scaled_spec(w, 12, 1000, 15, 42)
    &&& layout.artwork_shadow_offset_px == scaled_spec(h, 85, 10_000, 6, 20)
    &&& layout.artwork_shadow_blur_px == scaled_spec(h, 17, 1000, 12, 41)
    &&& layout.typography == typography
    &&& layout.metadata_fitting == np_metadata_fitting(v)
    &&& layout.metadata_optical_correction_px == scaled_spec(h, 4, 1000, 3, 10)
}

/// The height of the two-line activity copy.
pub open spec fn activity_copy_height_spec(typography: NowPlayingTypography) -> int {
    rounded_fraction_spec(typography.activity_heading_px as int, 5, 4) + rounded_fraction_spec(
        typography.activity_detail_px as int,
        5,
        4,
    )
}

/// The footer height for the layout's footer content: content, gap and the
/// identity line.
pub open spec fn footer_height_spec(layout: NowPlayingLayout) -> int {
    let identity_height = rounded_fraction_spec(layout.typography.identity_px as int, 5, 4);
    let content_height = match layout.footer_content {
        NowPlayingFooterContent::DeterminateProgress => layout.progress_height_px
            + layout.time_spacing_px + rounded_fraction_spec(layout.typography.time_px as int, 5, 4),
        NowPlayingFooterContent::IndeterminateActivity => max_spec(
            layout.activity_waveform_height_px as int,
            activity_copy_height_spec(layout.typography),
        ),
        NowPlayingFooterContent::IdentityOnly => 0,
    };
    let gap = if layout.footer_content == NowPlayingFooterContent::IdentityOnly {
        0
    } else {
        layout.footer_gap_px as int
    };
    content_height + gap + identity_height
}

/// The metadata region lies between the status and the footer; its budget is
/// that span less the status label allowance and the optical correction.
pub open spec fn metadata_budget_consistent(layout: NowPlayingLayout) -> bool {
    let status_bottom = layout.artwork_field_anchors.presentation_status_top_viewport_y_px
        + layout.presentation_status.symbol_size_px;
    let footer_top = saturating_sub_spec(
        layout.footer_anchor.bottom_spec() as int,
        layout.footer_height_px as int,
    );
    &&& layout.footer_height_px == footer_height_spec(layout)
    &&& layout.metadata_region_top_viewport_y_px == status_bottom
    &&& layout.metadata_region_bottom_viewport_y_px == footer_top
    &&& layout.metadata_height_budget_px == saturating_sub_spec(
        saturating_sub_spec(
            saturating_sub_spec(footer_top, status_bottom),
            saturating_mul_spec(layout.presentation_status.font_px as int, 2),
        ),
        saturating_mul_spec(layout.metadata_optical_correction_px as int, 2),
    )
}

/// The metadata roles shown for a presentation, in order.
pub open spec fn metadata_roles_spec(presentation: NowPlayingPresentation) -> Seq<NowPlayingRole> {
    seq![NowPlayingRole::PresentationStatus] + (if presentation.title is Some {
        seq![NowPlayingRole::Title]
    } else {
        seq![]
    }) + (if presentation.artist is Some {
        seq![NowPlayingRole::Artist]
    } else {
        seq![]
    }) + (if presentation.album is Some {
        seq![NowPlayingRole::Album]
    } else {
        seq![]
    }) + (if presentation.progress is Some {
        seq![NowPlayingRole::Progress]
    } else {
        seq![]
    }) + (if presentation.activity is Some {
        seq![NowPlayingRole::Activity]
    } else {
        seq![]
    })
}

/// Progress wins over activity; without either, the footer holds identity.
pub open spec fn footer_content_spec(presentation: NowPlayingPresentation) -> NowPlayingFooterContent {
    if presentation.progress is Some {
        NowPlayingFooterContent::DeterminateProgress
    } else if presentation.activity is Some {
        NowPlayingFooterContent::IndeterminateActivity
    } else {
        NowPlayingFooterContent::IdentityOnly
    }
}

/// The complete Now Playing composition.
#[derive(Clone, Debug, PartialEq, Eq)]
pub struct NowPlayingLayout {
    pub field: NowPlayingField,
    pub outer_gutter_px: u32,
    pub column_gap_px: u32,
    pub artwork_column_width_px: u32,
    pub artwork_field_width_px: u32,
    pub artwork_field_height_px: u32,
    pub artwork_print_plate: ArtworkPrintPlateLayout,
    pub identity_placement: IdentityPlacement,
    pub identity_line: IdentityLineLayout,
    pub metadata_roles: Vec<NowPlayingRole>,
    pub information: NowPlayingInformationLayout,
    pub artwork_field_anchors: ArtworkFieldAnchors,
    pub footer_anchor: BottomAnchor,
    pub artist_spacing_px: u32,
    pub album_spacing_px: u32,
    pub time_spacing_px: u32,
    pub footer_content: NowPlayingFooterContent,
    pub footer_gap_px: u32,
    pub footer_optical_raise_px: u32,
    pub footer_height_px: u32,
    pub identity_row: IdentityRowLayout,
    pub presentation_status: PresentationStatusLayout,
    pub progress_height_px: u32,
    pub activity_waveform_width_px: u32,
    pub activity_waveform_height_px: u32,
    pub activity_copy_gap_px: u32,
    pub artwork_shadow_offset_px: u32,
    pub artwork_shadow_blur_px: u32,
    pub typography: NowPlayingTypography,
    pub metadata_fitting: MetadataFitting,
    pub metadata_optical_correction_px: u32,
    pub metadata_height_budget_px: u32,
    pub metadata_region_top_viewport_y_px: u32,
    pub metadata_region_bottom_viewport_y_px: u32,
}


fn saturating_double(value: u32) -> (doubled: u32)
    ensures
        doubled == saturating_mul_spec(value as int, 2),
{
    if value > u32::MAX / 2 {
        u32::MAX
    } else {
        value * 2
    }
}

proof fn lemma_rounded_fraction_at_most(value: u32, numerator: u32, denominator: u32)
    requires
        0 < numerator <= denominator,
    ensures
        rounded_fraction_spec(value as int, numerator as int, denominator as int) == (value
            * numerator + denominator / 2) / denominator as int,
        rounded_fraction_spec(value as int, numerator as int, denominator as int) <= value,
        value >= 1 && numerator * 2 >= denominator ==> rounded_fraction_spec(
            value as int,
            numerator as int,
            denominator as int,
        ) >= 1,
{
    reveal(rounded_fraction_spec);
    let n = numerator as int;
    let d = denominator as int;
    let x = value as int;
    assert(x * n <= x * d) by (nonlinear_arith)
        requires
            0 <= x,
            n <= d,
    ;
    assert((x * n + d / 2) / d <= x) by (nonlinear_arith)
        requires
            x * n <= x * d,
            d > 0,
            x >= 0,
    ;
    assert((x * n + d / 2) / d >= 0) by (nonlinear_arith)
        requires
            x * n >= 0,
            d > 0,
    ;
    if x >= 1 && n * 2 >= d {
        assert(x * n + d / 2 >= d) by (nonlinear_arith)
            requires
                x >= 1,
                n * 2 >= d,
                n > 0,
                d > 0,
        ;
        assert((x * n + d / 2) / d >= 1) by (nonlinear_arith)
            requires
                x * n + d / 2 >= d,
                d > 0,
        ;
    }
}

proof fn lemma_now_playing_anchor_bounds(v: Viewport)
    requires
        v.width_px > 0,
        v.height_px > 0,
    ensures
        1 <= np_artwork_size(v) <= v.height_px,
        np_artwork_top(v) + np_artwork_size(v) <= v.height_px,
        np_artwork_top(v) + rounded_fraction_spec(v.height_px as int, 13, 1000) <= v.height_px,
        np_artwork_top(v) + np_artwork_size(v) >= rounded_fraction_spec(
            v.height_px as int,
            13,
            1000,
        ),
{
    lemma_rounded_fraction_at_most(v.height_px, 84, 100);
    lemma_rounded_fraction_at_most(v.width_px, 56, 100);
    lemma_rounded_fraction_at_most(v.height_px, 13, 1000);
    let h = v.height_px as int;
    let inset = rounded_fraction_spec(h, 13, 1000);
    reveal(rounded_fraction_spec);
    assert(inset * 2 <= h) by (nonlinear_arith)
        requires
            inset == (h * 13 + 500) / 1000,
            h >= 1,
    ;
}

/// The footer and status sizes stay small enough that the metadata budget
/// can be computed without overflow.
pub open spec fn footer_sizes_bounded(layout: NowPlayingLayout) -> bool {
    &&& layout.typography.identity_px <= 52
    &&& layout.typography.time_px <= 56
    &&& layout.typography.activity_heading_px <= 56
    &&& layout.typography.activity_detail_px <= 56
    &&& layout.progress_height_px <= 5
    &&& layout.time_spacing_px <= 33
    &&& layout.activity_waveform_height_px <= 96
    &&& layout.footer_gap_px <= 40
    &&& layout.artwork_field_anchors.presentation_status_top_viewport_y_px as int
        + layout.presentation_status.symbol_size_px <= u32::MAX
}

impl NowPlayingLayout {
    /// The viewport composition with the roles and footer of `presentation`.
    /// Nothing else of the presentation (its texts, identity or artwork)
    /// moves or resizes the composition.
    pub fn for_presentation(presentation: &NowPlayingPresentation, viewport: Viewport) -> (layout:
        Self)
        requires
            viewport.width_px > 0,
            viewport.height_px > 0,
            now_playing_viewport_supported(viewport),
        ensures
            now_playing_geometry(layout, viewport),
            layout.metadata_roles@ == metadata_roles_spec(*presentation),
            layout.footer_content == footer_content_spec(*presentation),
            metadata_budget_consistent(layout),
    {
        let mut layout = Self::for_viewport(viewport);
        layout.metadata_roles = metadata_roles(presentation);
        layout.footer_content = if presentation.progress.is_some() {
            NowPlayingFooterContent::DeterminateProgress
        } else if presentation.activity.is_some() {
            NowPlayingFooterContent::IndeterminateActivity
        } else {
            NowPlayingFooterContent::IdentityOnly
        };
        layout.refresh_metadata_height_budget();
        layout
    }

    /// Album follows the artist with the album gap, or the title with the
    /// credit gap when there is no artist.
    pub fn spacing_before_album_px(&self, artist_is_present: bool) -> (spacing: u32)
        ensures
            spacing == if artist_is_present {
                self.album_spacing_px
            } else {
                self.artist_spacing_px
            },
    {
        if artist_is_present {
            self.album_spacing_px
        } else {
            self.artist_spacing_px
        }
    }

    /// The composition for a viewport, before any presentation is known: no
    /// metadata roles and an identity-only footer.
    pub fn for_viewport(viewport: Viewport) -> (layout: Self)
        requires
            viewport.width_px > 0,
            viewport.height_px > 0,
            now_playing_viewport_supported(viewport),
        ensures
            now_playing_geometry(layout, viewport),
            layout.metadata_roles@ == Seq::<NowPlayingRole>::empty(),
            layout.footer_content == NowPlayingFooterContent::IdentityOnly,
            metadata_budget_consistent(layout),
            footer_sizes_bounded(layout),
    {
        proof {
            lemma_now_playing_anchor_bounds(viewport);
        }
        let outer_gutter_px = scaled(viewport.width_px, 425, 10_000, 32, 160);
        let column_gap_px = scaled(viewport.width_px, 42, 1000, 40, 192);
        let content_width_px = viewport.width_px.saturating_sub(
            saturating_double(outer_gutter_px),
        ).saturating_sub(column_gap_px);
        let height_share = rounded_fraction(viewport.height_px, 84, 100);
        let width_share = rounded_fraction(viewport.width_px, 56, 100);
        let artwork_field_size_px = if height_share <= width_share {
            height_share
        } else {
            width_share
        };
        let artwork_column_width_px = artwork_field_size_px;
        let utility_width_px = content_width_px - artwork_column_width_px;
        let musical_share = rounded_fraction(viewport.height_px, 72, 100);
        let information = NowPlayingInformationLayout {
            left_viewport_x_px: outer_gutter_px + artwork_column_width_px + column_gap_px,
            utility_width_px,
            musical_metadata_width_px: if utility_width_px <= musical_share {
                utility_width_px
            } else {
                musical_share
            },
        };
        let artwork_shadow_offset_px = scaled(viewport.height_px, 85, 10_000, 6, 20);
        let artwork_shadow_blur_px = scaled(viewport.height_px, 17, 1000, 12, 41);
        let artwork_top_viewport_y_px = viewport.height_px.saturating_sub(artwork_field_size_px)
            / 2;
        let artwork_field_anchors = ArtworkFieldAnchors::for_artwork_field(
            viewport,
            artwork_top_viewport_y_px,
            artwork_field_size_px,
        );
        let footer_optical_raise_px = rounded_fraction(viewport.height_px, 48, 1_000);
        let footer_anchor = BottomAnchor::for_now_playing(
            viewport,
            artwork_field_anchors,
            footer_optical_raise_px,
        );
        let title_reduced_by_height = scaled(viewport.height_px, 7, 100, 68, 154);
        let title_reduced_by_width = scaled(viewport.width_px, 4, 100, 68, 154);
        let title_minimum_by_height = scaled(viewport.height_px, 58, 1000, 54, 128);
        let title_minimum_by_width = scaled(viewport.width_px, 34, 1000, 54, 128);
        let identity_by_height = scaled(viewport.height_px, 241, 10_000, 22, 52);
        let identity_by_width = scaled(viewport.width_px, 14, 1000, 22, 52);
        let typography = NowPlayingTypography {
            title: MetadataFontSizes {
                preferred_px: scaled(viewport.height_px, 815, 10_000, 88, 180),
                reduced_px: if title_reduced_by_height <= title_reduced_by_width {
                    title_reduced_by_height
                } else {
                    title_reduced_by_width
                },
                minimum_px: if title_minimum_by_height <= title_minimum_by_width {
                    title_minimum_by_height
                } else {
                    title_minimum_by_width
                },
            },
            artist: MetadataFontSizes {
                preferred_px: scaled(viewport.height_px, 32, 1000, 26, 68),
                reduced_px: scaled(viewport.height_px, 26, 1000, 22, 56),
                minimum_px: scaled(viewport.height_px, 22, 1000, 20, 48),
            },
            album: MetadataFontSizes {
                preferred_px: scaled(viewport.height_px, 26, 1000, 22, 56),
                reduced_px: scaled(viewport.height_px, 22, 1000, 19, 48),
                minimum_px: scaled(viewport.height_px, 19, 1000, 18, 42),
            },
            time_px: scaled(viewport.height_px, 259, 10_000, 22, 56),
            activity_heading_px: scaled(viewport.height_px, 259, 10_000, 22, 56),
            activity_detail_px: scaled(viewport.height_px, 259, 10_000, 21, 56),
            identity_px: if identity_by_height <= identity_by_width {
                identity_by_height
            } else {
                identity_by_width
            },
        };
        let identity_phrase_gap_px = ratio_px(typography.identity_px, 11, 10);
        let identity_label_px = ratio_px(typography.identity_px, 885, 1000);
        let identity_separator_size_px = IdentityRowLayout::separator_diameter_px(
            typography.identity_px,
        );
        let identity_fixed_width_px = identity_phrase_gap_px * 2 + identity_separator_size_px;
        let identity_phrase_width_px = information.utility_width_px.saturating_sub(
            identity_fixed_width_px,
        );
        let output_phrase_max_width_px = rounded_fraction(identity_phrase_width_px, 57, 100);
        let identity_row = IdentityRowLayout {
            output_phrase_max_width_px,
            zone_phrase_max_width_px: identity_phrase_width_px.saturating_sub(
                output_phrase_max_width_px,
            ),
            phrase_gap_px: identity_phrase_gap_px,
            label_px: identity_label_px,
            label_letter_spacing_px: IdentityRowLayout::tracked_label_letter_spacing_px(
                identity_label_px,
            ),
            label_gap_px: ratio_px(typography.identity_px, 42, 100),
            separator_size_px: identity_separator_size_px,
            phrase_alignment: IdentityPhraseAlignment::Baseline,
        };
        let metadata_fitting = MetadataFitting {
            normal_title_to_credit_gap_px: scaled(viewport.height_px, 185, 10_000, 22, 40),
            compact_title_to_credit_gap_px: scaled(viewport.height_px, 14, 1000, 14, 28),
            normal_album_gap_px: ratio_px(typography.album.preferred_px, 38, 100),
            compact_album_gap_px: ratio_px(typography.album.minimum_px, 38, 100),
        };
        let mut layout = Self {
            field: NowPlayingField::Cohesive,
            outer_gutter_px,
            column_gap_px,
            artwork_column_width_px,
            artwork_field_width_px: artwork_field_size_px,
            artwork_field_height_px: artwork_field_size_px,
            artwork_print_plate: ArtworkPrintPlateLayout {
                footprint: ArtworkDimensions::new(artwork_field_size_px, artwork_field_size_px),
                offset_px: scaled(viewport.height_px, 45, 10_000, 6, 12),
            },
            identity_placement: IdentityPlacement::BottomRight,
            identity_line: IdentityLineLayout::defensive(),
            metadata_roles: Vec::new(),
            information,
            artwork_field_anchors,
            footer_anchor,
            artist_spacing_px: metadata_fitting.normal_title_to_credit_gap_px,
            album_spacing_px: metadata_fitting.normal_album_gap_px,
            time_spacing_px: ratio_px(typography.time_px, 58, 100),
            footer_content: NowPlayingFooterContent::IdentityOnly,
            footer_gap_px: scaled(viewport.height_px, 185, 10_000, 18, 40),
            footer_optical_raise_px,
            footer_height_px: 0,
            identity_row,
            presentation_status: PresentationStatusLayout::for_now_playing(viewport),
            progress_height_px: scaled(viewport.width_px, 2, 1000, 3, 5),
            activity_waveform_width_px: scaled(viewport.width_px, 58, 1000, 74, 180),
            activity_waveform_height_px: scaled(viewport.height_px, 65, 1000, 46, 96),
            activity_copy_gap_px: scaled(viewport.width_px, 12, 1000, 15, 42),
            artwork_shadow_offset_px,
            artwork_shadow_blur_px,
            typography,
            metadata_fitting,
            metadata_optical_correction_px: scaled(viewport.height_px, 4, 1000, 3, 10),
            metadata_height_budget_px: 0,
            metadata_region_top_viewport_y_px: 0,
            metadata_region_bottom_viewport_y_px: 0,
        };
        layout.refresh_metadata_height_budget();
        layout
    }

    fn refresh_metadata_height_budget(&mut self)
        requires
            footer_sizes_bounded(*old(self)),
        ensures
            *final(self) == (NowPlayingLayout {
                footer_height_px: final(self).footer_height_px,
                metadata_height_budget_px: final(self).metadata_height_budget_px,
                metadata_region_top_viewport_y_px: final(self).metadata_region_top_viewport_y_px,
                metadata_region_bottom_viewport_y_px:
                    final(self).metadata_region_bottom_viewport_y_px,
                ..*old(self)
            }),
            metadata_budget_consistent(*final(self)),
    {
        let identity_height_px = rounded_fraction(self.typography.identity_px, 5, 4);
        let time_height_px = rounded_fraction(self.typography.time_px, 5, 4);
        let footer_content_height_px = match self.footer_content {
            NowPlayingFooterContent::DeterminateProgress => {
                self.progress_height_px + self.time_spacing_px + time_height_px
            },
            NowPlayingFooterContent::IndeterminateActivity => {
                let copy_height_px = self.activity_copy_height_px();
                if self.activity_waveform_height_px >= copy_height_px {
                    self.activity_waveform_height_px
                } else {
                    copy_height_px
                }
            },
            NowPlayingFooterContent::IdentityOnly => 0,
        };
        let footer_gap_px = match self.footer_content {
            NowPlayingFooterContent::IdentityOnly => 0,
            _ => self.footer_gap_px,
        };
        self.footer_height_px = footer_content_height_px + footer_gap_px + identity_height_px;
        let status_bottom_viewport_y_px =
            self.artwork_field_anchors.presentation_status_top_viewport_y_px
            + self.presentation_status.symbol_size_px;
        let footer_top_viewport_y_px = self.footer_anchor.bottom_viewport_y_px.saturating_sub(
            self.footer_height_px,
        );
        self.metadata_region_top_viewport_y_px = status_bottom_viewport_y_px;
        self.metadata_region_bottom_viewport_y_px = footer_top_viewport_y_px;
        self.metadata_height_budget_px = footer_top_viewport_y_px.saturating_sub(
            status_bottom_viewport_y_px,
        ).saturating_sub(saturating_double(self.presentation_status.font_px)).saturating_sub(
            saturating_double(self.metadata_optical_correction_px),
        );
    }

    fn activity_copy_height_px(&self) -> (height: u32)
        requires
            self.typography.activity_heading_px <= 56,
            self.typography.activity_detail_px <= 56,
        ensures
            height == activity_copy_height_spec(self.typography),
            height <= 140,
    {
        rounded_fraction(self.typography.activity_heading_px, 5, 4) + rounded_fraction(
            self.typography.activity_detail_px,
            5,
            4,
        )
    }

    /// The top offset that centres a metadata group of `group_height_px` in
    /// the metadata region, raised by the optical correction.
    pub fn metadata_group_offset_px(&self, group_height_px: u32) -> (offset: u32)
        ensures
            offset == saturating_sub_spec(
                saturating_sub_spec(
                    saturating_sub_spec(
                        self.metadata_region_bottom_viewport_y_px as int,
                        self.metadata_region_top_viewport_y_px as int,
                    ),
                    group_height_px as int,
                ) / 2,
                self.metadata_optical_correction_px as int,
            ),
    {
        (self.metadata_region_bottom_viewport_y_px.saturating_sub(
            self.metadata_region_top_viewport_y_px,
        ).saturating_sub(group_height_px) / 2).saturating_sub(self.metadata_optical_correction_px)
    }
}

fn metadata_roles(presentation: &NowPlayingPresentation) -> (roles: Vec<NowPlayingRole>)
    ensures
        roles@ == metadata_roles_spec(*presentation),
{
    let mut roles = Vec::new();
    roles.push(NowPlayingRole::PresentationStatus);
    if presentation.title.is_some() {
        roles.push(NowPlayingRole::Title);
    }
    if presentation.artist.is_some() {
        roles.push(NowPlayingRole::Artist);
    }
    if presentation.album.is_some() {
        roles.push(NowPlayingRole::Album);
    }
    if presentation.progress.is_some() {
        roles.push(NowPlayingRole::Progress);
    }
    if presentation.activity.is_some() {
        roles.push(NowPlayingRole::Activity);
    }
    roles
}


// ---------------------------------------------------------------------------
// Full field composition
// ---------------------------------------------------------------------------

/// The full-field composition: a centred accent column with status, heading
/// and explanation, and the identity anchored like Now Playing's footer.
#[derive(Clone, Copy, Debug, PartialEq, Eq, Structural)]
pub struct FullFieldLayout {
    pub outer_gutter_px: u32,
    pub composition_width_px: u32,
    pub composition_left_viewport_x_px: u32,
    pub copy_width_px: u32,
    pub accent_width_px: u32,
    pub accent_padding_px: u32,
    pub text_left_viewport_x_px: u32,
    pub status_spacing_px: u32,
    pub presentation_status: PresentationStatusLayout,
    pub presentation_status_slot: FullFieldSlot,
    pub heading_slot: FullFieldSlot,
    pub heading_font: FullFieldFontSize,
    pub heading_px: u32,
    pub heading_line: FullFieldLineLayout,
    pub explanation_spacing_px: u32,
    pub explanation_slot: FullFieldSlot,
    pub explanation_font: FullFieldFontSize,
    pub explanation_px: u32,
    pub explanation_line: FullFieldLineLayout,
    pub identity_anchor: BottomAnchor,
    pub identity_width_px: u32,
    pub identity_right_inset_px: u32,
    pub identity_gap_px: u32,
    pub identity_px: u32,
    pub identity_placement: IdentityPlacement,
    pub identity_line: IdentityLineLayout,
}

pub open spec fn ff_outer_gutter(v: Viewport) -> int {
    scaled_spec(v.width_px as int, 42, 1000, 32, 160)
}

/// The heading size: 6.2% of the width, from 51 to 208 pixels.
pub open spec fn ff_heading_preferred(v: Viewport) -> int {
    scaled_spec(v.width_px as int, 62, 1000, 51, 208)
}

/// The explanation size: 1.35% of the width, from 16 to 46 pixels.
pub open spec fn ff_explanation_preferred(v: Viewport) -> int {
    scaled_spec(v.width_px as int, 135, 10_000, 16, 46)
}

/// The width of the copy: 68% of the width, at most 1088 pixels.
pub open spec fn ff_copy_width(v: Viewport) -> int {
    scaled_spec(v.width_px as int, 68, 100, 0, 1088)
}

pub open spec fn ff_heading_height(v: Viewport) -> int {
    rounded_fraction_spec(ff_heading_preferred(v), 5, 4)
}

pub open spec fn ff_heading_top(v: Viewport) -> int {
    saturating_sub_spec(v.height_px as int, ff_heading_height(v)) / 2
}

pub open spec fn ff_explanation_spacing(v: Viewport) -> int {
    ratio_px_spec(ff_explanation_preferred(v), 9, 10)
}

/// The identity width and right inset: 38% of the width, at most 864
/// pixels, and 2% of the width, from 24 to 77 pixels.
pub open spec fn ff_identity_geometry(v: Viewport) -> (int, int) {
    let w = v.width_px as int;
    (scaled_spec(w, 38, 100, 0, 864), scaled_spec(w, 2, 100, 24, 77))
}

/// The viewports the full field is laid out for: those of Now Playing whose
/// artwork bottom clears the established identity inset and whose explanation
/// slot stays inside the `u32` range.
pub open spec fn full_field_viewport_supported(v: Viewport) -> bool {
    &&& now_playing_viewport_supported(v)
    &&& np_anchors(v).artwork_bottom_viewport_y_px >= BottomAnchor::full_field_inset_spec(v)
    &&& ff_heading_top(v) + ff_heading_height(v) + ff_explanation_spacing(v) + ratio_px_spec(
        ff_explanation_preferred(v),
        145,
        100,
    ) <= u32::MAX
}

/// The full-field composition of a viewport, field by field.
pub open spec fn full_field_layout_spec(v: Viewport) -> FullFieldLayout {
    let w = v.width_px as int;
    let h = v.height_px as int;
    let status = full_field_status_spec(v);
    let composition_width = rounded_fraction_spec(w, 3, 5);
    let composition_left = saturating_sub_spec(w, composition_width) / 2;
    let accent_width = scaled_spec(w, 38, 10_000, 5, 15);
    let accent_padding = scaled_spec(w, 4, 100, 32, 144);
    let status_spacing = scaled_spec(h, 36, 1000, 29, 80);
    let heading_top = ff_heading_top(v);
    let heading_height = ff_heading_height(v);
    FullFieldLayout {
        outer_gutter_px: ff_outer_gutter(v) as u32,
        composition_width_px: composition_width as u32,
        composition_left_viewport_x_px: composition_left as u32,
        copy_width_px: ff_copy_width(v) as u32,
        accent_width_px: accent_width as u32,
        accent_padding_px: accent_padding as u32,
        text_left_viewport_x_px: (composition_left + accent_width + accent_padding) as u32,
        status_spacing_px: status_spacing as u32,
        presentation_status: status,
        presentation_status_slot: FullFieldSlot {
            top_viewport_y_px: saturating_sub_spec(
                saturating_sub_spec(heading_top, status_spacing),
                status.symbol_size_px as int,
            ) as u32,
            height_px: status.symbol_size_px,
        },
        heading_slot: FullFieldSlot {
            top_viewport_y_px: heading_top as u32,
            height_px: heading_height as u32,
        },
        heading_font: FullFieldFontSize { preferred_px: ff_heading_preferred(v) as u32 },
        heading_px: ff_heading_preferred(v) as u32,
        heading_line: FullFieldLineLayout::complete_spec(),
        explanation_spacing_px: ff_explanation_spacing(v) as u32,
        explanation_slot: FullFieldSlot {
            top_viewport_y_px: (heading_top + heading_height + ff_explanation_spacing(v)) as u32,
            height_px: ratio_px_spec(ff_explanation_preferred(v), 145, 100) as u32,
        },
        explanation_font: FullFieldFontSize { preferred_px: ff_explanation_preferred(v) as u32 },
        explanation_px: ff_explanation_preferred(v) as u32,
        explanation_line: FullFieldLineLayout::complete_spec(),
        identity_anchor: BottomAnchor::placed(
            np_anchors(v).artwork_bottom_viewport_y_px - BottomAnchor::full_field_inset_spec(v),
            h,
        ),
        identity_width_px: ff_identity_geometry(v).0 as u32,
        identity_right_inset_px: ff_identity_geometry(v).1 as u32,
        identity_gap_px: scaled_spec(w, 18, 1000, 19, 64) as u32,
        identity_px: scaled_spec(w, 125, 10_000, 20, 48) as u32,
        identity_placement: IdentityPlacement::BottomRight,
        identity_line: IdentityLineLayout::defensive_spec(),
    }
}

impl FullFieldLayout {
    pub fn for_viewport(viewport: Viewport) -> (layout: Self)
        requires
            viewport.width_px > 0,
            viewport.height_px > 0,
            full_field_viewport_supported(viewport),
        ensures
            layout == full_field_layout_spec(viewport),
    {
        let now_playing_layout = NowPlayingLayout::for_viewport(viewport);
        let presentation_status = PresentationStatusLayout::for_full_field(viewport);
        let outer_gutter_px = scaled(viewport.width_px, 42, 1000, 32, 160);
        let composition_width_px = rounded_fraction(viewport.width_px, 3, 5);
        let composition_left_viewport_x_px = viewport.width_px.saturating_sub(
            composition_width_px,
        ) / 2;
        let accent_width_px = scaled(viewport.width_px, 38, 10_000, 5, 15);
        let accent_padding_px = scaled(viewport.width_px, 4, 100, 32, 144);
        let copy_width_px = scaled(viewport.width_px, 68, 100, 0, 1088);
        let heading_font = FullFieldFontSize {
            preferred_px: scaled(viewport.width_px, 62, 1000, 51, 208),
        };
        let explanation_font = FullFieldFontSize {
            preferred_px: scaled(viewport.width_px, 135, 10_000, 16, 46),
        };
        let heading_slot_height_px = rounded_fraction(heading_font.preferred_px, 5, 4);
        let heading_slot_top_viewport_y_px = viewport.height_px.saturating_sub(
            heading_slot_height_px,
        ) / 2;
        let presentation_status_slot_height_px = presentation_status.symbol_size_px;
        let status_spacing_px = scaled(viewport.height_px, 36, 1000, 29, 80);
        let presentation_status_top_viewport_y_px = heading_slot_top_viewport_y_px.saturating_sub(
            status_spacing_px,
        ).saturating_sub(presentation_status_slot_height_px);
        let explanation_spacing_px = ratio_px(explanation_font.preferred_px, 9, 10);
        let explanation_slot_top_viewport_y_px = heading_slot_top_viewport_y_px
            + heading_slot_height_px + explanation_spacing_px;
        let explanation_slot_height_px = ratio_px(explanation_font.preferred_px, 145, 100);
        let (identity_width_px, identity_right_inset_px) = full_field_identity_geometry(
            viewport,
            outer_gutter_px,
        );
        proof {
            lemma_rounded_fraction_at_most(viewport.width_px, 3, 5);
        }
        Self {
            outer_gutter_px,
            composition_width_px,
            composition_left_viewport_x_px,
            copy_width_px,
            accent_width_px,
            accent_padding_px,
            text_left_viewport_x_px: composition_left_viewport_x_px + accent_width_px
                + accent_padding_px,
            status_spacing_px,
            presentation_status,
            presentation_status_slot: FullFieldSlot {
                top_viewport_y_px: presentation_status_top_viewport_y_px,
                height_px: presentation_status_slot_height_px,
            },
            heading_slot: FullFieldSlot {
                top_viewport_y_px: heading_slot_top_viewport_y_px,
                height_px: heading_slot_height_px,
            },
            heading_font,
            heading_px: heading_font.preferred_px,
            heading_line: FullFieldLineLayout::complete(),
            explanation_spacing_px,
            explanation_slot: FullFieldSlot {
                top_viewport_y_px: explanation_slot_top_viewport_y_px,
                height_px: explanation_slot_height_px,
            },
            explanation_font,
            explanation_px: explanation_font.preferred_px,
            explanation_line: FullFieldLineLayout::complete(),
            identity_anchor: BottomAnchor::for_full_field(
                viewport,
                now_playing_layout.artwork_field_anchors,
            ),
            identity_width_px,
            identity_right_inset_px,
            identity_gap_px: scaled(viewport.width_px, 18, 1000, 19, 64),
            identity_px: scaled(viewport.width_px, 125, 10_000, 20, 48),
            identity_placement: IdentityPlacement::BottomRight,
            identity_line: IdentityLineLayout::defensive(),
        }
    }

    /// The accent runs to the bottom of the explanation when there is one,
    /// otherwise to the bottom of the heading.
    pub fn accent_bottom_viewport_y_px(self, has_explanation: bool) -> (bottom: u32)
        requires
            has_explanation ==> self.explanation_slot.top_viewport_y_px
                + self.explanation_slot.height_px <= u32::MAX,
            !has_explanation ==> self.heading_slot.top_viewport_y_px + self.heading_slot.height_px
                <= u32::MAX,
        ensures
            bottom == if has_explanation {
                self.explanation_slot.top_viewport_y_px + self.explanation_slot.height_px
            } else {
                self.heading_slot.top_viewport_y_px + self.heading_slot.height_px
            },
    {
        if has_explanation {
            self.explanation_slot.bottom_viewport_y_px()
        } else {
            self.heading_slot.bottom_viewport_y_px()
        }
    }

    /// The text width: the composition less the accent and its padding.
    pub fn text_width_px(self) -> (width: u32)
        ensures
            width == saturating_sub_spec(
                saturating_sub_spec(
                    self.composition_width_px as int,
                    self.accent_width_px as int,
                ),
                self.accent_padding_px as int,
            ),
    {
        self.composition_width_px.saturating_sub(self.accent_width_px).saturating_sub(
            self.accent_padding_px,
        )
    }
}

fn full_field_identity_geometry(viewport: Viewport, outer_gutter_px: u32) -> (geometry: (u32, u32))
    requires
        outer_gutter_px == ff_outer_gutter(viewport),
    ensures
        geometry.0 == ff_identity_geometry(viewport).0,
        geometry.1 == ff_identity_geometry(viewport).1,
{
    // Full-field presentations share the responsive vertical anchor only; their
    // identity grid is their own.
    (scaled(viewport.width_px, 38, 100, 0, 864), scaled(viewport.width_px, 2, 100, 24, 77))
}

/// Whether Now Playing can be laid out in `viewport`; see
/// `now_playing_viewport_supported`.
pub fn now_playing_viewport_is_supported(viewport: Viewport) -> (supported: bool)
    requires
        viewport.width_px > 0,
        viewport.height_px > 0,
    ensures
        supported == now_playing_viewport_supported(viewport),
{
    proof {
        lemma_now_playing_anchor_bounds(viewport);
    }
    let outer_gutter_px = scaled(viewport.width_px, 425, 10_000, 32, 160);
    let column_gap_px = scaled(viewport.width_px, 42, 1000, 40, 192);
    let content_width_px = viewport.width_px.saturating_sub(saturating_double(outer_gutter_px)).saturating_sub(
        column_gap_px,
    );
    let height_share = rounded_fraction(viewport.height_px, 84, 100);
    let width_share = rounded_fraction(viewport.width_px, 56, 100);
    let artwork_field_size_px = if height_share <= width_share {
        height_share
    } else {
        width_share
    };
    if artwork_field_size_px > content_width_px {
        return false;
    }
    let artwork_top_px = (viewport.height_px - artwork_field_size_px) / 2;
    let anchors = ArtworkFieldAnchors::for_artwork_field(viewport, artwork_top_px, artwork_field_size_px);
    let status = PresentationStatusLayout::for_now_playing(viewport);
    anchors.presentation_status_top_viewport_y_px as u64 + status.symbol_size_px as u64 <= u32::MAX as u64
}

/// Whether the full field can be laid out in `viewport`; see
/// `full_field_viewport_supported`.
pub fn full_field_viewport_is_supported(viewport: Viewport) -> (supported: bool)
    requires
        viewport.width_px > 0,
        viewport.height_px > 0,
    ensures
        supported == full_field_viewport_supported(viewport),
{
    if !now_playing_viewport_is_supported(viewport) {
        return false;
    }
    proof {
        lemma_now_playing_anchor_bounds(viewport);
    }
    let height_share = rounded_fraction(viewport.height_px, 84, 100);
    let width_share = rounded_fraction(viewport.width_px, 56, 100);
    let artwork_field_size_px = if height_share <= width_share {
        height_share
    } else {
        width_share
    };
    let artwork_top_px = (viewport.height_px - artwork_field_size_px) / 2;
    let anchors = ArtworkFieldAnchors::for_artwork_field(viewport, artwork_top_px, artwork_field_size_px);
    if anchors.artwork_bottom_viewport_y_px < scaled(viewport.height_px, 18, 1000, 16, 44) {
        return false;
    }
    let heading_preferred_px = scaled(viewport.width_px, 62, 1000, 51, 208);
    let explanation_preferred_px = scaled(viewport.width_px, 135, 10_000, 16, 46);
    let heading_height_px = rounded_fraction(heading_preferred_px, 5, 4);
    let heading_top_px = viewport.height_px.saturating_sub(heading_height_px) / 2;
    let explanation_spacing_px = ratio_px(explanation_preferred_px, 9, 10);
    let explanation_height_px = ratio_px(explanation_preferred_px, 145, 100);
    heading_top_px as u64 + heading_height_px as u64 + explanation_spacing_px as u64
        + explanation_height_px as u64 <= u32::MAX as u64
}

} // verus!
