use vstd::prelude::*;

use crate::layout::Viewport;
use crate::palette::Rgb;

verus! {

/// The side of the square blue-noise tile.
pub const BLUE_NOISE_SIDE: usize = 128;

/// The number of cells of the blue-noise tile.
pub const BLUE_NOISE_AREA: usize = 16384;

/// The largest index of the gradient color lookup table.
pub const COLOR_LUT_MAX: usize = 65536;

/// The fixed-point representation of gradient position 1.0.
pub const POSITION_ONE: i64 = 0x1_0000_0000;

/// The byte length of the two little-endian 16-bit blue-noise rank masks.
pub const BLUE_NOISE_BYTE_COUNT: usize = 65536;

/// The cache key of a gradient raster: its logical viewport and display scale.
#[derive(Clone, Copy, Debug, PartialEq, Eq, Structural)]
pub struct NowPlayingGradientCacheKey {
    logical_viewport: Viewport,
    physical_viewport: Viewport,
    scale_factor: u32,
}

impl View for NowPlayingGradientCacheKey {
    type V = (Viewport, Viewport, u32);

    closed spec fn view(&self) -> (Viewport, Viewport, u32) {
        (self.logical_viewport, self.physical_viewport, self.scale_factor)
    }
}

impl crate::bounded_lru_cache::CacheKey for NowPlayingGradientCacheKey {
    fn same_key(&self, other: &Self) -> (same: bool) {
        self.logical_viewport.width_px == other.logical_viewport.width_px
            && self.logical_viewport.height_px == other.logical_viewport.height_px
            && self.physical_viewport.width_px == other.physical_viewport.width_px
            && self.physical_viewport.height_px == other.physical_viewport.height_px
            && self.scale_factor == other.scale_factor
    }
}

impl NowPlayingGradientCacheKey {
    /// The key for a logical viewport shown at an integer display scale; the
    /// physical viewport is the logical one multiplied by the scale.
    pub fn new(logical_viewport: Viewport, scale_factor: u32) -> (key: Self)
        requires
            scale_factor > 0,
            logical_viewport.width_px > 0,
            logical_viewport.height_px > 0,
            logical_viewport.width_px * scale_factor <= u32::MAX,
            logical_viewport.height_px * scale_factor <= u32::MAX,
        ensures
            key@ == (
                logical_viewport,
                Viewport {
                    width_px: (logical_viewport.width_px * scale_factor) as u32,
                    height_px: (logical_viewport.height_px * scale_factor) as u32,
                },
                scale_factor,
            ),
    {
        proof {
            assert(logical_viewport.width_px * scale_factor >= 1) by (nonlinear_arith)
                requires
                    logical_viewport.width_px >= 1,
                    scale_factor >= 1,
            ;
            assert(logical_viewport.height_px * scale_factor >= 1) by (nonlinear_arith)
                requires
                    logical_viewport.height_px >= 1,
                    scale_factor >= 1,
            ;
        }
        let physical_viewport = Viewport::new(
            logical_viewport.width_px * scale_factor,
            logical_viewport.height_px * scale_factor,
        );
        Self { logical_viewport, physical_viewport, scale_factor }
    }

    pub fn logical_viewport(self) -> (viewport: Viewport)
        ensures
            viewport == self@.0,
    {
        self.logical_viewport
    }

    pub fn physical_viewport(self) -> (viewport: Viewport)
        ensures
            viewport == self@.1,
    {
        self.physical_viewport
    }

    pub fn scale_factor(self) -> (scale: u32)
        ensures
            scale == self@.2,
    {
        self.scale_factor
    }
}

// ---------------------------------------------------------------------------
// Fixed-point geometry and quantization
// ---------------------------------------------------------------------------

/// The gradient position of the first pixel centre and its per-pixel steps,
/// in 32.32 fixed point.
#[derive(Clone, Copy, Debug, PartialEq, Eq, Structural)]
pub struct GradientGeometry {
    pub origin: i64,
    pub step_x: i64,
    pub step_y: i64,
}

/// The gradient position at pixel `(x, y)`.
pub open spec fn position_at(geometry: GradientGeometry, x: int, y: int) -> int {
    geometry.origin + y * geometry.step_y + x * geometry.step_x
}

/// The color table index of a fixed-point position clamped to `[0, 1]`.
pub open spec fn fixed_position_index_spec(position: int) -> int {
    let clamped = if position < 0 {
        0
    } else if position > POSITION_ONE {
        POSITION_ONE as int
    } else {
        position
    };
    clamped * COLOR_LUT_MAX as int / 0x1_0000_0000
}

pub fn fixed_position_index(position: i64) -> (index: usize)
    ensures
        index == fixed_position_index_spec(position as int),
        index <= COLOR_LUT_MAX,
{
    let clamped: u64 = if position < 0 {
        0
    } else if position > POSITION_ONE {
        POSITION_ONE as u64
    } else {
        position as u64
    };
    let scaled: u64 = clamped * (COLOR_LUT_MAX as u64);
    (scaled / 0x1_0000_0000) as usize
}

/// A gradient color in channel steps scaled by the blue-noise area, either a
/// solid sRGB color or one dithered with blue noise.
#[derive(Clone, Copy, Debug, PartialEq, Eq)]
pub struct QuantizedColor {
    scaled_steps: [i32; 3],
    dither: bool,
}

/// The largest scaled channel step: 255 times the blue-noise area.
pub open spec fn maximum_scaled_step() -> int {
    255 * BLUE_NOISE_AREA as int
}

/// `value / BLUE_NOISE_AREA`, rounded half away from zero.
pub open spec fn round_scaled_step_spec(value: int) -> int {
    if value >= 0 {
        (value + 8192) / 16384
    } else {
        -((8192 - value) / 16384)
    }
}

pub open spec fn clamp_channel(value: int) -> int {
    if value < 0 {
        0
    } else if value > 255 {
        255
    } else {
        value
    }
}

impl QuantizedColor {
    pub closed spec fn scaled_step(self, channel: int) -> int {
        self.scaled_steps[channel] as int
    }

    pub closed spec fn dithers(self) -> bool {
        self.dither
    }

    /// Every scaled step lies in `[0, 255 * BLUE_NOISE_AREA]`.
    pub open spec fn well_formed(self) -> bool {
        forall|channel: int| 0 <= channel < 3 ==> 0 <= #[trigger] self.scaled_step(channel)
            <= maximum_scaled_step()
    }

    /// The sRGB channel value for `channel` with blue-noise offset `noise`.
    pub open spec fn quantized(self, channel: int, noise: int) -> int {
        if !self.dithers() {
            self.scaled_step(channel) / BLUE_NOISE_AREA as int
        } else {
            clamp_channel(round_scaled_step_spec(self.scaled_step(channel) + noise))
        }
    }

    /// A color dithered from the given scaled channel steps.
    pub fn dithered(scaled_steps: [i32; 3]) -> (color: Self)
        requires
            forall|channel: int| 0 <= channel < 3 ==> 0 <= #[trigger] scaled_steps[channel]
                <= maximum_scaled_step(),
        ensures
            color.well_formed(),
            color.dithers(),
            forall|channel: int| 0 <= channel < 3 ==> #[trigger] color.scaled_step(channel)
                == scaled_steps[channel],
    {
        Self { scaled_steps, dither: true }
    }

    /// A solid color that quantizes to exactly its sRGB channels.
    pub fn solid(color: Rgb) -> (quantized: Self)
        ensures
            quantized.well_formed(),
            !quantized.dithers(),
            quantized.scaled_step(0) == color.red * BLUE_NOISE_AREA,
            quantized.scaled_step(1) == color.green * BLUE_NOISE_AREA,
            quantized.scaled_step(2) == color.blue * BLUE_NOISE_AREA,
    {
        let area: i32 = 16384;
        Self {
            scaled_steps: [
                color.red as i32 * area,
                color.green as i32 * area,
                color.blue as i32 * area,
            ],
            dither: false,
        }
    }

    pub fn quantize(self, channel: usize, noise: i16) -> (value: u8)
        requires
            self.well_formed(),
            channel < 3,
        ensures
            value == self.quantized(channel as int, noise as int),
    {
        let scaled_step = self.scaled_steps[channel];
        assert(scaled_step == self.scaled_step(channel as int));
        if !self.dither {
            return (scaled_step / 16384) as u8;
        }
        let noisy_step = scaled_step + noise as i32;
        let rounded = round_scaled_step(noisy_step);
        if rounded < 0 {
            0
        } else if rounded > 255 {
            255
        } else {
            rounded as u8
        }
    }
}

pub fn round_scaled_step(value: i32) -> (rounded: i32)
    requires
        i32::MIN + 8192 <= value <= i32::MAX - 8192,
    ensures
        rounded == round_scaled_step_spec(value as int),
{
    let area: i32 = 16384;
    let half: i32 = area / 2;
    if value >= 0 {
        (value + half) / area
    } else {
        let magnitude: i64 = half as i64 - value as i64;
        let quotient: i64 = magnitude / area as i64;
        -(quotient as i32)
    }
}

/// A blue-noise offset per color channel.
#[derive(Clone, Copy, Debug, PartialEq, Eq)]
pub struct BlueNoise(pub [i16; 3]);

/// The little-endian 16-bit rank at `index` of rank mask `mask`.
pub open spec fn rank_value(bytes: Seq<u8>, mask: int, index: int) -> int {
    let offset = (mask * BLUE_NOISE_AREA as int + index) * 2;
    bytes[offset] + 256 * bytes[offset + 1]
}

/// Both rank masks hold only ranks that fit an `i16`.
pub open spec fn ranks_fit(bytes: Seq<u8>) -> bool {
    forall|mask: int, index: int|
        0 <= mask < 2 && 0 <= index < BLUE_NOISE_AREA ==> #[trigger] rank_value(bytes, mask, index)
            <= i16::MAX
}

pub fn blue_noise_rank(bytes: &[u8], mask: usize, index: usize) -> (rank: i16)
    requires
        bytes@.len() == BLUE_NOISE_BYTE_COUNT,
        mask < 2,
        index < BLUE_NOISE_AREA,
        rank_value(bytes@, mask as int, index as int) <= i16::MAX,
    ensures
        rank == rank_value(bytes@, mask as int, index as int),
{
    let offset = (mask * BLUE_NOISE_AREA + index) * 2;
    let low = bytes[offset] as u16;
    let high = bytes[offset + 1] as u16;
    (low + 256 * high) as i16
}

/// The tile cell of a wrapped sample position.
pub open spec fn tile_index(sample_x: int, sample_y: int) -> int {
    (sample_y % 128) * 128 + sample_x % 128
}

/// The decorrelated sample cells of the three channels in both masks.
pub open spec fn channel_noise_indices_spec(x: int, y: int) -> (Seq<int>, Seq<int>) {
    (
        seq![tile_index(x, y), tile_index(y + 37, 127 - x + 17), tile_index(127 - x + 71, y + 29)],
        seq![tile_index(x, y), tile_index(127 - y + 11, x + 53), tile_index(y + 47, x + 83)],
    )
}

fn wrapped_index(sample_x: usize, sample_y: usize) -> (index: usize)
    ensures
        index == tile_index(sample_x as int, sample_y as int),
        index < BLUE_NOISE_AREA,
{
    (sample_y % 128) * 128 + sample_x % 128
}

pub fn channel_noise_indices(x: usize, y: usize) -> (indices: ([usize; 3], [usize; 3]))
    requires
        x < BLUE_NOISE_SIDE,
        y < BLUE_NOISE_SIDE,
    ensures
        forall|channel: int|
            0 <= channel < 3 ==> {
                &&& #[trigger] indices.0[channel] == channel_noise_indices_spec(
                    x as int,
                    y as int,
                ).0[channel]
                &&& indices.1[channel] == channel_noise_indices_spec(x as int, y as int).1[channel]
                &&& indices.0[channel] < BLUE_NOISE_AREA
                &&& indices.1[channel] < BLUE_NOISE_AREA
            },
{
    let side = BLUE_NOISE_SIDE;
    let first = [
        wrapped_index(x, y),
        wrapped_index(y + 37, side - 1 - x + 17),
        wrapped_index(side - 1 - x + 71, y + 29),
    ];
    let second = [
        wrapped_index(x, y),
        wrapped_index(side - 1 - y + 11, x + 53),
        wrapped_index(y + 47, x + 83),
    ];
    (first, second)
}

/// The noise of a tile cell: the first mask's rank minus the second's, each
/// channel sampled at its own decorrelated cell.
pub open spec fn tile_noise(bytes: Seq<u8>, cell: int) -> Seq<int> {
    let x = cell % 128;
    let y = cell / 128;
    let (first, second) = channel_noise_indices_spec(x, y);
    Seq::new(3, |channel: int| rank_value(bytes, 0, first[channel]) - rank_value(bytes, 1, second[channel]))
}

/// The blue-noise tile built from the two rank masks.
pub fn blue_noise_tile(bytes: &[u8]) -> (tile: Vec<BlueNoise>)
    requires
        bytes@.len() == BLUE_NOISE_BYTE_COUNT,
        ranks_fit(bytes@),
    ensures
        tile@.len() == BLUE_NOISE_AREA,
        forall|cell: int, channel: int|
            0 <= cell < BLUE_NOISE_AREA && 0 <= channel < 3 ==> #[trigger] tile@[cell].0[channel]
                == tile_noise(bytes@, cell)[channel],
{
    let mut tile: Vec<BlueNoise> = Vec::new();
    let mut cell: usize = 0;
    while cell < BLUE_NOISE_AREA
        invariant
            bytes@.len() == BLUE_NOISE_BYTE_COUNT,
            ranks_fit(bytes@),
            cell <= BLUE_NOISE_AREA,
            tile@.len() == cell,
            forall|done: int, channel: int|
                0 <= done < cell && 0 <= channel < 3 ==> #[trigger] tile@[done].0[channel]
                    == tile_noise(bytes@, done)[channel],
        decreases BLUE_NOISE_AREA - cell,
    {
        let x = cell % BLUE_NOISE_SIDE;
        let y = cell / BLUE_NOISE_SIDE;
        let (first, second) = channel_noise_indices(x, y);
        proof {
            assert(rank_value(bytes@, 0, first[0] as int) <= i16::MAX);
            assert(rank_value(bytes@, 0, first[1] as int) <= i16::MAX);
            assert(rank_value(bytes@, 0, first[2] as int) <= i16::MAX);
            assert(rank_value(bytes@, 1, second[0] as int) <= i16::MAX);
            assert(rank_value(bytes@, 1, second[1] as int) <= i16::MAX);
            assert(rank_value(bytes@, 1, second[2] as int) <= i16::MAX);
        }
        let red = blue_noise_rank(bytes, 0, first[0]) - blue_noise_rank(bytes, 1, second[0]);
        let green = blue_noise_rank(bytes, 0, first[1]) - blue_noise_rank(bytes, 1, second[1]);
        let blue = blue_noise_rank(bytes, 0, first[2]) - blue_noise_rank(bytes, 1, second[2]);
        let noise = BlueNoise([red, green, blue]);
        proof {
            let expected = tile_noise(bytes@, cell as int);
            assert(noise.0[0] == expected[0]);
            assert(noise.0[1] == expected[1]);
            assert(noise.0[2] == expected[2]);
        }
        tile.push(noise);
        cell = cell + 1;
    }
    tile
}


// ---------------------------------------------------------------------------
// Raster
// ---------------------------------------------------------------------------

/// The byte offset of pixel `(x, y)` in an RGBA8 raster `width` pixels wide.
pub open spec fn pixel_offset(width: int, x: int, y: int) -> int {
    (y * width + x) * 4
}

/// The byte for `channel` of pixel `(x, y)` in `bytes`.
pub open spec fn raster_byte(bytes: Seq<u8>, width: int, x: int, y: int, channel: int) -> u8 {
    bytes[pixel_offset(width, x, y) + channel]
}

/// The value of `channel` at pixel `(x, y)`: the table color at the pixel's
/// gradient position, dithered with the tile noise of the wrapped pixel; the
/// alpha channel is opaque.
pub open spec fn gradient_channel(
    geometry: GradientGeometry,
    color_lut: Seq<QuantizedColor>,
    noise_tile: Seq<BlueNoise>,
    x: int,
    y: int,
    channel: int,
) -> int {
    if channel == 3 {
        255
    } else {
        color_lut[fixed_position_index_spec(position_at(geometry, x, y))].quantized(
            channel,
            noise_tile[(y % 128) * 128 + x % 128].0[channel] as int,
        )
    }
}

/// Every position the raster walk visits, and its row start, fits an `i64`.
pub open spec fn positions_fit(geometry: GradientGeometry, width: int, height: int) -> bool {
    forall|x: int, y: int|
        0 <= x <= width && 0 <= y < height ==> {
            &&& i64::MIN <= y * geometry.step_y <= i64::MAX
            &&& i64::MIN <= geometry.origin + y * geometry.step_y <= i64::MAX
            &&& i64::MIN <= #[trigger] position_at(geometry, x, y) <= i64::MAX
        }
}

/// A rendered gradient raster in RGBA8, row by row.
pub struct NowPlayingGradient {
    rgba8: Vec<u8>,
}

impl View for NowPlayingGradient {
    type V = Seq<u8>;

    closed spec fn view(&self) -> Seq<u8> {
        self.rgba8@
    }
}

proof fn lemma_earlier_pixel(width: int, xx: int, yy: int, x: int, y: int)
    requires
        0 <= xx,
        0 <= yy,
        0 <= x,
        width > 0,
        (yy < y && xx < width) || (yy == y && xx < x),
    ensures
        yy * width + xx < y * width + x,
{
    if yy < y {
        assert(yy * width + xx < y * width) by (nonlinear_arith)
            requires
                yy < y,
                xx < width,
                0 <= xx,
                0 <= yy,
                width > 0,
        ;
    }
}

impl NowPlayingGradient {
    /// Renders the gradient: for each pixel, the color table entry at its
    /// fixed-point position, quantized per channel with the blue-noise offset
    /// of its wrapped tile cell, fully opaque.
    pub fn render(
        viewport: Viewport,
        geometry: GradientGeometry,
        color_lut: &Vec<QuantizedColor>,
        noise_tile: &Vec<BlueNoise>,
    ) -> (gradient: Self)
        requires
            viewport.width_px > 0,
            viewport.height_px > 0,
            viewport.width_px * viewport.height_px * 4 <= usize::MAX,
            color_lut@.len() == COLOR_LUT_MAX + 1,
            forall|index: int| 0 <= index < color_lut@.len() ==> #[trigger] color_lut@[index].well_formed(),
            noise_tile@.len() == BLUE_NOISE_AREA,
            positions_fit(geometry, viewport.width_px as int, viewport.height_px as int),
        ensures
            gradient@.len() == viewport.width_px * viewport.height_px * 4,
            forall|x: int, y: int, channel: int|
                0 <= x < viewport.width_px && 0 <= y < viewport.height_px && 0 <= channel < 4
                    ==> #[trigger] raster_byte(gradient@, viewport.width_px as int, x, y, channel)
                    == gradient_channel(geometry, color_lut@, noise_tile@, x, y, channel),
    {
        let width = viewport.width_px as usize;
        let height = viewport.height_px as usize;
        let ghost w = width as int;
        let mut rgba8: Vec<u8> = Vec::new();
        let mut y: usize = 0;
        while y < height
            invariant
                width == viewport.width_px,
                height == viewport.height_px,
                w == width,
                width > 0,
                y <= height,
                viewport.width_px * viewport.height_px * 4 <= usize::MAX,
                color_lut@.len() == COLOR_LUT_MAX + 1,
                forall|index: int| 0 <= index < color_lut@.len() ==> #[trigger] color_lut@[index].well_formed(),
                noise_tile@.len() == BLUE_NOISE_AREA,
                positions_fit(geometry, width as int, height as int),
                rgba8@.len() == y * w * 4,
                forall|xx: int, yy: int, channel: int|
                    0 <= xx < w && 0 <= yy < y && 0 <= channel < 4
                        ==> #[trigger] raster_byte(rgba8@, w, xx, yy, channel) == gradient_channel(
                        geometry,
                        color_lut@,
                        noise_tile@,
                        xx,
                        yy,
                        channel,
                    ),
            decreases height - y,
        {
            assert(position_at(geometry, 0, y as int) == geometry.origin + y * geometry.step_y);
            let mut position: i64 = geometry.origin + (y as i64) * geometry.step_y;
            let mut x: usize = 0;
            assert((y as int) * w < height * w) by (nonlinear_arith)
                requires
                    y < height,
                    w > 0,
            ;
            while x < width
                invariant
                    width == viewport.width_px,
                    height == viewport.height_px,
                    w == width,
                    width > 0,
                    y < height,
                    x <= width,
                    (y as int) * w < height * w,
                    viewport.width_px * viewport.height_px * 4 <= usize::MAX,
                    color_lut@.len() == COLOR_LUT_MAX + 1,
                    forall|index: int| 0 <= index < color_lut@.len() ==> #[trigger] color_lut@[index].well_formed(),
                    noise_tile@.len() == BLUE_NOISE_AREA,
                    positions_fit(geometry, width as int, height as int),
                    position == position_at(geometry, x as int, y as int),
                    rgba8@.len() == (y * w + x) * 4,
                    forall|xx: int, yy: int, channel: int|
                        0 <= xx < w && 0 <= yy <= y && 0 <= channel < 4 && (yy < y || xx < x)
                            ==> #[trigger] raster_byte(rgba8@, w, xx, yy, channel)
                            == gradient_channel(geometry, color_lut@, noise_tile@, xx, yy, channel),
                decreases width - x,
            {
                let color = color_lut[fixed_position_index(position)];
                let noise = noise_tile[(y % 128) * 128 + (x % 128)];
                let ghost before = rgba8@;
                let red = color.quantize(0, noise.0[0]);
                let green = color.quantize(1, noise.0[1]);
                let blue = color.quantize(2, noise.0[2]);
                rgba8.push(red);
                rgba8.push(green);
                rgba8.push(blue);
                rgba8.push(255);
                proof {
                    assert forall|xx: int, yy: int, channel: int|
                        0 <= xx < w && 0 <= yy <= y && 0 <= channel < 4 && (yy < y || xx < x + 1)
                            implies #[trigger] raster_byte(rgba8@, w, xx, yy, channel)
                            == gradient_channel(geometry, color_lut@, noise_tile@, xx, yy, channel)
                        by {
                        if yy == y && xx == x {
                            assert(pixel_offset(w, xx, yy) == before.len());
                        } else {
                            lemma_earlier_pixel(w, xx, yy, x as int, y as int);
                            assert(pixel_offset(w, xx, yy) + channel < before.len());
                            assert(raster_byte(before, w, xx, yy, channel) == raster_byte(
                                rgba8@,
                                w,
                                xx,
                                yy,
                                channel,
                            ));
                        }
                    }
                    assert((x + 1) * geometry.step_x == x * geometry.step_x + geometry.step_x)
                        by (nonlinear_arith);
                    assert(position_at(geometry, x + 1, y as int) == position + geometry.step_x);
                    assert(i64::MIN <= position_at(geometry, x + 1, y as int) <= i64::MAX);
                }
                position = position + geometry.step_x;
                x = x + 1;
            }
            proof {
                assert((y as int) * w + w == (y as int + 1) * w) by (nonlinear_arith);
            }
            y = y + 1;
        }
        proof {
            assert(height * w * 4 == viewport.width_px * viewport.height_px * 4) by (nonlinear_arith)
                requires
                    w == viewport.width_px,
                    height == viewport.height_px,
            ;
        }
        Self { rgba8 }
    }

    pub fn rgba8(&self) -> (bytes: &[u8])
        ensures
            bytes@ == self@,
    {
        self.rgba8.as_slice()
    }

    pub fn into_rgba8(self) -> (bytes: Vec<u8>)
        ensures
            bytes@ == self@,
    {
        self.rgba8
    }
}

} // verus!
