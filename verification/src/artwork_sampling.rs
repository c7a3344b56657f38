use vstd::prelude::*;

verus! {

/// An 8-bit image as a pixel buffer holds it: `height` rows of `rowstride`
/// bytes (the last row may stop after its pixels), each pixel `n_channels`
/// bytes, red first.
#[derive(Clone, Debug)]
pub struct PixelImage {
    pub width: i32,
    pub height: i32,
    pub rowstride: i32,
    pub n_channels: i32,
    pub has_alpha: bool,
    pub pixels: Vec<u8>,
}

impl PixelImage {
    /// The buffer holds every pixel of every row.
    pub open spec fn well_formed(&self) -> bool {
        &&& self.width >= 1
        &&& self.height >= 1
        &&& self.n_channels >= 1
        &&& self.rowstride >= self.width * self.n_channels
        &&& self.pixels@.len() >= (self.height - 1) * self.rowstride + self.width
            * self.n_channels
    }

    /// Channel `channel` of the pixel at `row` and `column` of an RGB image.
    pub open spec fn rgb_byte(&self, row: int, column: int, channel: int) -> int {
        self.pixels@[row * self.rowstride + column * 3 + channel] as int
    }
}

/// How many source pixels make one sampled pixel along each axis.
pub open spec fn reduction_factor(source: PixelImage, width: int) -> int {
    source.width as int / width
}

/// Whether sampling `source` down to `width` x `height` is an opaque RGB box
/// reduction by a whole factor from two to thirty, which the integer path
/// samples; other reductions are left to the general scaler.
pub open spec fn has_integer_reduction(source: PixelImage, width: int, height: int) -> bool {
    let factor = reduction_factor(source, width);
    &&& !source.has_alpha
    &&& source.n_channels == 3
    &&& 2 <= factor <= 30
    &&& source.width == width * factor
    &&& source.height == height * factor
}

/// The weight of each source pixel of a `factor` x `factor` box, out of
/// 65536, rounded to the nearest integer.
pub open spec fn box_unit(factor: int) -> int {
    (65536 + factor * factor / 2) / (factor * factor)
}

/// What the rounded box weights miss of 65536 (negative where they exceed it).
pub open spec fn box_correction(factor: int) -> int {
    65536 - box_unit(factor) * (factor * factor)
}

/// Weight reductions that take `remaining` away from the pixels of a box
/// backwards from linear index `next - 1`, at most `chunk` from each, as
/// (column in box, row in box, weight change).
pub open spec fn trailing_reductions(factor: int, next: int, remaining: int, chunk: int) -> Seq<
    (usize, usize, i64),
>
    decreases next,
{
    if next <= 0 || remaining <= 0 {
        Seq::empty()
    } else {
        let amount = if remaining < chunk {
            remaining
        } else {
            chunk
        };
        seq![(((next - 1) % factor) as usize, ((next - 1) / factor) as usize, (-amount) as i64)]
            + trailing_reductions(factor, next - 1, remaining - amount, chunk)
    }
}

/// The sparse corrections that make the weights of a box total 65536: a
/// surplus goes to the pixel past the box's far corner (clamped to the image),
/// a deficit is taken from the last pixels of the box in equal chunks.
pub open spec fn box_adjustments(factor: int) -> Seq<(usize, usize, i64)> {
    let unit = box_unit(factor);
    let correction = box_correction(factor);
    if correction > 0 {
        seq![(factor as usize, factor as usize, correction as i64)]
    } else if correction < 0 {
        let deficit = -correction;
        let divisor = (deficit + unit - 1) / unit;
        trailing_reductions(factor, factor * factor, deficit, deficit / divisor)
    } else {
        Seq::empty()
    }
}

/// The sum of channel `channel` over the first `count` pixels, in row-major
/// order, of the box of sampled pixel (`x`, `y`).
pub open spec fn box_sum(
    source: PixelImage,
    factor: int,
    y: int,
    x: int,
    channel: int,
    count: int,
) -> int
    decreases count,
{
    if count <= 0 {
        0
    } else {
        box_sum(source, factor, y, x, channel, count - 1) + source.rgb_byte(
            y * factor + (count - 1) / factor,
            x * factor + (count - 1) % factor,
            channel,
        )
    }
}

/// The smaller of two integers.
pub open spec fn at_most(value: int, limit: int) -> int {
    if value < limit {
        value
    } else {
        limit
    }
}

/// The weighted channel values that `adjustments` add to sampled pixel
/// (`x`, `y`), each position clamped to the image.
pub open spec fn adjustment_sum(
    source: PixelImage,
    factor: int,
    y: int,
    x: int,
    channel: int,
    adjustments: Seq<(usize, usize, i64)>,
) -> int
    decreases adjustments.len(),
{
    if adjustments.len() == 0 {
        0
    } else {
        let (dx, dy, weight) = adjustments[0];
        weight * source.rgb_byte(
            at_most(y * factor + dy, source.height - 1),
            at_most(x * factor + dx, source.width - 1),
            channel,
        ) + adjustment_sum(source, factor, y, x, channel, adjustments.drop_first())
    }
}

/// Channel `channel` of sampled pixel (`x`, `y`), weighted out of 65536.
pub open spec fn weighted_value(source: PixelImage, factor: int, y: int, x: int, channel: int) -> int {
    box_unit(factor) * box_sum(source, factor, y, x, channel, factor * factor) + adjustment_sum(
        source,
        factor,
        y,
        x,
        channel,
        box_adjustments(factor),
    )
}

/// Channel `channel` of sampled pixel (`x`, `y`) of a row `width` pixels
/// wide: the weighted value rounded up to eight bits, through an 8-bit
/// opacity factor in the last column as the general scaler's clamped edge does.
pub open spec fn sampled_byte(
    source: PixelImage,
    factor: int,
    width: int,
    y: int,
    x: int,
    channel: int,
) -> u8 {
    let value = weighted_value(source, factor, y, x, channel);
    if x + 1 == width {
        ((value * 255 + 0xff_ffff) / 0x100_0000) as u8
    } else {
        ((value + 0xffff) / 0x1_0000) as u8
    }
}

/// The facts about box weights that sampling relies on, for one factor.
pub open spec fn box_weights_fit(factor: int) -> bool {
    let count = factor * factor;
    let unit = box_unit(factor);
    let correction = box_correction(factor);
    let deficit = -correction;
    let divisor = (deficit + unit - 1) / unit;
    &&& 72 <= unit <= 16384
    &&& -450 <= correction <= 450
    &&& correction < 0 ==> {
        &&& 1 <= divisor
        &&& 1 <= deficit / divisor <= unit
        &&& deficit <= count * (deficit / divisor)
    }
}

proof fn lemma_box_weights(factor: int)
    requires
        2 <= factor <= 30,
    ensures
        box_weights_fit(factor),
{
    let count = factor * factor;
    let half = count / 2;
    let unit = box_unit(factor);
    let rest = (65536 + half) % count;
    assert(4 <= count <= 900) by (nonlinear_arith)
        requires
            2 <= factor <= 30,
            count == factor * factor,
    ;
    vstd::arithmetic::div_mod::lemma_fundamental_div_mod(65536 + half, count);
    assert(65536 + half == count * unit + rest);
    assert(0 <= rest < count);
    assert(72 <= unit <= 16384) by (nonlinear_arith)
        requires
            4 <= count <= 900,
            65536 + half == count * unit + rest,
            0 <= rest < count,
            half == count / 2,
    ;
    let correction = box_correction(factor);
    assert(correction == rest - half);
    if correction < 0 {
        let deficit = -correction;
        let divisor = (deficit + unit - 1) / unit;
        assert(1 <= divisor <= deficit) by (nonlinear_arith)
            requires
                1 <= deficit <= 450,
                72 <= unit,
                divisor == (deficit + unit - 1) / unit,
        ;
        assert(deficit <= divisor * unit) by (nonlinear_arith)
            requires
                1 <= deficit,
                72 <= unit,
                divisor == (deficit + unit - 1) / unit,
        ;
        let chunk = deficit / divisor;
        assert(1 <= chunk <= unit) by (nonlinear_arith)
            requires
                1 <= divisor <= deficit,
                deficit <= divisor * unit,
                chunk == deficit / divisor,
        ;
        assert(deficit <= count * chunk) by (nonlinear_arith)
            requires
                deficit <= half,
                half == count / 2,
                1 <= chunk,
                4 <= count,
        ;
    }
}

/// The total weight that a list of reductions takes away.
pub open spec fn reduction_total(adjustments: Seq<(usize, usize, i64)>) -> int
    decreases adjustments.len(),
{
    if adjustments.len() == 0 {
        0
    } else {
        -adjustments[0].2 + reduction_total(adjustments.drop_first())
    }
}

proof fn lemma_box_sum_bounds(source: PixelImage, factor: int, y: int, x: int, channel: int, count: int)
    requires
        count >= 0,
    ensures
        0 <= box_sum(source, factor, y, x, channel, count) <= 255 * count,
    decreases count,
{
    if count > 0 {
        lemma_box_sum_bounds(source, factor, y, x, channel, count - 1);
    }
}

/// The positions of a box, in row-major order, lie inside the box.
proof fn lemma_box_position(factor: int, index: int)
    requires
        1 <= factor,
        0 <= index < factor * factor,
    ensures
        0 <= index / factor < factor,
        0 <= index % factor < factor,
{
    vstd::arithmetic::div_mod::lemma_fundamental_div_mod(index, factor);
    assert(index / factor < factor) by (nonlinear_arith)
        requires
            0 <= index < factor * factor,
            index == factor * (index / factor) + index % factor,
            0 <= index % factor,
            1 <= factor,
    ;
    assert(0 <= index / factor) by (nonlinear_arith)
        requires
            0 <= index,
            1 <= factor,
    ;
}

proof fn lemma_trailing_reductions(
    source: PixelImage,
    factor: int,
    y: int,
    x: int,
    channel: int,
    next: int,
    remaining: int,
    chunk: int,
    unit: int,
)
    requires
        1 <= factor <= 30,
        0 <= y,
        0 <= x,
        (y + 1) * factor <= source.height,
        (x + 1) * factor <= source.width,
        0 <= next <= factor * factor,
        0 <= remaining,
        0 <= chunk <= unit <= 65536,
    ensures
        ({
            let reductions = trailing_reductions(factor, next, remaining, chunk);
            let value = unit * box_sum(source, factor, y, x, channel, next) + adjustment_sum(
                source,
                factor,
                y,
                x,
                channel,
                reductions,
            );
            &&& 0 <= value
            &&& value <= 255 * (unit * next - reduction_total(reductions))
            &&& remaining <= next * chunk && 1 <= chunk ==> reduction_total(reductions)
                == remaining
        }),
    decreases next,
{
    let reductions = trailing_reductions(factor, next, remaining, chunk);
    lemma_box_sum_bounds(source, factor, y, x, channel, next);
    if next <= 0 || remaining <= 0 {
        assert(reductions.len() == 0);
        assert(reduction_total(reductions) == 0);
        assert(adjustment_sum(source, factor, y, x, channel, reductions) == 0);
        assert(next * chunk >= 0 ==> remaining <= next * chunk ==> remaining == 0 || next > 0);
        assert(unit * box_sum(source, factor, y, x, channel, next) >= 0) by (nonlinear_arith)
            requires
                0 <= box_sum(source, factor, y, x, channel, next),
                0 <= unit,
        ;
        assert(unit * box_sum(source, factor, y, x, channel, next) <= 255 * (unit * next))
            by (nonlinear_arith)
            requires
                box_sum(source, factor, y, x, channel, next) <= 255 * next,
                0 <= unit,
        ;
    } else {
        let amount = if remaining < chunk {
            remaining
        } else {
            chunk
        };
        let rest = trailing_reductions(factor, next - 1, remaining - amount, chunk);
        lemma_trailing_reductions(
            source,
            factor,
            y,
            x,
            channel,
            next - 1,
            remaining - amount,
            chunk,
            unit,
        );
        lemma_box_position(factor, next - 1);
        let dx = (next - 1) % factor;
        let dy = (next - 1) / factor;
        assert(reductions[0] == (dx as usize, dy as usize, (-amount) as i64));
        assert(reductions[0].2 == -amount);
        assert(reductions[0].0 == dx && reductions[0].1 == dy);
        assert(reductions.drop_first() =~= rest);
        assert(y * factor + dy <= source.height - 1) by (nonlinear_arith)
            requires
                (y + 1) * factor <= source.height,
                dy < factor,
        ;
        assert(x * factor + dx <= source.width - 1) by (nonlinear_arith)
            requires
                (x + 1) * factor <= source.width,
                dx < factor,
        ;
        let byte = source.rgb_byte(y * factor + dy, x * factor + dx, channel);
        assert(0 <= byte <= 255);
        assert(adjustment_sum(source, factor, y, x, channel, reductions) == -amount * byte
            + adjustment_sum(source, factor, y, x, channel, rest));
        assert(box_sum(source, factor, y, x, channel, next) == box_sum(
            source,
            factor,
            y,
            x,
            channel,
            next - 1,
        ) + byte);
        assert(reduction_total(reductions) == amount + reduction_total(rest));
        let before = unit * box_sum(source, factor, y, x, channel, next - 1) + adjustment_sum(
            source,
            factor,
            y,
            x,
            channel,
            rest,
        );
        assert(unit * box_sum(source, factor, y, x, channel, next) + adjustment_sum(
            source,
            factor,
            y,
            x,
            channel,
            reductions,
        ) == before + (unit - amount) * byte) by (nonlinear_arith)
            requires
                box_sum(source, factor, y, x, channel, next) == box_sum(
                    source,
                    factor,
                    y,
                    x,
                    channel,
                    next - 1,
                ) + byte,
                adjustment_sum(source, factor, y, x, channel, reductions) == -amount * byte
                    + adjustment_sum(source, factor, y, x, channel, rest),
                before == unit * box_sum(source, factor, y, x, channel, next - 1)
                    + adjustment_sum(source, factor, y, x, channel, rest),
        ;
        assert(unit * next == unit * (next - 1) + unit) by (nonlinear_arith);
        assert(0 <= (unit - amount) * byte <= 255 * (unit - amount)) by (nonlinear_arith)
            requires
                0 <= amount <= unit,
                0 <= byte <= 255,
        ;
        if remaining <= next * chunk && 1 <= chunk {
            assert(remaining - amount <= (next - 1) * chunk) by (nonlinear_arith)
                requires
                    remaining <= next * chunk,
                    amount == if remaining < chunk {
                        remaining
                    } else {
                        chunk
                    },
                    1 <= chunk,
                    0 < remaining,
            ;
        }
    }
}

proof fn lemma_trailing_shape(factor: int, next: int, remaining: int, chunk: int)
    requires
        1 <= factor <= 30,
        0 <= next <= factor * factor,
        0 <= chunk <= 65536,
    ensures
        ({
            let reductions = trailing_reductions(factor, next, remaining, chunk);
            &&& reductions.len() <= next
            &&& forall|j: int|
                0 <= j < reductions.len() ==> {
                    &&& -chunk <= #[trigger] reductions[j].2 <= 0
                    &&& reductions[j].0 < factor
                    &&& reductions[j].1 < factor
                }
        }),
    decreases next,
{
    let reductions = trailing_reductions(factor, next, remaining, chunk);
    if next > 0 && remaining > 0 {
        let amount = if remaining < chunk {
            remaining
        } else {
            chunk
        };
        let rest = trailing_reductions(factor, next - 1, remaining - amount, chunk);
        lemma_trailing_shape(factor, next - 1, remaining - amount, chunk);
        lemma_box_position(factor, next - 1);
        assert forall|j: int| 0 <= j < reductions.len() implies {
            &&& -chunk <= #[trigger] reductions[j].2 <= 0
            &&& reductions[j].0 < factor
            &&& reductions[j].1 < factor
        } by {
            if j > 0 {
                assert(reductions[j] == rest[j - 1]);
            }
        }
    }
}

/// What the exec side needs to know of a box's adjustments: few, small, and
/// never further than one box away.
proof fn lemma_box_adjustments_shape(factor: int)
    requires
        2 <= factor <= 30,
    ensures
        box_adjustments(factor).len() <= 900,
        forall|j: int|
            0 <= j < box_adjustments(factor).len() ==> {
                &&& -65536 <= #[trigger] box_adjustments(factor)[j].2 <= 65536
                &&& box_adjustments(factor)[j].0 <= factor
                &&& box_adjustments(factor)[j].1 <= factor
            },
{
    lemma_box_weights(factor);
    let count = factor * factor;
    assert(4 <= count <= 900) by (nonlinear_arith)
        requires
            2 <= factor <= 30,
            count == factor * factor,
    ;
    let unit = box_unit(factor);
    let correction = box_correction(factor);
    if correction < 0 {
        let deficit = -correction;
        let divisor = (deficit + unit - 1) / unit;
        lemma_trailing_shape(factor, count, deficit, deficit / divisor);
    }
}

/// The weights of a box total 65536 and none is negative, so each weighted
/// channel value lies between zero and 255 x 65536: the sampled byte is a
/// rounded weighted mean of the box, never wrapped.
pub proof fn lemma_weighted_value_bounds(
    source: PixelImage,
    width: int,
    height: int,
    y: int,
    x: int,
    channel: int,
)
    requires
        width >= 1,
        has_integer_reduction(source, width, height),
        0 <= y < height,
        0 <= x < width,
    ensures
        0 <= weighted_value(source, reduction_factor(source, width), y, x, channel) <= 255
            * 65536,
{
    let factor = reduction_factor(source, width);
    lemma_box_weights(factor);
    let count = factor * factor;
    let unit = box_unit(factor);
    let correction = box_correction(factor);
    let sum = box_sum(source, factor, y, x, channel, count);
    assert(0 <= count) by (nonlinear_arith)
        requires
            count == factor * factor,
    ;
    lemma_box_sum_bounds(source, factor, y, x, channel, count);
    assert((y + 1) * factor <= source.height) by (nonlinear_arith)
        requires
            y + 1 <= height,
            source.height == height * factor,
            2 <= factor,
    ;
    assert((x + 1) * factor <= source.width) by (nonlinear_arith)
        requires
            x + 1 <= width,
            source.width == width * factor,
            2 <= factor,
    ;
    if correction > 0 {
        let adjustments = box_adjustments(factor);
        assert(adjustments.len() == 1);
        assert(adjustments[0].2 == correction);
        assert(adjustments.drop_first() =~= Seq::<(usize, usize, i64)>::empty());
        let byte = source.rgb_byte(
            at_most(y * factor + factor, source.height - 1),
            at_most(x * factor + factor, source.width - 1),
            channel,
        );
        assert(0 <= byte <= 255);
        assert(adjustment_sum(source, factor, y, x, channel, adjustments.drop_first()) == 0);
        assert(adjustments[0].0 as int == factor && adjustments[0].1 as int == factor);
        assert(adjustment_sum(source, factor, y, x, channel, adjustments) == correction * byte);
        assert(0 <= unit * sum + correction * byte <= 255 * 65536) by (nonlinear_arith)
            requires
                0 <= sum <= 255 * count,
                0 <= byte <= 255,
                0 < correction,
                72 <= unit,
                unit * count + correction == 65536,
        ;
    } else if correction == 0 {
        assert(adjustment_sum(source, factor, y, x, channel, box_adjustments(factor)) == 0);
        assert(0 <= unit * sum <= 255 * 65536) by (nonlinear_arith)
            requires
                0 <= sum <= 255 * count,
                72 <= unit,
                unit * count == 65536,
        ;
    } else {
        let deficit = -correction;
        let divisor = (deficit + unit - 1) / unit;
        let chunk = deficit / divisor;
        lemma_trailing_reductions(source, factor, y, x, channel, count, deficit, chunk, unit);
        assert(box_adjustments(factor) == trailing_reductions(factor, count, deficit, chunk));
    }
}

/// Byte `index` of a strip of `rows` sampled rows starting at row `start`,
/// each row `stride` bytes: three channels per sampled pixel, then zeros.
pub open spec fn strip_byte(
    source: PixelImage,
    factor: int,
    width: int,
    start: int,
    stride: int,
    index: int,
) -> u8 {
    let row = index / stride;
    let offset = index % stride;
    if offset < width * 3 {
        sampled_byte(source, factor, width, start + row, offset / 3, offset % 3)
    } else {
        0
    }
}

/// The bytes of a sampled strip.
pub open spec fn strip_bytes(
    source: PixelImage,
    width: int,
    start: int,
    rows: int,
    stride: int,
) -> Seq<u8> {
    Seq::new(
        (stride * rows) as nat,
        |index: int| strip_byte(source, reduction_factor(source, width), width, start, stride, index),
    )
}

/// The length of a row of `width` RGB pixels padded to four bytes.
pub open spec fn padded_row_length(width: int) -> int {
    (width * 3 + 3) / 4 * 4
}

/// A pixel of an RGB image and its channels lie inside the buffer.
proof fn lemma_pixel_in_buffer(source: PixelImage, row: int, column: int)
    requires
        source.well_formed(),
        source.n_channels == 3,
        0 <= row < source.height,
        0 <= column < source.width,
    ensures
        0 <= row * source.rowstride,
        row * source.rowstride + column * 3 + 2 < source.pixels@.len(),
{
    assert(0 <= row * source.rowstride <= (source.height - 1) * source.rowstride)
        by (nonlinear_arith)
        requires
            0 <= row <= source.height - 1,
            0 <= source.rowstride,
    ;
}

fn box_adjustments_for(factor: usize) -> (adjustments: Vec<(usize, usize, i64)>)
    requires
        2 <= factor <= 30,
    ensures
        adjustments@ == box_adjustments(factor as int),
{
    proof {
        lemma_box_weights(factor as int);
    }
    assert(factor * factor <= 900) by (nonlinear_arith)
        requires
            factor <= 30,
    ;
    let count = factor * factor;
    let unit: i64 = ((65536 + count / 2) / count) as i64;
    assert(unit * count <= 16384 * 900) by (nonlinear_arith)
        requires
            unit <= 16384,
            count <= 900,
    ;
    let correction: i64 = 65536 - unit * (count as i64);
    let mut adjustments: Vec<(usize, usize, i64)> = Vec::new();
    if correction > 0 {
        adjustments.push((factor, factor, correction));
    } else if correction < 0 {
        let deficit: i64 = -correction;
        let divisor: i64 = (deficit + unit - 1) / unit;
        let chunk: i64 = deficit / divisor;
        let mut remaining: i64 = deficit;
        let mut index: usize = count;
        while index > 0 && remaining > 0
            invariant
                2 <= factor <= 30,
                count == factor * factor,
                index <= count,
                0 <= remaining <= deficit,
                1 <= chunk <= 16384,
                adjustments@ + trailing_reductions(factor as int, index as int, remaining as int, chunk as int)
                    == trailing_reductions(factor as int, count as int, deficit as int, chunk as int),
            decreases index,
        {
            let ghost before = adjustments@;
            index = index - 1;
            let amount: i64 = if remaining < chunk {
                remaining
            } else {
                chunk
            };
            adjustments.push((index % factor, index / factor, -amount));
            remaining = remaining - amount;
            assert(trailing_reductions(factor as int, index + 1, remaining + amount, chunk as int)
                == seq![((index % factor) as usize, (index / factor) as usize, (-amount) as i64)]
                + trailing_reductions(factor as int, index as int, remaining as int, chunk as int));
            assert(adjustments@ + trailing_reductions(factor as int, index as int, remaining as int, chunk as int)
                =~= before + trailing_reductions(factor as int, index + 1, remaining + amount, chunk as int));
        }
        assert(trailing_reductions(factor as int, index as int, remaining as int, chunk as int)
            =~= Seq::<(usize, usize, i64)>::empty());
        assert(adjustments@ =~= adjustments@ + Seq::<(usize, usize, i64)>::empty());
    }
    adjustments
}

/// The channel sums of the box of sampled pixel (`x`, `y`).
fn box_channel_sums(source: &PixelImage, factor: usize, y: usize, x: usize) -> (sums: (u32, u32, u32))
    requires
        source.well_formed(),
        source.n_channels == 3,
        2 <= factor <= 30,
        (y + 1) * factor <= source.height,
        (x + 1) * factor <= source.width,
    ensures
        sums.0 == box_sum(*source, factor as int, y as int, x as int, 0, factor * factor),
        sums.1 == box_sum(*source, factor as int, y as int, x as int, 1, factor * factor),
        sums.2 == box_sum(*source, factor as int, y as int, x as int, 2, factor * factor),
{
    let ghost image = *source;
    let ghost f = factor as int;
    let length = source.pixels.len();
    let stride = source.rowstride as usize;
    assert(y * factor + factor <= source.height) by (nonlinear_arith)
        requires
            (y + 1) * factor <= source.height,
    ;
    assert(x * factor + factor <= source.width) by (nonlinear_arith)
        requires
            (x + 1) * factor <= source.width,
    ;
    let mut red: u32 = 0;
    let mut green: u32 = 0;
    let mut blue: u32 = 0;
    let mut dy: usize = 0;
    assert(factor * factor <= 900) by (nonlinear_arith)
        requires
            factor <= 30,
    ;
    while dy < factor
        invariant
            image == *source,
            f == factor,
            source.well_formed(),
            source.n_channels == 3,
            stride == source.rowstride,
            2 <= factor <= 30,
            factor * factor <= 900,
            (y + 1) * factor <= source.height,
            (x + 1) * factor <= source.width,
            dy <= factor,
            red == box_sum(image, f, y as int, x as int, 0, dy * f),
            green == box_sum(image, f, y as int, x as int, 1, dy * f),
            blue == box_sum(image, f, y as int, x as int, 2, dy * f),
            dy * f <= 900,
            length == source.pixels@.len(),
            y * factor + factor <= source.height,
            x * factor + factor <= source.width,
        decreases factor - dy,
    {
        let row = y * factor + dy;
        assert(row < source.height) by (nonlinear_arith)
            requires
                row == y * factor + dy,
                dy < factor,
                (y + 1) * factor <= source.height,
        ;
        let mut dx: usize = 0;
        while dx < factor
            invariant
                image == *source,
                f == factor,
                source.well_formed(),
                source.n_channels == 3,
                stride == source.rowstride,
                2 <= factor <= 30,
                (y + 1) * factor <= source.height,
                (x + 1) * factor <= source.width,
                dy < factor,
                row == y * factor + dy,
                row < source.height,
                dx <= factor,
                dy * f + dx <= 900,
                red == box_sum(image, f, y as int, x as int, 0, dy * f + dx),
                green == box_sum(image, f, y as int, x as int, 1, dy * f + dx),
                blue == box_sum(image, f, y as int, x as int, 2, dy * f + dx),
                length == source.pixels@.len(),
                y * factor + factor <= source.height,
                x * factor + factor <= source.width,
            decreases factor - dx,
        {
            let column = x * factor + dx;
            assert(column < source.width) by (nonlinear_arith)
                requires
                    column == x * factor + dx,
                    dx < factor,
                    (x + 1) * factor <= source.width,
            ;
            proof {
                lemma_pixel_in_buffer(image, row as int, column as int);
                lemma_box_sum_bounds(image, f, y as int, x as int, 0, dy * f + dx);
                lemma_box_sum_bounds(image, f, y as int, x as int, 1, dy * f + dx);
                lemma_box_sum_bounds(image, f, y as int, x as int, 2, dy * f + dx);
                vstd::arithmetic::div_mod::lemma_fundamental_div_mod_converse(
                    dy * f + dx,
                    f,
                    dy as int,
                    dx as int,
                );
            }
            let at = row * stride + column * 3;
            red = red + source.pixels[at] as u32;
            green = green + source.pixels[at + 1] as u32;
            blue = blue + source.pixels[at + 2] as u32;
            dx = dx + 1;
            assert(dy * f + dx <= 900) by (nonlinear_arith)
                requires
                    dy < f,
                    dx <= f,
                    f <= 30,
            ;
        }
        dy = dy + 1;
        assert(dy * f == (dy - 1) * f + f) by (nonlinear_arith);
    }
    (red, green, blue)
}

/// One channel of a sampled pixel from its weighted value.
fn rounded_channel(value: i64, last_column: bool) -> (byte: u8)
    requires
        0 <= value <= 255 * 65536,
    ensures
        byte == if last_column {
            ((value * 255 + 0xff_ffff) / 0x100_0000) as u8
        } else {
            ((value + 0xffff) / 0x1_0000) as u8
        },
{
    let value = value as u64;
    if last_column {
        let scaled: u64 = value * 255 + 0xff_ffff;
        assert(scaled >> 24u64 == scaled / 0x100_0000) by (bit_vector);
        (scaled >> 24u64) as u8
    } else {
        let rounded: u64 = value + 0xffff;
        assert(rounded >> 16u64 == rounded / 0x1_0000) by (bit_vector);
        (rounded >> 16u64) as u8
    }
}

/// The three channels of sampled pixel (`x`, `y`).
fn sample_pixel(
    source: &PixelImage,
    width: usize,
    height: usize,
    factor: usize,
    unit: i64,
    adjustments: &Vec<(usize, usize, i64)>,
    y: usize,
    x: usize,
) -> (channels: (u8, u8, u8))
    requires
        source.well_formed(),
        width >= 1,
        has_integer_reduction(*source, width as int, height as int),
        factor == reduction_factor(*source, width as int),
        unit == box_unit(factor as int),
        adjustments@ == box_adjustments(factor as int),
        y < height,
        x < width,
    ensures
        channels.0 == sampled_byte(*source, factor as int, width as int, y as int, x as int, 0),
        channels.1 == sampled_byte(*source, factor as int, width as int, y as int, x as int, 1),
        channels.2 == sampled_byte(*source, factor as int, width as int, y as int, x as int, 2),
{
    let ghost image = *source;
    let ghost f = factor as int;
    proof {
        lemma_box_weights(f);
        lemma_box_adjustments_shape(f);
        lemma_weighted_value_bounds(image, width as int, height as int, y as int, x as int, 0);
        lemma_weighted_value_bounds(image, width as int, height as int, y as int, x as int, 1);
        lemma_weighted_value_bounds(image, width as int, height as int, y as int, x as int, 2);
        lemma_box_sum_bounds(image, f, y as int, x as int, 0, f * f);
        lemma_box_sum_bounds(image, f, y as int, x as int, 1, f * f);
        lemma_box_sum_bounds(image, f, y as int, x as int, 2, f * f);
    }
    assert((y + 1) * factor <= source.height) by (nonlinear_arith)
        requires
            y + 1 <= height,
            source.height == height * factor,
            2 <= factor,
    ;
    assert((x + 1) * factor <= source.width) by (nonlinear_arith)
        requires
            x + 1 <= width,
            source.width == width * factor,
            2 <= factor,
    ;
    assert(factor * factor <= 900) by (nonlinear_arith)
        requires
            factor <= 30,
    ;
    let (red, green, blue) = box_channel_sums(source, factor, y, x);
    assert(y * factor + factor <= source.height) by (nonlinear_arith)
        requires
            (y + 1) * factor <= source.height,
    ;
    assert(x * factor + factor <= source.width) by (nonlinear_arith)
        requires
            (x + 1) * factor <= source.width,
    ;
    assert(red * unit <= 255 * 900 * 16384 && green * unit <= 255 * 900 * 16384 && blue * unit
        <= 255 * 900 * 16384) by (nonlinear_arith)
        requires
            red <= 255 * (factor * factor),
            green <= 255 * (factor * factor),
            blue <= 255 * (factor * factor),
            factor * factor <= 900,
            0 <= unit <= 16384,
    ;
    let length = source.pixels.len();
    let stride = source.rowstride as usize;
    let last_row = (source.height - 1) as usize;
    let last_column = (source.width - 1) as usize;
    let mut weighted_red: i64 = red as i64 * unit;
    let mut weighted_green: i64 = green as i64 * unit;
    let mut weighted_blue: i64 = blue as i64 * unit;
    let ghost base = (red as int * unit, green as int * unit, blue as int * unit);
    let mut index: usize = 0;
    let limit: i64 = 255 * 65536;
    assert(adjustments@.skip(0) =~= adjustments@);
    assert(weighted_red == unit * red && weighted_green == unit * green && weighted_blue == unit
        * blue) by (nonlinear_arith)
        requires
            weighted_red == red * unit,
            weighted_green == green * unit,
            weighted_blue == blue * unit,
    ;
    while index < adjustments.len()
        invariant
            image == *source,
            f == factor,
            source.well_formed(),
            source.n_channels == 3,
            stride == source.rowstride,
            last_row == source.height - 1,
            last_column == source.width - 1,
            source.height >= 1,
            source.width >= 1,
            (y + 1) * factor <= source.height,
            (x + 1) * factor <= source.width,
            adjustments@ == box_adjustments(f),
            adjustments@.len() <= 900,
            forall|j: int|
                0 <= j < adjustments@.len() ==> {
                    &&& -65536 <= #[trigger] adjustments@[j].2 <= 65536
                    &&& adjustments@[j].0 <= factor
                    &&& adjustments@[j].1 <= factor
                },
            index <= adjustments@.len(),
            0 <= base.0 <= 255 * 900 * 16384,
            0 <= base.1 <= 255 * 900 * 16384,
            0 <= base.2 <= 255 * 900 * 16384,
            -(index as int * limit) <= weighted_red - base.0 <= index as int * limit,
            -(index as int * limit) <= weighted_green - base.1 <= index as int * limit,
            -(index as int * limit) <= weighted_blue - base.2 <= index as int * limit,
            limit == 255 * 65536,
            length == source.pixels@.len(),
            y * factor + factor <= source.height,
            x * factor + factor <= source.width,
            weighted_red + adjustment_sum(image, f, y as int, x as int, 0, adjustments@.skip(index as int))
                == weighted_value(image, f, y as int, x as int, 0),
            weighted_green + adjustment_sum(image, f, y as int, x as int, 1, adjustments@.skip(index as int))
                == weighted_value(image, f, y as int, x as int, 1),
            weighted_blue + adjustment_sum(image, f, y as int, x as int, 2, adjustments@.skip(index as int))
                == weighted_value(image, f, y as int, x as int, 2),
        decreases adjustments.len() - index,
    {
        let (dx, dy, weight) = adjustments[index];
        let wanted_row = y * factor + dy;
        let row = if wanted_row < last_row {
            wanted_row
        } else {
            last_row
        };
        let wanted_column = x * factor + dx;
        let column = if wanted_column < last_column {
            wanted_column
        } else {
            last_column
        };
        proof {
            lemma_pixel_in_buffer(image, row as int, column as int);
            let rest = adjustments@.skip(index as int);
            assert(rest[0] == adjustments@[index as int]);
            assert(rest.drop_first() =~= adjustments@.skip(index + 1));
        }
        let at = row * stride + column * 3;
        let red_byte = source.pixels[at] as i64;
        let green_byte = source.pixels[at + 1] as i64;
        let blue_byte = source.pixels[at + 2] as i64;
        assert(-limit <= weight * red_byte <= limit) by (nonlinear_arith)
            requires
                -65536 <= weight <= 65536,
                0 <= red_byte <= 255,
                limit == 255 * 65536,
        ;
        assert(-limit <= weight * green_byte <= limit) by (nonlinear_arith)
            requires
                -65536 <= weight <= 65536,
                0 <= green_byte <= 255,
                limit == 255 * 65536,
        ;
        assert(-limit <= weight * blue_byte <= limit) by (nonlinear_arith)
            requires
                -65536 <= weight <= 65536,
                0 <= blue_byte <= 255,
                limit == 255 * 65536,
        ;
        assert(index as int * limit <= 900 * limit && (index + 1) * limit == index as int * limit
            + limit) by (nonlinear_arith)
            requires
                index < 900,
                limit == 255 * 65536,
        ;
        weighted_red = weighted_red + weight * red_byte;
        weighted_green = weighted_green + weight * green_byte;
        weighted_blue = weighted_blue + weight * blue_byte;
        index = index + 1;
    }
    assert(adjustments@.skip(index as int) =~= Seq::<(usize, usize, i64)>::empty());
    let last = x + 1 == width;
    (
        rounded_channel(weighted_red, last),
        rounded_channel(weighted_green, last),
        rounded_channel(weighted_blue, last),
    )
}

/// Samples rows `start` to `start + rows` of `source` reduced to `width` x
/// `height`, where that reduction is an opaque RGB box reduction by a whole
/// factor from two to thirty: each sampled pixel weighs its box of source
/// pixels with integer weights that total 65536 and is rounded as the general
/// bilinear scaler rounds it. Gives the rows, each padded to four bytes, and
/// their length; `None` where the reduction is of another kind.
pub fn sample_integer_strip(
    source: &PixelImage,
    width: i32,
    height: i32,
    start: i32,
    rows: i32,
) -> (sample: Option<(Vec<u8>, i32)>)
    requires
        source.well_formed(),
        width >= 1,
        width * 3 + 3 <= i32::MAX,
        has_integer_reduction(*source, width as int, height as int) ==> {
            &&& 0 <= start
            &&& 0 <= rows
            &&& start + rows <= height
            &&& padded_row_length(width as int) * rows <= i32::MAX
        },
    ensures
        sample is Some <==> has_integer_reduction(*source, width as int, height as int),
        sample matches Some((bytes, stride)) ==> {
            &&& stride == padded_row_length(width as int)
            &&& bytes@ == strip_bytes(*source, width as int, start as int, rows as int, stride as int)
        },
{
    let factor = ((source.width as u32) / (width as u32)) as i32;
    proof {
        vstd::arithmetic::div_mod::lemma_fundamental_div_mod(source.width as int, width as int);
        assert(width * factor <= source.width) by (nonlinear_arith)
            requires
                source.width == width * factor + source.width % width,
                0 <= source.width % width,
        ;
    }
    if source.has_alpha || source.n_channels != 3 || !(2 <= factor && factor <= 30)
        || source.width != width * factor {
        return None;
    }
    assert(-0x1_0000_0000 * 30 <= height * factor <= 0x1_0000_0000 * 30) by (nonlinear_arith)
        requires
            2 <= factor <= 30,
    ;
    if (source.height as i64) != (height as i64) * (factor as i64) {
        return None;
    }
    let ghost image = *source;
    let ghost reduction = factor as int;
    assert(factor == source.width as int / width as int);
    assert(reduction == reduction_factor(image, width as int));
    assert(height >= 1) by (nonlinear_arith)
        requires
            source.height == height * factor,
            source.height >= 1,
            factor >= 2,
    ;
    let scale = factor as usize;
    let target_width = width as usize;
    let target_height = height as usize;
    assert(4 <= scale * scale <= 900) by (nonlinear_arith)
        requires
            2 <= scale <= 30,
    ;
    let count = scale * scale;
    let unit: i64 = ((65536 + count / 2) / count) as i64;
    proof {
        lemma_box_weights(reduction);
    }
    let adjustments = box_adjustments_for(scale);
    let padded: i32 = width * 3 + 3;
    let stride: i32 = padded & !3i32;
    assert(stride == padded / 4 * 4) by (bit_vector)
        requires
            stride == padded & !3i32,
            0 <= padded,
    ;
    let row_length = stride as usize;
    assert(3 * target_width <= row_length);
    let first_row = start as usize;
    let row_count = rows as usize;
    let mut bytes: Vec<u8> = Vec::new();
    let mut row: usize = 0;
    while row < row_count
        invariant
            image == *source,
            reduction == factor,
            reduction == reduction_factor(image, width as int),
            source.well_formed(),
            width >= 1,
            has_integer_reduction(image, width as int, height as int),
            scale == factor,
            target_width == width,
            target_height == height,
            unit == box_unit(reduction),
            adjustments@ == box_adjustments(reduction),
            row_length == stride,
            stride == padded_row_length(width as int),
            3 * target_width <= row_length,
            first_row == start,
            row_count == rows,
            start + rows <= height,
            stride * rows <= i32::MAX,
            row <= row_count,
            bytes@.len() == row * row_length,
            forall|k: int|
                0 <= k < bytes@.len() ==> #[trigger] bytes@[k] == strip_byte(
                    image,
                    reduction,
                    width as int,
                    start as int,
                    stride as int,
                    k,
                ),
        decreases row_count - row,
    {
        let y = first_row + row;
        let mut x: usize = 0;
        assert((row + 1) * row_length <= i32::MAX && row * row_length + row_length == (row + 1)
            * row_length) by (nonlinear_arith)
            requires
                row < row_count,
                row_length * row_count <= i32::MAX,
        ;
        while x < target_width
            invariant
                image == *source,
                reduction == factor,
                reduction == reduction_factor(image, width as int),
                source.well_formed(),
                width >= 1,
                has_integer_reduction(image, width as int, height as int),
                scale == factor,
                target_width == width,
                target_height == height,
                unit == box_unit(reduction),
                adjustments@ == box_adjustments(reduction),
                row_length == stride,
                3 * target_width <= row_length,
                y == start + row,
                y < height,
                row < row_count,
                (row + 1) * row_length <= i32::MAX,
                row * row_length + row_length == (row + 1) * row_length,
                x <= target_width,
                bytes@.len() == row * row_length + 3 * x,
                forall|k: int|
                    0 <= k < bytes@.len() ==> #[trigger] bytes@[k] == strip_byte(
                        image,
                        reduction,
                        width as int,
                        start as int,
                        stride as int,
                        k,
                    ),
            decreases target_width - x,
        {
            let (red, green, blue) = sample_pixel(
                source,
                target_width,
                target_height,
                scale,
                unit,
                &adjustments,
                y,
                x,
            );
            let ghost before = bytes@;
            bytes.push(red);
            bytes.push(green);
            bytes.push(blue);
            proof {
                assert forall|k: int| 0 <= k < bytes@.len() implies #[trigger] bytes@[k]
                    == strip_byte(image, reduction, width as int, start as int, stride as int, k) by {
                    if k >= before.len() {
                        let channel = k - before.len();
                        let offset = 3 * x + channel;
                        vstd::arithmetic::div_mod::lemma_fundamental_div_mod_converse(
                            k,
                            stride as int,
                            row as int,
                            offset,
                        );
                        vstd::arithmetic::div_mod::lemma_fundamental_div_mod_converse(
                            offset,
                            3,
                            x as int,
                            channel,
                        );
                    } else {
                        assert(bytes@[k] == before[k]);
                    }
                }
            }
            x = x + 1;
        }
        let mut offset: usize = 3 * target_width;
        while offset < row_length
            invariant
                row_length == stride,
                3 * target_width <= offset <= row_length,
                target_width == width,
                row < row_count,
                (row + 1) * row_length <= i32::MAX,
                row * row_length + row_length == (row + 1) * row_length,
                bytes@.len() == row * row_length + offset,
                forall|k: int|
                    0 <= k < bytes@.len() ==> #[trigger] bytes@[k] == strip_byte(
                        image,
                        reduction,
                        width as int,
                        start as int,
                        stride as int,
                        k,
                    ),
            decreases row_length - offset,
        {
            let ghost before = bytes@;
            bytes.push(0);
            proof {
                assert forall|k: int| 0 <= k < bytes@.len() implies #[trigger] bytes@[k]
                    == strip_byte(image, reduction, width as int, start as int, stride as int, k) by {
                    if k == before.len() {
                        vstd::arithmetic::div_mod::lemma_fundamental_div_mod_converse(
                            k,
                            stride as int,
                            row as int,
                            offset as int,
                        );
                    } else {
                        assert(bytes@[k] == before[k]);
                    }
                }
            }
            offset = offset + 1;
        }
        row = row + 1;
    }
    assert(row_count * row_length == stride * rows) by (nonlinear_arith)
        requires
            row_count == rows,
            row_length == stride,
    ;
    assert(bytes@ =~= strip_bytes(image, width as int, start as int, rows as int, stride as int));
    Some((bytes, stride))
}

/// How many workers sample an image `height` rows high: one per row, at most four.
pub open spec fn sampling_workers(height: int) -> int {
    if height < 4 {
        height
    } else {
        4
    }
}

/// The first row of strip `index` of an image `height` rows high.
pub open spec fn strip_start(height: int, index: int) -> int {
    index * height / sampling_workers(height)
}

/// The strips, as (first row, row count), that the sampling workers take.
pub fn sampling_strips(height: i32) -> (strips: Vec<(i32, i32)>)
    requires
        1 <= height <= i32::MAX / 4,
    ensures
        strips@.len() == sampling_workers(height as int),
        forall|index: int|
            0 <= index < strips@.len() ==> #[trigger] strips@[index] == (
                strip_start(height as int, index) as i32,
                (strip_start(height as int, index + 1) - strip_start(height as int, index)) as i32,
            ),
{
    let workers: i32 = if height < 4 {
        height
    } else {
        4
    };
    let mut strips: Vec<(i32, i32)> = Vec::new();
    let mut index: i32 = 0;
    while index < workers
        invariant
            1 <= height <= i32::MAX / 4,
            workers == sampling_workers(height as int),
            0 <= index <= workers,
            strips@.len() == index,
            forall|j: int|
                0 <= j < strips@.len() ==> #[trigger] strips@[j] == (
                    strip_start(height as int, j) as i32,
                    (strip_start(height as int, j + 1) - strip_start(height as int, j)) as i32,
                ),
        decreases workers - index,
    {
        assert(0 <= index * height <= (index + 1) * height <= 4 * height) by (nonlinear_arith)
            requires
                0 <= index < workers <= 4,
                1 <= height,
        ;
        let start = index * height / workers;
        let end = (index + 1) * height / workers;
        assert(0 <= index * height / workers as int <= (index + 1) * height / workers as int
            <= height) by (nonlinear_arith)
            requires
                0 <= index < workers,
                1 <= workers <= height,
        ;
        strips.push((start, end - start));
        index = index + 1;
    }
    strips
}

/// The sampling strips follow each other without gap or overlap, each holds
/// at least one row, and together they hold every row of the image.
pub proof fn lemma_strips_cover_rows(height: int)
    requires
        1 <= height,
    ensures
        strip_start(height, 0) == 0,
        strip_start(height, sampling_workers(height)) == height,
        forall|index: int|
            0 <= index < sampling_workers(height) ==> strip_start(height, index) + 1
                <= #[trigger] strip_start(height, index + 1),
{
    let workers = sampling_workers(height);
    assert(strip_start(height, 0) == 0);
    assert(workers * height / workers == height) by (nonlinear_arith)
        requires
            1 <= workers,
    ;
    assert forall|index: int| 0 <= index < workers implies strip_start(height, index) + 1
        <= #[trigger] strip_start(height, index + 1) by {
        let low = index * height;
        let high = (index + 1) * height;
        assert(high == low + height) by (nonlinear_arith)
            requires
                low == index * height,
                high == (index + 1) * height,
        ;
        assert(low / workers + 1 <= (low + height) / workers) by (nonlinear_arith)
            requires
                1 <= workers <= height,
                0 <= low,
        ;
    }
}

/// Byte `index` of the RGBA packing of `image`: its pixels row by row
/// without row padding, four bytes each, with opaque alpha where the image
/// has no alpha channel.
pub open spec fn rgba_byte(image: PixelImage, index: int) -> u8 {
    let pixel = index / 4;
    let channel = index % 4;
    let width = image.width as int;
    let at = (pixel / width) * image.rowstride + (pixel % width) * image.n_channels;
    if channel < 3 {
        image.pixels@[at + channel]
    } else if image.n_channels == 4 {
        image.pixels@[at + 3]
    } else {
        255
    }
}

proof fn lemma_channel_in_buffer(image: PixelImage, row: int, column: int, channel: int)
    requires
        image.well_formed(),
        0 <= row < image.height,
        0 <= column < image.width,
        0 <= channel < image.n_channels,
    ensures
        0 <= row * image.rowstride,
        0 <= column * image.n_channels,
        row * image.rowstride + column * image.n_channels + channel < image.pixels@.len(),
{
    assert(0 <= row * image.rowstride <= (image.height - 1) * image.rowstride)
        by (nonlinear_arith)
        requires
            0 <= row <= image.height - 1,
            0 <= image.rowstride,
    ;
    assert(0 <= column * image.n_channels && column * image.n_channels + channel < image.width
        * image.n_channels) by (nonlinear_arith)
        requires
            0 <= column < image.width,
            0 <= channel < image.n_channels,
    ;
}

/// Packs the pixels of `image` for an RGBA upload: rows without their
/// padding, four bytes a pixel, alpha 255 where the image has none.
pub fn pixbuf_rgba(image: &PixelImage) -> (rgba: Vec<u8>)
    requires
        image.well_formed(),
        image.n_channels >= 3,
        image.width * image.height * 4 <= usize::MAX,
    ensures
        rgba@ == Seq::new(
            (image.width * image.height * 4) as nat,
            |index: int| rgba_byte(*image, index),
        ),
{
    let ghost source = *image;
    let width = image.width as usize;
    let height = image.height as usize;
    let channels = image.n_channels as usize;
    let stride = image.rowstride as usize;
    let length = image.pixels.len();
    let mut rgba: Vec<u8> = Vec::new();
    let mut row: usize = 0;
    while row < height
        invariant
            source == *image,
            image.well_formed(),
            image.n_channels >= 3,
            width == image.width,
            height == image.height,
            channels == image.n_channels,
            stride == image.rowstride,
            length == image.pixels@.len(),
            width * height * 4 <= usize::MAX,
            row <= height,
            rgba@.len() == row * width * 4,
            forall|k: int| 0 <= k < rgba@.len() ==> #[trigger] rgba@[k] == rgba_byte(source, k),
        decreases height - row,
    {
        let mut x: usize = 0;
        assert(row * width * 4 + width * 4 == (row + 1) * width * 4 && (row + 1) * width * 4
            <= width * height * 4) by (nonlinear_arith)
            requires
                row < height,
        ;
        while x < width
            invariant
                source == *image,
                image.well_formed(),
                image.n_channels >= 3,
                width == image.width,
                height == image.height,
                channels == image.n_channels,
                stride == image.rowstride,
                length == image.pixels@.len(),
                row < height,
                row * width * 4 + width * 4 == (row + 1) * width * 4,
                (row + 1) * width * 4 <= usize::MAX,
                x <= width,
                rgba@.len() == row * width * 4 + x * 4,
                forall|k: int| 0 <= k < rgba@.len() ==> #[trigger] rgba@[k] == rgba_byte(source, k),
            decreases width - x,
        {
            proof {
                lemma_channel_in_buffer(source, row as int, x as int, 2);
                if channels == 4 {
                    lemma_channel_in_buffer(source, row as int, x as int, 3);
                }
            }
            let at = row * stride + x * channels;
            let alpha = if channels == 4 {
                image.pixels[at + 3]
            } else {
                255
            };
            let ghost before = rgba@;
            rgba.push(image.pixels[at]);
            rgba.push(image.pixels[at + 1]);
            rgba.push(image.pixels[at + 2]);
            rgba.push(alpha);
            proof {
                assert forall|k: int| 0 <= k < rgba@.len() implies #[trigger] rgba@[k]
                    == rgba_byte(source, k) by {
                    if k >= before.len() {
                        let pixel = row * width + x;
                        assert(before.len() == pixel * 4) by (nonlinear_arith)
                            requires
                                before.len() == row * width * 4 + x * 4,
                                pixel == row * width + x,
                        ;
                        vstd::arithmetic::div_mod::lemma_fundamental_div_mod_converse(
                            k,
                            4,
                            pixel,
                            k - before.len(),
                        );
                        vstd::arithmetic::div_mod::lemma_fundamental_div_mod_converse(
                            pixel,
                            width as int,
                            row as int,
                            x as int,
                        );
                    } else {
                        assert(rgba@[k] == before[k]);
                    }
                }
            }
            x = x + 1;
        }
        row = row + 1;
    }
    assert(row * width * 4 == image.width * image.height * 4) by (nonlinear_arith)
        requires
            row == height,
            width == image.width,
            height == image.height,
    ;
    assert(rgba@ =~= Seq::new(
        (image.width * image.height * 4) as nat,
        |index: int| rgba_byte(source, index),
    ));
    rgba
}

} // verus!
