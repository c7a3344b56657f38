use roonscape_renderer::artwork_sampling::{
    PixelImage, pixbuf_rgba, sample_integer_strip, sampling_strips,
};

fn padded(width: i32) -> i32 {
    (width * 3 + 3) & !3
}

fn rgb_image(width: i32, height: i32, byte: impl Fn(usize, usize) -> u8) -> PixelImage {
    let rowstride = padded(width);
    let pixels = (0..(rowstride * height) as usize)
        .map(|index| byte(index, rowstride as usize))
        .collect();
    PixelImage { width, height, rowstride, n_channels: 3, has_alpha: false, pixels }
}

fn linear_pattern(multiplier: usize) -> impl Fn(usize, usize) -> u8 {
    move |index, _| ((index * multiplier + index / 7) % 256) as u8
}

fn square_pattern(index: usize, rowstride: usize) -> u8 {
    ((index * index * 13 + 5 + (index / rowstride) * 11) % 256) as u8
}

#[test]
fn a_two_times_reduction_averages_each_box() {
    let source = rgb_image(4, 2, linear_pattern(37));
    let (bytes, stride) = sample_integer_strip(&source, 2, 1, 0, 1).expect("an integer reduction");
    assert_eq!(stride, 8);
    assert_eq!(bytes, vec![87, 124, 97, 117, 90, 127, 0, 0]);
}

#[test]
fn a_rounding_surplus_is_taken_from_the_last_pixel_of_each_box() {
    let source = rgb_image(6, 6, linear_pattern(53));
    let (bytes, stride) = sample_integer_strip(&source, 2, 2, 0, 2).expect("an integer reduction");
    assert_eq!(stride, 8);
    assert_eq!(
        bytes,
        vec![113, 138, 134, 107, 104, 128, 0, 0, 116, 141, 108, 138, 135, 131, 0, 0]
    );
}

#[test]
fn a_rounding_shortfall_goes_to_the_clamped_far_corner() {
    let source = rgb_image(10, 5, linear_pattern(91));
    let (bytes, _) = sample_integer_strip(&source, 2, 1, 0, 1).expect("an integer reduction");
    assert_eq!(bytes, vec![123, 133, 132, 128, 127, 126, 0, 0]);
}

#[test]
fn a_strip_starts_at_its_own_row() {
    let source = rgb_image(9, 9, linear_pattern(17));
    let (bytes, stride) = sample_integer_strip(&source, 3, 3, 1, 2).expect("an integer reduction");
    assert_eq!(stride, 12);
    assert_eq!(
        bytes,
        vec![
            151, 168, 157, 106, 95, 112, 146, 135, 123, 0, 0, 0, 83, 101, 118, 124, 141, 130, 136,
            153, 170, 0, 0, 0
        ]
    );
}

#[test]
fn large_factors_spread_the_surplus_over_several_pixels() {
    let expected = [
        (21, [127, 125, 130, 129, 124, 127, 0, 0, 127, 125, 132, 131, 125, 127, 0, 0]),
        (28, [129, 127, 126, 125, 127, 125, 0, 0, 129, 126, 126, 125, 129, 128, 0, 0]),
        (30, [128, 124, 128, 123, 130, 123, 0, 0, 126, 130, 127, 130, 125, 130, 0, 0]),
    ];
    for (factor, bytes) in expected {
        let source = rgb_image(2 * factor, 2 * factor, square_pattern);
        let (sampled, stride) =
            sample_integer_strip(&source, 2, 2, 0, 2).expect("an integer reduction");
        assert_eq!(stride, 8);
        assert_eq!(sampled, bytes.to_vec(), "factor {factor}");
    }
}

#[test]
fn a_uniform_image_samples_to_its_own_colour_at_every_factor() {
    for factor in 2..=30 {
        let source = rgb_image(3 * factor, 2 * factor, |index, rowstride| {
            if index % rowstride < (3 * factor * 3) as usize {
                [200, 17, 255][index % rowstride % 3]
            } else {
                0
            }
        });
        let (bytes, stride) =
            sample_integer_strip(&source, 3, 2, 0, 2).expect("an integer reduction");
        assert_eq!(stride, 12);
        for row in 0..2 {
            for x in 0..3 {
                let at = row * 12 + x * 3;
                assert_eq!(&bytes[at..at + 3], &[200, 17, 255], "factor {factor}");
            }
        }
    }
}

#[test]
fn other_reductions_are_left_to_the_general_scaler() {
    let source = rgb_image(8, 8, linear_pattern(3));
    assert!(sample_integer_strip(&source, 8, 8, 0, 8).is_none());
    assert!(sample_integer_strip(&source, 3, 4, 0, 4).is_none());
    assert!(sample_integer_strip(&source, 4, 3, 0, 3).is_none());
    let wide = rgb_image(62, 2, linear_pattern(3));
    assert!(sample_integer_strip(&wide, 2, 1, 0, 1).is_none());
    let mut alpha = rgb_image(4, 4, linear_pattern(3));
    alpha.has_alpha = true;
    assert!(sample_integer_strip(&alpha, 2, 2, 0, 2).is_none());
    let mut four_channels = rgb_image(4, 4, linear_pattern(3));
    four_channels.n_channels = 4;
    four_channels.rowstride = 16;
    four_channels.pixels = vec![0; 64];
    assert!(sample_integer_strip(&four_channels, 2, 2, 0, 2).is_none());
}

#[test]
fn sampling_strips_share_the_rows_among_at_most_four_workers() {
    assert_eq!(sampling_strips(10), vec![(0, 2), (2, 3), (5, 2), (7, 3)]);
    assert_eq!(sampling_strips(3), vec![(0, 1), (1, 1), (2, 1)]);
    assert_eq!(sampling_strips(1), vec![(0, 1)]);
    assert_eq!(sampling_strips(4), vec![(0, 1), (1, 1), (2, 1), (3, 1)]);
}

#[test]
fn rgb_rows_skip_padding_and_add_opaque_alpha() {
    let image = PixelImage {
        width: 2,
        height: 2,
        rowstride: 8,
        n_channels: 3,
        has_alpha: false,
        pixels: vec![1, 2, 3, 4, 5, 6, 99, 99, 7, 8, 9, 10, 11, 12],
    };
    assert_eq!(
        pixbuf_rgba(&image),
        [1, 2, 3, 255, 4, 5, 6, 255, 7, 8, 9, 255, 10, 11, 12, 255]
    );
}

#[test]
fn rgba_rows_preserve_alpha_and_skip_padding() {
    let image = PixelImage {
        width: 1,
        height: 2,
        rowstride: 8,
        n_channels: 4,
        has_alpha: true,
        pixels: vec![1, 2, 3, 4, 99, 99, 99, 99, 5, 6, 7, 8],
    };
    assert_eq!(pixbuf_rgba(&image), [1, 2, 3, 4, 5, 6, 7, 8]);
}
