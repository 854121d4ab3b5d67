use flux_desktop::bins::{accumulate_bins, collect_candidates, Candidate};
use flux_desktop::color::{hsl_to_rgb, Hsl, Rgb};
use flux_desktop::decode::{
    block_bound, extract_colors_from_image, outcome_is_determined, sample_decoded, sample_image,
    wheel_of_sample, ExtractError,
};
use flux_desktop::palette::{color_wheel_from_pixels, palette_from_pixels, ColorWheel};
use flux_desktop::pixel::{classify_pixel, hue_bin};
use flux_desktop::ranking::{fill_to_six, stable_sort, SortOrder};

fn solid(width: u32, height: u32, rgb: [u8; 3]) -> Vec<u8> {
    let mut pixels = Vec::new();
    for _ in 0..(width * height) {
        pixels.extend_from_slice(&rgb);
    }
    pixels
}

fn encode_png(width: u32, height: u32, pixels: Vec<u8>) -> Vec<u8> {
    let buffer = image::RgbImage::from_raw(width, height, pixels).unwrap();
    let mut encoded = Vec::new();
    image::DynamicImage::ImageRgb8(buffer)
        .write_to(&mut std::io::Cursor::new(&mut encoded), image::ImageFormat::Png)
        .unwrap();
    encoded
}

fn two_hue_image() -> Vec<u8> {
    let mut pixels = Vec::new();
    for _row in 0..200 {
        for column in 0..200 {
            if column < 100 {
                pixels.extend_from_slice(&[200, 40, 40]);
            } else {
                pixels.extend_from_slice(&[40, 40, 200]);
            }
        }
    }
    pixels
}

fn candidate(hue: u32, saturation: u32, lightness: u32, count: u64) -> Candidate {
    Candidate { color: Hsl { hue, saturation, lightness }, count }
}

#[test]
fn grey_pixels_are_not_representative() {
    assert_eq!(classify_pixel(128, 128, 128), None);
    assert_eq!(classify_pixel(0, 0, 0), None);
    assert_eq!(classify_pixel(255, 255, 255), None);
    assert_eq!(classify_pixel(100, 103, 105), None);
}

#[test]
fn filter_thresholds_are_exact() {
    // Largest and smallest channel add up to 40: lightness 0.0784, too dark.
    assert_eq!(classify_pixel(34, 6, 6), None);
    // They add up to 41: lightness 0.0803.
    assert!(classify_pixel(35, 6, 6).is_some());
    // They add up to 469: lightness 0.9196.
    assert!(classify_pixel(255, 214, 230).is_some());
    // They add up to 470: lightness 0.9215, too light.
    assert_eq!(classify_pixel(255, 215, 230), None);
    // They differ by 5: spread 0.0196, too grey.
    assert_eq!(classify_pixel(105, 100, 100), None);
    // They differ by 6: spread 0.0235.
    assert!(classify_pixel(106, 100, 100).is_some());
}

#[test]
fn pixel_color_of_a_red() {
    assert_eq!(
        classify_pixel(200, 40, 40),
        Some(Hsl { hue: 0, saturation: 666_666, lightness: 470_588 })
    );
}

#[test]
fn pixel_hue_by_sextant() {
    assert_eq!(classify_pixel(255, 0, 0).unwrap().hue, 0);
    assert_eq!(classify_pixel(255, 255, 0).unwrap().hue, 60_000_000);
    assert_eq!(classify_pixel(0, 255, 0).unwrap().hue, 120_000_000);
    assert_eq!(classify_pixel(0, 255, 255).unwrap().hue, 180_000_000);
    assert_eq!(classify_pixel(0, 0, 255).unwrap().hue, 240_000_000);
    assert_eq!(classify_pixel(255, 0, 255).unwrap().hue, 300_000_000);
    assert_eq!(classify_pixel(255, 0, 128).unwrap().hue, 329_882_352);
}

#[test]
fn pixel_saturation_above_half_lightness() {
    // Largest 250, smallest 150: lightness 400/510, spread 100 over 110.
    assert_eq!(
        classify_pixel(250, 150, 150),
        Some(Hsl { hue: 0, saturation: 909_090, lightness: 784_313 })
    );
}

#[test]
fn hue_bins_are_thirty_degrees_wide() {
    assert_eq!(hue_bin(0), 0);
    assert_eq!(hue_bin(29_999_999), 0);
    assert_eq!(hue_bin(30_000_000), 1);
    assert_eq!(hue_bin(240_000_000), 8);
    assert_eq!(hue_bin(359_999_999), 11);
    assert_eq!(hue_bin(360_000_000), 11);
}

#[test]
fn hsl_to_rgb_of_grey_is_its_lightness() {
    let grey = hsl_to_rgb(Hsl { hue: 123_000_000, saturation: 0, lightness: 440_000 });
    assert_eq!(grey, Rgb { red: 440_000, green: 440_000, blue: 440_000 });
}

#[test]
fn hsl_to_rgb_of_primaries() {
    let red = hsl_to_rgb(Hsl { hue: 0, saturation: 1_000_000, lightness: 500_000 });
    assert_eq!(red, Rgb { red: 1_000_000, green: 0, blue: 0 });
    let green = hsl_to_rgb(Hsl { hue: 120_000_000, saturation: 1_000_000, lightness: 500_000 });
    assert_eq!(green, Rgb { red: 0, green: 1_000_000, blue: 0 });
    let blue = hsl_to_rgb(Hsl { hue: 240_000_000, saturation: 1_000_000, lightness: 500_000 });
    assert_eq!(blue, Rgb { red: 0, green: 0, blue: 1_000_000 });
}

#[test]
fn hsl_to_rgb_reproduces_the_sampled_pixel() {
    let rgb = hsl_to_rgb(Hsl { hue: 0, saturation: 666_666, lightness: 470_588 });
    assert_eq!(rgb, Rgb { red: 784_313, green: 156_863, blue: 156_863 });
}

#[test]
fn hsl_to_rgb_on_a_rising_and_a_falling_sextant() {
    // Hue 30: red holds the upper level, green is half way up.
    let orange = hsl_to_rgb(Hsl { hue: 30_000_000, saturation: 1_000_000, lightness: 500_000 });
    assert_eq!(orange, Rgb { red: 1_000_000, green: 500_000, blue: 0 });
    // Hue 210: blue holds the upper level, green is half way down.
    let azure = hsl_to_rgb(Hsl { hue: 210_000_000, saturation: 1_000_000, lightness: 500_000 });
    assert_eq!(azure, Rgb { red: 0, green: 500_000, blue: 1_000_000 });
}

#[test]
fn bins_gather_sums_and_counts() {
    let mut pixels = solid(3, 1, [200, 40, 40]);
    pixels.extend_from_slice(&[40, 40, 200]);
    pixels.extend_from_slice(&[128, 128, 128]);
    // Two bytes of an unfinished pixel are not read.
    pixels.extend_from_slice(&[0, 255]);
    let buckets = accumulate_bins(&pixels);
    assert_eq!(buckets.len(), 12);
    assert_eq!(buckets[0].count, 3);
    assert_eq!(buckets[0].hue_sum, 0);
    assert_eq!(buckets[0].saturation_sum, 3 * 666_666);
    assert_eq!(buckets[0].lightness_sum, 3 * 470_588);
    assert_eq!(buckets[8].count, 1);
    assert_eq!(buckets[8].hue_sum, 240_000_000);
    for bin in [1, 2, 3, 4, 5, 6, 7, 9, 10, 11] {
        assert_eq!(buckets[bin].count, 0);
    }
    let candidates = collect_candidates(&buckets);
    assert_eq!(
        candidates,
        vec![candidate(0, 666_666, 470_588, 3), candidate(240_000_000, 666_666, 470_588, 1)]
    );
}

#[test]
fn sort_by_count_is_stable() {
    let items = vec![
        candidate(10, 1, 1, 5),
        candidate(20, 2, 2, 9),
        candidate(30, 3, 3, 5),
        candidate(40, 4, 4, 9),
        candidate(50, 5, 5, 1),
    ];
    let sorted = stable_sort(&items, SortOrder::CountDescending);
    let hues: Vec<u32> = sorted.iter().map(|c| c.color.hue).collect();
    assert_eq!(hues, vec![20, 40, 10, 30, 50]);
}

#[test]
fn sort_by_hue_is_stable() {
    let items = vec![
        candidate(200, 0, 1, 1),
        candidate(100, 0, 2, 1),
        candidate(200, 0, 3, 1),
        candidate(100, 0, 4, 1),
    ];
    let sorted = stable_sort(&items, SortOrder::HueAscending);
    let lightness: Vec<u32> = sorted.iter().map(|c| c.color.lightness).collect();
    assert_eq!(lightness, vec![2, 4, 1, 3]);
}

#[test]
fn fill_of_nothing_is_the_neutral_ramp() {
    let filled = fill_to_six(&Vec::new());
    assert_eq!(
        filled,
        vec![
            candidate(0, 0, 200_000, 1),
            candidate(0, 0, 320_000, 1),
            candidate(0, 0, 440_000, 1),
            candidate(0, 0, 560_000, 1),
            candidate(0, 0, 680_000, 1),
            candidate(0, 0, 800_000, 1),
        ]
    );
}

#[test]
fn fill_duplicates_in_turn_and_lightens() {
    let ranked = vec![candidate(0, 666_666, 470_588, 7), candidate(240_000_000, 500_000, 300_000, 3)];
    let filled = fill_to_six(&ranked);
    assert_eq!(
        filled,
        vec![
            candidate(0, 666_666, 470_588, 7),
            candidate(240_000_000, 500_000, 300_000, 3),
            candidate(0, 666_666, 630_588, 1),
            candidate(240_000_000, 500_000, 540_000, 1),
            candidate(0, 666_666, 790_588, 1),
            candidate(240_000_000, 500_000, 700_000, 1),
        ]
    );
}

#[test]
fn fill_clamps_lightness_of_duplicates() {
    let ranked = vec![candidate(90_000_000, 400_000, 600_000, 2)];
    let filled = fill_to_six(&ranked);
    let lightness: Vec<u32> = filled.iter().map(|c| c.color.lightness).collect();
    assert_eq!(lightness, vec![600_000, 680_000, 760_000, 840_000, 850_000, 850_000]);
}

#[test]
fn fill_keeps_the_first_six_of_a_longer_ranking() {
    let ranked: Vec<Candidate> = (0..8).map(|i| candidate(i * 1_000, 1, 1, 100 - i as u64)).collect();
    let filled = fill_to_six(&ranked);
    assert_eq!(filled, ranked[..6].to_vec());
}

#[test]
fn grey_image_gives_six_greys_of_rising_lightness() {
    let palette = palette_from_pixels(&solid(16, 16, [128, 128, 128]));
    assert_eq!(palette.len(), 6);
    for pair in palette.windows(2) {
        assert!(pair[0].color.lightness < pair[1].color.lightness);
    }
    for entry in &palette {
        assert_eq!(entry.color.saturation, 0);
    }
    let wheel = color_wheel_from_pixels(&solid(16, 16, [128, 128, 128]));
    let expected = [200_000, 320_000, 440_000, 560_000, 680_000, 800_000];
    for (color, level) in wheel.colors.iter().zip(expected) {
        assert_eq!(*color, Rgb { red: level, green: level, blue: level });
    }
}

#[test]
fn empty_image_gives_the_neutral_ramp() {
    let wheel = color_wheel_from_pixels(&[]);
    assert_eq!(wheel.colors[0], Rgb { red: 200_000, green: 200_000, blue: 200_000 });
    assert_eq!(wheel.colors[5], Rgb { red: 800_000, green: 800_000, blue: 800_000 });
}

#[test]
fn two_hues_give_six_colors_in_hue_order() {
    let palette = palette_from_pixels(&two_hue_image());
    assert_eq!(
        palette,
        vec![
            candidate(0, 666_666, 470_588, 20_000),
            candidate(0, 666_666, 630_588, 1),
            candidate(0, 666_666, 790_588, 1),
            candidate(240_000_000, 666_666, 470_588, 20_000),
            candidate(240_000_000, 666_666, 710_588, 1),
            candidate(240_000_000, 666_666, 850_000, 1),
        ]
    );
    for pair in palette.windows(2) {
        assert!(pair[0].color.hue <= pair[1].color.hue);
    }
    let sampled = Hsl { hue: 0, saturation: 666_666, lightness: 470_588 };
    assert!(palette.iter().any(|c| c.color == sampled));
    let sampled = Hsl { hue: 240_000_000, saturation: 666_666, lightness: 470_588 };
    assert!(palette.iter().any(|c| c.color == sampled));
}

#[test]
fn more_pixels_rank_first_but_hue_orders_the_wheel() {
    // One red pixel, three blue ones: blue ranks first, red comes first by hue.
    let mut pixels = solid(1, 1, [200, 40, 40]);
    pixels.extend_from_slice(&solid(3, 1, [40, 40, 200]));
    let palette = palette_from_pixels(&pixels);
    let hues: Vec<u32> = palette.iter().map(|c| c.color.hue).collect();
    assert_eq!(hues, vec![0, 0, 0, 240_000_000, 240_000_000, 240_000_000]);
    // Blue was ranked first, so the duplicates at even positions are blue.
    assert_eq!(palette[3].count, 3);
    assert_eq!(palette[4].color.lightness, 470_588 + 160_000);
    assert_eq!(palette[1].color.lightness, 470_588 + 240_000);
}

#[test]
fn wheel_channels_carry_alpha_one() {
    let wheel = color_wheel_from_pixels(&two_hue_image());
    let channels = wheel.channels();
    assert_eq!(channels.len(), 24);
    assert_eq!(&channels[0..4], &[784_313, 156_863, 156_863, 1_000_000]);
    for color in 0..6 {
        assert_eq!(channels[color * 4 + 3], 1_000_000);
        assert_eq!(channels[color * 4], wheel.colors[color].red);
        assert_eq!(channels[color * 4 + 1], wheel.colors[color].green);
        assert_eq!(channels[color * 4 + 2], wheel.colors[color].blue);
    }
    assert_eq!(ColorWheel::alpha(), 1_000_000);
}

#[test]
fn extract_from_a_grey_png() {
    let encoded = encode_png(200, 200, solid(200, 200, [128, 128, 128]));
    let wheel = extract_colors_from_image(&encoded).unwrap();
    let expected = [200_000, 320_000, 440_000, 560_000, 680_000, 800_000];
    for (color, level) in wheel.colors.iter().zip(expected) {
        assert_eq!(*color, Rgb { red: level, green: level, blue: level });
    }
}

#[test]
fn extract_from_a_two_hue_png() {
    let encoded = encode_png(200, 200, two_hue_image());
    let wheel = extract_colors_from_image(&encoded).unwrap();
    assert_eq!(wheel.colors, color_wheel_from_pixels(&two_hue_image()).colors);
    assert_eq!(wheel.colors[0], Rgb { red: 784_313, green: 156_863, blue: 156_863 });
    assert_eq!(wheel.colors[3], Rgb { red: 156_863, green: 156_863, blue: 784_313 });
}

#[test]
fn sample_image_scales_down_to_the_thumbnail_edge() {
    let encoded = encode_png(400, 100, solid(400, 100, [200, 40, 40]));
    let pixels = sample_image(&encoded).unwrap();
    assert_eq!(pixels.len(), 200 * 50 * 3);
    assert_ne!(pixels, encoded);
    assert!(pixels.chunks(3).all(|p| p == [200, 40, 40]));
}

#[test]
fn extract_rejects_bytes_that_are_no_image() {
    let outcome = extract_colors_from_image(b"this is not an image");
    assert!(matches!(outcome, Err(ExtractError::Decode(_))));
    let outcome = extract_colors_from_image(&[]);
    assert!(matches!(outcome, Err(ExtractError::Decode(_))));
}

#[test]
fn decoder_message_follows_the_fixed_prefix() {
    // No known signature: the format cannot be guessed.
    match extract_colors_from_image(b"this is not an image") {
        Err(ExtractError::Decode(message)) => {
            assert!(message.starts_with("Failed to open image: "));
            assert!(message.len() > "Failed to open image: ".len());
        }
        other => panic!("unexpected outcome: {:?}", other.map(|wheel| wheel.colors)),
    }
    // A PNG signature with nothing behind it: the decoder gives up.
    let mut truncated = encode_png(8, 8, solid(8, 8, [200, 40, 40]));
    truncated.truncate(20);
    match sample_image(&truncated) {
        Err(ExtractError::Decode(message)) => {
            assert!(message.starts_with("Failed to open image: "));
        }
        other => panic!("unexpected outcome: {:?}", other),
    }
}

#[test]
fn image_of_any_size_is_sampled() {
    let wide = encode_png(25_601, 1, solid(25_601, 1, [200, 40, 40]));
    let pixels = sample_image(&wide).unwrap();
    assert_eq!(pixels.len(), 200 * 1 * 3);
    assert!(pixels.chunks(3).all(|p| p == [200, 40, 40]));
    let tall = encode_png(2, 70_000, solid(2, 70_000, [40, 40, 200]));
    let wheel = extract_colors_from_image(&tall).unwrap();
    assert_eq!(wheel.colors[0], Rgb { red: 156_863, green: 156_863, blue: 784_313 });
}

#[test]
fn block_bound_of_some_sizes() {
    assert_eq!(block_bound(0, 0, 200), 0);
    assert_eq!(block_bound(200, 200, 200), 4 * 5);
    assert_eq!(block_bound(25_600, 25_600, 200), 131 * 196);
    assert_eq!(block_bound(10, 1_400_000, 200), 7_003 * 10);
    assert_eq!(block_bound(1_400_000, 10, 200), 7_003 * 10);
    assert_eq!(block_bound(4_000_000, 3_000_000, 200), 20_005 * 30_005);
}

#[test]
fn very_tall_bright_sixteen_bit_image_is_sampled_in_its_eight_bit_form() {
    // 70,000 samples to a block: more than their sum could hold at 16 bits.
    assert!(block_bound(10, 1_400_000, 200) > 65_536);
    let buffer: image::ImageBuffer<image::Luma<u16>, Vec<u16>> =
        image::ImageBuffer::from_pixel(10, 1_400_000, image::Luma([65_535u16]));
    let mut encoded = Vec::new();
    image::DynamicImage::ImageLuma16(buffer)
        .write_to(&mut std::io::Cursor::new(&mut encoded), image::ImageFormat::Png)
        .unwrap();
    let pixels = sample_image(&encoded).unwrap();
    assert_eq!(pixels.len(), 1 * 200 * 3);
    assert!(pixels.iter().all(|channel| *channel == 255));
}

#[test]
fn outcome_is_determined_for_every_format_but_jpeg() {
    let pixels = solid(16, 16, [200, 40, 40]);
    assert!(outcome_is_determined(&encode_png(16, 16, pixels.clone())));
    assert!(outcome_is_determined(b"this is not an image"));
    assert!(outcome_is_determined(&[]));
    let buffer = image::RgbImage::from_raw(16, 16, pixels).unwrap();
    let mut jpeg = Vec::new();
    image::DynamicImage::ImageRgb8(buffer)
        .write_to(&mut std::io::Cursor::new(&mut jpeg), image::ImageFormat::Jpeg)
        .unwrap();
    assert!(!outcome_is_determined(&jpeg));
    // The signature decides, not what follows it.
    assert!(!outcome_is_determined(&jpeg[..3]));
}

#[test]
fn decoded_image_is_sampled_and_decoder_error_is_prefixed() {
    let decoded = image::load_from_memory_with_format(
        &encode_png(400, 100, solid(400, 100, [200, 40, 40])),
        image::ImageFormat::Png,
    );
    let pixels = sample_decoded(decoded).unwrap();
    assert_eq!(pixels.len(), 200 * 50 * 3);
    let failed = image::load_from_memory_with_format(b"no png", image::ImageFormat::Png);
    match sample_decoded(failed) {
        Err(ExtractError::Decode(message)) => {
            assert!(message.starts_with("Failed to open image: "))
        }
        Ok(_) => panic!("bytes that are no image were sampled"),
    }
}

#[test]
fn sample_becomes_its_wheel_and_error_stays() {
    let wheel = wheel_of_sample(Ok(two_hue_image())).unwrap();
    assert_eq!(wheel.colors, color_wheel_from_pixels(&two_hue_image()).colors);
    let failure = wheel_of_sample(Err(ExtractError::Decode(String::from("x"))));
    assert!(matches!(failure, Err(ExtractError::Decode(message)) if message == "x"));
}

#[test]
fn tall_bright_sixteen_bit_image_is_sampled_without_overflow() {
    let buffer: image::ImageBuffer<image::Luma<u16>, Vec<u16>> =
        image::ImageBuffer::from_pixel(4, 25_600, image::Luma([65_535u16]));
    let mut encoded = Vec::new();
    image::DynamicImage::ImageLuma16(buffer)
        .write_to(&mut std::io::Cursor::new(&mut encoded), image::ImageFormat::Png)
        .unwrap();
    let pixels = sample_image(&encoded).unwrap();
    assert_eq!(pixels.len(), 1 * 200 * 3);
    assert!(pixels.iter().all(|channel| *channel == 255));
    // White is not representative: the wheel is the neutral ramp.
    let wheel = extract_colors_from_image(&encoded).unwrap();
    assert_eq!(wheel.colors[0], Rgb { red: 200_000, green: 200_000, blue: 200_000 });
}

#[test]
fn sampled_pixels_never_exceed_the_thumbnail() {
    for (width, height) in [(1, 1), (3, 7), (200, 200), (201, 199), (1000, 10), (640, 480)] {
        let encoded = encode_png(width, height, solid(width, height, [10, 200, 90]));
        let pixels = sample_image(&encoded).unwrap();
        assert!(pixels.len() <= 3 * 200 * 200);
        assert_eq!(pixels.len() % 3, 0);
    }
}

#[test]
fn extract_from_a_jpeg() {
    let buffer = image::RgbImage::from_raw(64, 64, solid(64, 64, [200, 40, 40])).unwrap();
    let mut encoded = Vec::new();
    image::DynamicImage::ImageRgb8(buffer)
        .write_to(&mut std::io::Cursor::new(&mut encoded), image::ImageFormat::Jpeg)
        .unwrap();
    let wheel = extract_colors_from_image(&encoded).unwrap();
    for color in wheel.colors {
        assert!(color.red <= 1_000_000 && color.green <= 1_000_000 && color.blue <= 1_000_000);
    }
    // A solid red stays red through the lossy coding.
    assert!(wheel.colors[0].red > wheel.colors[0].green);
    assert!(wheel.colors[0].red > wheel.colors[0].blue);
}

#[test]
fn extract_from_a_bmp() {
    let buffer = image::RgbImage::from_raw(200, 200, two_hue_image()).unwrap();
    let mut encoded = Vec::new();
    image::DynamicImage::ImageRgb8(buffer)
        .write_to(&mut std::io::Cursor::new(&mut encoded), image::ImageFormat::Bmp)
        .unwrap();
    let wheel = extract_colors_from_image(&encoded).unwrap();
    assert_eq!(wheel.colors, color_wheel_from_pixels(&two_hue_image()).colors);
}
