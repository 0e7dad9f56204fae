use std::io::Cursor;

use image::{DynamicImage, GenericImageView, ImageFormat, Rgb, RgbImage, Rgba, RgbaImage};
use image_resolver::error::PipelineError;
use image_resolver::pipeline::{process_image, ResultImage};

fn gradient_rgba(width: u32, height: u32) -> DynamicImage {
    DynamicImage::ImageRgba8(RgbaImage::from_fn(width, height, |x, y| {
        Rgba([(x % 251) as u8, (y % 241) as u8, ((x + y) % 239) as u8, 255])
    }))
}

fn gradient_rgb(width: u32, height: u32) -> DynamicImage {
    DynamicImage::ImageRgb8(RgbImage::from_fn(width, height, |x, y| {
        Rgb([(x % 251) as u8, (y % 241) as u8, ((x + y) % 239) as u8])
    }))
}

fn encode(picture: &DynamicImage, format: ImageFormat) -> Vec<u8> {
    let mut sink = Cursor::new(Vec::new());
    picture.write_to(&mut sink, format).unwrap();
    sink.into_inner()
}

fn png(width: u32, height: u32) -> Vec<u8> {
    encode(&gradient_rgba(width, height), ImageFormat::Png)
}

fn jpeg(width: u32, height: u32) -> Vec<u8> {
    encode(&gradient_rgb(width, height), ImageFormat::Jpeg)
}

fn run(image: &[u8], mime: &str, resolution: &str) -> ResultImage {
    match process_image(image, mime, "picture", resolution) {
        Ok(payload) => payload,
        Err(failure) => panic!("the invocation failed: {:?}", failure),
    }
}

fn dimensions_of(encoded: &[u8], format: ImageFormat) -> (u32, u32) {
    image::load_from_memory_with_format(encoded, format).unwrap().dimensions()
}

#[test]
fn low_of_a_100_square_png_is_20_square() {
    let payload = run(&png(100, 100), "png", "low");
    assert_eq!(payload.width, 20);
    assert_eq!(payload.height, 20);
    assert_eq!(dimensions_of(&payload.image, ImageFormat::Png), (20, 20));
}

#[test]
fn med_of_a_101_square_jpeg_is_25_square() {
    let payload = run(&jpeg(101, 101), "jpg", "med");
    assert_eq!((payload.width, payload.height), (25, 25));
    assert_eq!(dimensions_of(&payload.image, ImageFormat::Jpeg), (25, 25));
}

#[test]
fn bmp_is_an_unsupported_format() {
    let outcome = process_image(&png(4, 4), "bmp", "picture", "half");
    assert_eq!(outcome, Err(PipelineError::UnsupportedFormat));
}

#[test]
fn the_format_is_resolved_before_the_buffer_is_read() {
    let outcome = process_image(&[], "bmp", "picture", "half");
    assert_eq!(outcome, Err(PipelineError::UnsupportedFormat));
}

#[test]
fn a_truncated_png_is_a_decode_failure() {
    let whole = png(100, 100);
    let outcome = process_image(&whole[..whole.len() / 2], "png", "picture", "half");
    assert!(matches!(outcome, Err(PipelineError::DecodeFailure { .. })));
}

#[test]
fn a_corrupt_png_is_a_decode_failure() {
    let outcome = process_image(b"this is no picture", "png", "picture", "high");
    assert!(matches!(outcome, Err(PipelineError::DecodeFailure { .. })));
}

#[test]
fn an_empty_buffer_is_a_decode_failure() {
    let outcome = process_image(&[], "jpeg", "picture", "low");
    assert!(matches!(outcome, Err(PipelineError::DecodeFailure { .. })));
}

#[test]
fn a_decode_failure_carries_the_codec_reason() {
    match process_image(b"this is no picture", "png", "picture", "high") {
        Err(PipelineError::DecodeFailure { reason }) => assert!(!reason.is_empty()),
        other => panic!("expected a decode failure, got {:?}", other),
    }
}

#[test]
fn a_declared_format_that_the_content_is_not_fails_to_decode() {
    let outcome = process_image(&png(10, 10), "jpeg", "picture", "high");
    assert!(matches!(outcome, Err(PipelineError::DecodeFailure { .. })));
}

#[test]
fn high_keeps_the_dimensions_of_the_source() {
    let payload = run(&png(37, 19), "png", "high");
    assert_eq!((payload.width, payload.height), (37, 19));
    assert_eq!(dimensions_of(&payload.image, ImageFormat::Png), (37, 19));
}

#[test]
fn high_of_a_png_keeps_every_pixel() {
    let source = gradient_rgba(23, 11);
    let payload = run(&encode(&source, ImageFormat::Png), "png", "high");
    let back = image::load_from_memory_with_format(&payload.image, ImageFormat::Png).unwrap();
    assert_eq!(back, source);
}

#[test]
fn high_of_a_jpeg_keeps_the_dimensions() {
    let payload = run(&jpeg(64, 48), "jpeg", "high");
    assert_eq!((payload.width, payload.height), (64, 48));
    assert_eq!(dimensions_of(&payload.image, ImageFormat::Jpeg), (64, 48));
}

#[test]
fn an_unrecognized_resolution_gives_what_half_gives() {
    let input = png(50, 30);
    let half = run(&input, "png", "half");
    assert_eq!((half.width, half.height), (25, 15));
    for hint in ["", "HALF", "medium", "highest", " low", "0.5"] {
        assert_eq!(run(&input, "png", hint), half);
    }
}

#[test]
fn each_tier_divides_both_dimensions() {
    let input = png(101, 57);
    let high = run(&input, "png", "high");
    let half = run(&input, "png", "half");
    let med = run(&input, "png", "med");
    let low = run(&input, "png", "low");
    assert_eq!((high.width, high.height), (101, 57));
    assert_eq!((half.width, half.height), (50, 28));
    assert_eq!((med.width, med.height), (25, 14));
    assert_eq!((low.width, low.height), (20, 11));
    assert_eq!(dimensions_of(&half.image, ImageFormat::Png), (50, 28));
    assert_eq!(dimensions_of(&med.image, ImageFormat::Png), (25, 14));
    assert_eq!(dimensions_of(&low.image, ImageFormat::Png), (20, 11));
}

#[test]
fn a_narrow_source_is_scaled_on_each_axis_by_itself() {
    let payload = run(&png(3, 100), "png", "half");
    assert_eq!((payload.width, payload.height), (1, 50));
    assert_eq!(dimensions_of(&payload.image, ImageFormat::Png), (1, 50));
}

#[test]
fn the_payload_reports_the_height_not_the_width_twice() {
    let payload = run(&png(80, 20), "png", "half");
    assert_eq!(payload.width, 40);
    assert_eq!(payload.height, 10);
    assert_ne!(payload.height, payload.width);
}

#[test]
fn the_label_is_not_reflected_in_the_output() {
    let input = png(16, 16);
    let one = process_image(&input, "png", "one", "med");
    let other = process_image(&input, "png", "../another name", "med");
    assert!(one.is_ok());
    assert_eq!(one, other);
}

#[test]
fn the_output_is_in_the_format_of_the_input() {
    let payload = run(&jpeg(40, 40), "jpg", "half");
    assert_eq!(image::guess_format(&payload.image).unwrap(), ImageFormat::Jpeg);
    let payload = run(&png(40, 40), "png", "half");
    assert_eq!(image::guess_format(&payload.image).unwrap(), ImageFormat::Png);
}

#[test]
fn gif_and_webp_are_accepted() {
    let gif = encode(&gradient_rgba(30, 20), ImageFormat::Gif);
    let payload = run(&gif, "gif", "half");
    assert_eq!((payload.width, payload.height), (15, 10));
    assert_eq!(dimensions_of(&payload.image, ImageFormat::Gif), (15, 10));
    let webp = encode(&gradient_rgba(30, 20), ImageFormat::WebP);
    let payload = run(&webp, "webp", "low");
    assert_eq!((payload.width, payload.height), (6, 4));
    assert_eq!(dimensions_of(&payload.image, ImageFormat::WebP), (6, 4));
}

#[test]
fn decode_then_encode_keeps_the_dimensions_in_every_format() {
    let cases = [
        ("png", ImageFormat::Png),
        ("jpeg", ImageFormat::Jpeg),
        ("jpg", ImageFormat::Jpeg),
        ("gif", ImageFormat::Gif),
        ("webp", ImageFormat::WebP),
    ];
    for (mime, format) in cases {
        let picture = if format == ImageFormat::Jpeg { gradient_rgb(33, 17) } else { gradient_rgba(33, 17) };
        let payload = run(&encode(&picture, format), mime, "high");
        assert_eq!((payload.width, payload.height), (33, 17));
        assert_eq!(dimensions_of(&payload.image, format), (33, 17));
    }
}

#[test]
fn a_sixteen_bit_png_stays_lossless_at_high() {
    let source = DynamicImage::ImageLuma16(image::ImageBuffer::from_fn(9, 5, |x, y| {
        image::Luma([(x * 7001 + y * 113) as u16])
    }));
    let payload = run(&encode(&source, ImageFormat::Png), "png", "high");
    let back = image::load_from_memory_with_format(&payload.image, ImageFormat::Png).unwrap();
    assert_eq!(back, source);
}

#[test]
fn a_variant_with_a_zero_dimension_is_left_to_the_codec() {
    let outcome = process_image(&png(1, 1), "png", "picture", "half");
    assert!(matches!(outcome, Err(PipelineError::EncodeFailure { .. })));
    let outcome = process_image(&jpeg(4, 9), "jpeg", "picture", "low");
    assert!(matches!(outcome, Err(PipelineError::EncodeFailure { .. })));
    let kept = run(&png(1, 1), "png", "high");
    assert_eq!((kept.width, kept.height), (1, 1));
}

#[test]
fn an_encode_failure_carries_the_codec_reason() {
    match process_image(&png(1, 1), "png", "picture", "low") {
        Err(PipelineError::EncodeFailure { reason }) => assert!(!reason.is_empty()),
        other => panic!("expected an encode failure, got {:?}", other),
    }
}

#[test]
fn the_same_invocation_gives_the_same_payload() {
    let input = jpeg(48, 36);
    assert_eq!(run(&input, "jpg", "med"), run(&input, "jpg", "med"));
    assert_eq!(run(&input, "jpg", "med"), run(&input, "jpeg", "med"));
}
