use ray_tracer_challenge::canvas::Canvas;
use ray_tracer_challenge::encode::{encoder_outcome, EncodeError, HEADER_LENGTH, WIDTH_LIMIT};
use ray_tracer_challenge::rgba::{Rgb8, OPAQUE};

const PNG_SIGNATURE: [u8; 8] = [137, 80, 78, 71, 13, 10, 26, 10];

/// Tone mapping as a caller does it before handing samples over: each
/// channel is divided by the largest of the three and scaled to 255, then
/// bounded to [0, 255] and truncated.
fn tone_map(red: f64, green: f64, blue: f64) -> Rgb8 {
    let max_value = red.max(green).max(blue);
    let scale = |channel: f64| -> u8 {
        let scaled = if max_value == 0.0 { 0.0 } else { (channel / max_value) * 255.0 };
        scaled.min(255.0).max(0.0) as u8
    };
    Rgb8 { red: scale(red), green: scale(green), blue: scale(blue) }
}

fn decode(file: &[u8]) -> (u32, u32, png::ColorType, png::BitDepth, Vec<u8>) {
    let decoder = png::Decoder::new(file);
    let mut reader = decoder.read_info().unwrap();
    let mut buffer = vec![0; reader.output_buffer_size()];
    let info = reader.next_frame(&mut buffer).unwrap();
    buffer.truncate(info.buffer_size());
    (info.width, info.height, info.color_type, info.bit_depth, buffer)
}

#[test]
fn samples_are_packed_as_rgba_in_buffer_order() {
    let pixels = vec![
        Rgb8 { red: 1, green: 2, blue: 3 },
        Rgb8 { red: 4, green: 5, blue: 6 },
        Rgb8 { red: 7, green: 8, blue: 9 },
        Rgb8 { red: 10, green: 11, blue: 12 },
        Rgb8 { red: 0, green: 0, blue: 0 },
        Rgb8 { red: 255, green: 255, blue: 255 },
    ];
    let canvas = Canvas::from_pixels(3, 2, pixels).unwrap();
    assert_eq!(
        canvas.as_rgba32(),
        vec![
            1, 2, 3, 255, 4, 5, 6, 255, 7, 8, 9, 255, 10, 11, 12, 255, 0, 0, 0, 255, 255, 255,
            255, 255
        ]
    );
}

#[test]
fn the_alpha_of_every_sample_is_opaque() {
    assert_eq!(OPAQUE, 255);
    let canvas = Canvas::new(5, 4, Rgb8 { red: 9, green: 8, blue: 7 });
    let bytes = canvas.as_rgba32();
    assert_eq!(bytes.len(), 80);
    for sample in bytes.chunks(4) {
        assert_eq!(sample, &[9, 8, 7, 255]);
    }
}

#[test]
fn packing_leaves_the_canvas_as_it_was() {
    let mut canvas = Canvas::new(2, 2, Rgb8 { red: 0, green: 0, blue: 0 });
    canvas.write_pixel(1, 0, Rgb8 { red: 200, green: 100, blue: 50 }).unwrap();
    let before = canvas.pixels().clone();
    let _ = canvas.as_rgba32();
    let _ = canvas.write_png_data().unwrap();
    assert_eq!(canvas.pixels(), &before);
    assert_eq!(canvas.pixel_at(1, 0), Ok(Rgb8 { red: 200, green: 100, blue: 50 }));
}

#[test]
fn an_empty_canvas_packs_to_no_bytes() {
    let canvas = Canvas::new(0, 3, Rgb8 { red: 1, green: 1, blue: 1 });
    assert_eq!(canvas.as_rgba32(), Vec::<u8>::new());
}

#[test]
fn a_canvas_is_encoded_as_a_png_file_that_decodes_to_its_samples() {
    let mut canvas = Canvas::new(3, 2, Rgb8 { red: 0, green: 0, blue: 0 });
    canvas.write_pixel(0, 0, Rgb8 { red: 255, green: 0, blue: 0 }).unwrap();
    canvas.write_pixel(2, 0, Rgb8 { red: 0, green: 255, blue: 0 }).unwrap();
    canvas.write_pixel(1, 1, Rgb8 { red: 1, green: 2, blue: 3 }).unwrap();

    let file = canvas.write_png_data().unwrap();
    assert_eq!(&file[..8], &PNG_SIGNATURE);
    assert_ne!(file, canvas.as_rgba32());

    let (width, height, color_type, bit_depth, samples) = decode(&file);
    assert_eq!(width, 3);
    assert_eq!(height, 2);
    assert_eq!(color_type, png::ColorType::Rgba);
    assert_eq!(bit_depth, png::BitDepth::Eight);
    assert_eq!(samples, canvas.as_rgba32());
    assert_eq!(
        samples,
        vec![
            255, 0, 0, 255, 0, 0, 0, 255, 0, 255, 0, 255, 0, 0, 0, 255, 1, 2, 3, 255, 0, 0, 0,
            255
        ]
    );
}

#[test]
fn encoding_mid_gray_twice_gives_the_same_bytes() {
    let canvas = Canvas::new(10, 20, (0.5f64, 0.5f64, 0.5f64));
    let quantize = |(red, green, blue): (f64, f64, f64)| tone_map(red, green, blue);

    let first = canvas.map(quantize).write_png_data().unwrap();
    let second = canvas.map(quantize).write_png_data().unwrap();
    assert_eq!(first, second);

    let samples = canvas.map(quantize).as_rgba32();
    assert_eq!(samples, vec![255u8; 800]);
    assert_eq!(canvas.pixel_at(3, 4), Ok((0.5, 0.5, 0.5)));

    let same_again = Canvas::new(10, 20, Rgb8 { red: 255, green: 255, blue: 255 });
    assert_eq!(same_again.write_png_data().unwrap(), first);
}

#[test]
fn equal_canvases_encode_alike_and_different_ones_do_not() {
    let mut first = Canvas::new(4, 4, Rgb8 { red: 10, green: 20, blue: 30 });
    let mut second = Canvas::from_pixels(4, 4, vec![Rgb8 { red: 10, green: 20, blue: 30 }; 16])
        .unwrap();
    assert_eq!(first.write_png_data().unwrap(), second.write_png_data().unwrap());

    first.write_pixel(3, 3, Rgb8 { red: 0, green: 0, blue: 0 }).unwrap();
    assert_ne!(first.write_png_data().unwrap(), second.write_png_data().unwrap());
    second.write_pixel(3, 3, Rgb8 { red: 0, green: 0, blue: 0 }).unwrap();
    assert_eq!(first.write_png_data().unwrap(), second.write_png_data().unwrap());

    let wide = Canvas::new(8, 2, Rgb8 { red: 10, green: 20, blue: 30 });
    let tall = Canvas::new(2, 8, Rgb8 { red: 10, green: 20, blue: 30 });
    assert_eq!(wide.as_rgba32(), tall.as_rgba32());
    assert_ne!(wide.write_png_data().unwrap(), tall.write_png_data().unwrap());
}

#[test]
fn encoding_tone_maps_and_packs_every_pixel_in_buffer_order() {
    let quantize = |(red, green, blue): (f64, f64, f64)| tone_map(red, green, blue);
    let mut canvas = Canvas::new(2, 2, (0.0f64, 0.0f64, 0.0f64));
    canvas.write_pixel(1, 0, (1.0, 0.0, 0.0)).unwrap();
    canvas.write_pixel(0, 1, (0.5, 1.0, 0.25)).unwrap();
    canvas.write_pixel(1, 1, (3.0, 3.0, 1.5)).unwrap();

    let color_data = canvas.encode(quantize);
    assert_eq!(
        color_data,
        vec![0, 0, 0, 255, 255, 0, 0, 255, 127, 255, 63, 255, 255, 255, 127, 255]
    );
    assert_eq!(color_data, canvas.map(quantize).as_rgba32());

    assert_eq!(canvas.pixel_at(1, 1), Ok((3.0, 3.0, 1.5)));
    assert_eq!(canvas.encode(quantize), color_data);
}

#[test]
fn hue_is_kept_when_channels_are_compressed() {
    // the largest channel goes to 255 and the others keep their ratio to it
    let bright = Canvas::new(1, 1, tone_map(2.0, 1.0, 0.5));
    assert_eq!(bright.as_rgba32(), vec![255, 127, 63, 255]);
    let black = Canvas::new(1, 1, tone_map(0.0, 0.0, 0.0));
    assert_eq!(black.as_rgba32(), vec![0, 0, 0, 255]);
    let partly_negative = Canvas::new(1, 1, tone_map(1.0, -1.0, 0.25));
    assert_eq!(partly_negative.as_rgba32(), vec![255, 0, 63, 255]);
}

#[test]
fn a_canvas_without_columns_is_not_encoded() {
    let canvas = Canvas::new(0, 3, Rgb8 { red: 0, green: 0, blue: 0 });
    let result = canvas.write_png_data();
    assert!(matches!(result, Err(EncodeError::ZeroWidth)));
    assert_eq!(result.unwrap_err().message(), "Cannot encode an image of zero width.");

    let nothing_at_all = Canvas::new(0, 0, Rgb8 { red: 0, green: 0, blue: 0 });
    assert!(matches!(nothing_at_all.write_png_data(), Err(EncodeError::ZeroWidth)));
}

#[test]
fn a_canvas_without_rows_is_not_encoded() {
    let canvas = Canvas::new(3, 0, Rgb8 { red: 0, green: 0, blue: 0 });
    let result = canvas.write_png_data();
    assert!(matches!(result, Err(EncodeError::ZeroHeight)));
    assert_eq!(result.unwrap_err().message(), "Cannot encode an image of zero height.");
}

#[test]
fn the_file_starts_with_the_signature_and_the_size() {
    let canvas = Canvas::new(258, 3, Rgb8 { red: 1, green: 2, blue: 3 });
    let file = canvas.write_png_data().unwrap();
    assert_eq!(HEADER_LENGTH, 29);
    assert_eq!(
        &file[..HEADER_LENGTH],
        &[
            137, 80, 78, 71, 13, 10, 26, 10, 0, 0, 0, 13, 73, 72, 68, 82, 0, 0, 1, 2, 0, 0, 0, 3,
            8, 6, 0, 0, 0
        ]
    );

    let tall = Canvas::new(1, 70_000, Rgb8 { red: 0, green: 0, blue: 0 });
    let file = tall.write_png_data().unwrap();
    assert_eq!(&file[16..24], &[0, 0, 0, 1, 0, 1, 17, 112]);
    let (width, height, _, _, samples) = decode(&file);
    assert_eq!((width, height), (1, 70_000));
    assert_eq!(samples, tall.as_rgba32());
}

#[test]
fn every_canvas_with_a_pixel_gets_its_file() {
    for (width, height) in [(1, 1), (1, 9), (9, 1), (17, 13), (900, 550)] {
        let mut canvas = Canvas::new(width, height, Rgb8 { red: 0, green: 0, blue: 0 });
        canvas.write_pixel(width - 1, height - 1, Rgb8 { red: 7, green: 77, blue: 177 }).unwrap();
        let file = canvas.write_png_data().unwrap();
        let (decoded_width, decoded_height, _, _, samples) = decode(&file);
        assert_eq!(decoded_width as usize, width);
        assert_eq!(decoded_height as usize, height);
        assert_eq!(samples, canvas.as_rgba32());
    }
}

#[test]
fn a_canvas_as_wide_as_the_limit_is_not_encoded() {
    assert_eq!(WIDTH_LIMIT, 1 << 30);
    let at_the_limit = Canvas::<Rgb8>::from_pixels(1 << 30, 0, Vec::new()).unwrap();
    assert!(matches!(at_the_limit.write_png_data(), Err(EncodeError::TooLarge)));

    let below_the_limit = Canvas::<Rgb8>::from_pixels((1 << 30) - 1, 0, Vec::new()).unwrap();
    assert!(matches!(below_the_limit.write_png_data(), Err(EncodeError::ZeroHeight)));
}

#[test]
fn a_canvas_too_large_for_the_file_format_is_not_encoded() {
    if usize::BITS > 32 {
        let too_wide = Canvas::<Rgb8>::from_pixels(usize::MAX, 0, Vec::new()).unwrap();
        let result = too_wide.write_png_data();
        assert!(matches!(result, Err(EncodeError::TooLarge)));
        assert_eq!(result.unwrap_err().message(), "Cannot encode an image this large.");

        let too_tall = Canvas::<Rgb8>::from_pixels(0, usize::MAX, Vec::new()).unwrap();
        assert!(matches!(too_tall.write_png_data(), Err(EncodeError::TooLarge)));
    }
}

#[test]
fn the_answer_of_the_encoder_is_passed_on() {
    let file = encoder_outcome(Ok(vec![1, 2, 3]));
    assert_eq!(file.unwrap(), vec![1, 2, 3]);

    let failed = encoder_outcome(Err(png::EncodingError::LimitsExceeded));
    match failed {
        Err(EncodeError::Encoder(cause)) => {
            assert!(matches!(cause, png::EncodingError::LimitsExceeded));
        }
        _ => panic!("the cause was lost"),
    }

    let failed = encoder_outcome(Err(png::EncodingError::LimitsExceeded));
    assert_eq!(failed.unwrap_err().message(), "The PNG encoder failed.");
}
