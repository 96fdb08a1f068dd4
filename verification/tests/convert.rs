use image::{DynamicImage, GenericImageView, ImageFormat, Rgb, RgbImage, Rgba, RgbaImage};
use pixelconvert::codec::RgbaFrame;
use pixelconvert::converter::{ConversionOptions, Encoding, ImageConverter, SupportedFormat};
use pixelconvert::error::{ConversionError, ErrorStage};
use std::io::Cursor;
use std::path::PathBuf;

fn gradient_rgba(width: u32, height: u32) -> DynamicImage {
    DynamicImage::ImageRgba8(RgbaImage::from_fn(width, height, |x, y| {
        Rgba([(x * 7 % 256) as u8, (y * 13 % 256) as u8, ((x + y) % 256) as u8, 255 - (x % 2) as u8 * 100])
    }))
}

fn gradient_rgb(width: u32, height: u32) -> DynamicImage {
    DynamicImage::ImageRgb8(RgbImage::from_fn(width, height, |x, y| {
        Rgb([(x * 5 % 256) as u8, (y * 11 % 256) as u8, ((x * y) % 256) as u8])
    }))
}

fn png_bytes(image: &DynamicImage) -> Vec<u8> {
    let mut bytes = Vec::new();
    image.write_to(&mut Cursor::new(&mut bytes), ImageFormat::Png).unwrap();
    bytes
}

fn converter(format: SupportedFormat, quality: u8) -> ImageConverter {
    ImageConverter::new(ConversionOptions { quality, format })
}

fn ready(encoding: Result<Encoding, ConversionError>) -> Vec<u8> {
    match encoding {
        Ok(Encoding::Ready { bytes }) => bytes,
        Ok(_) => panic!("the format needs no encoder run on request"),
        Err(error) => panic!("conversion failed: {}", error.description()),
    }
}

fn run_webp(frame: &RgbaFrame, quality: u8) -> Result<Vec<u8>, String> {
    let encoder = webp::Encoder::from_rgba(&frame.data, frame.width, frame.height);
    match encoder.encode_simple(false, quality as f32) {
        Ok(memory) => Ok(memory.to_vec()),
        Err(error) => Err(format!("{:?}", error)),
    }
}

#[test]
fn png_round_trip_keeps_every_pixel() {
    let source = gradient_rgba(17, 9);
    let input = png_bytes(&source);
    let bytes = ready(converter(SupportedFormat::Png, 85).convert(&PathBuf::from("in/picture.png"), &input));
    let back = image::load_from_memory_with_format(&bytes, ImageFormat::Png).unwrap();
    assert_eq!(back.dimensions(), (17, 9));
    assert_eq!(back.to_rgba8().into_raw(), source.to_rgba8().into_raw());
}

#[test]
fn lossless_containers_keep_every_pixel() {
    let source = gradient_rgb(12, 10);
    let input = png_bytes(&source);
    for (format, container) in [
        (SupportedFormat::Bmp, ImageFormat::Bmp),
        (SupportedFormat::Tiff, ImageFormat::Tiff),
    ] {
        let bytes = ready(converter(format, 85).convert(&PathBuf::from("picture.png"), &input));
        let back = image::load_from_memory_with_format(&bytes, container).unwrap();
        assert_eq!(back.dimensions(), (12, 10));
        assert_eq!(back.to_rgb8().into_raw(), source.to_rgb8().into_raw());
    }
}

#[test]
fn ico_keeps_every_pixel() {
    let source = gradient_rgba(12, 10);
    let input = png_bytes(&source);
    let bytes = ready(converter(SupportedFormat::Ico, 85).convert(&PathBuf::from("picture.png"), &input));
    let back = image::load_from_memory_with_format(&bytes, ImageFormat::Ico).unwrap();
    assert_eq!(back.dimensions(), (12, 10));
    assert_eq!(back.to_rgba8().into_raw(), source.to_rgba8().into_raw());
}

#[test]
fn gif_keeps_the_dimensions() {
    let input = png_bytes(&gradient_rgb(12, 10));
    let bytes = ready(converter(SupportedFormat::Gif, 85).convert(&PathBuf::from("picture.png"), &input));
    let back = image::load_from_memory_with_format(&bytes, ImageFormat::Gif).unwrap();
    assert_eq!(back.dimensions(), (12, 10));
}

#[test]
fn jpeg_keeps_the_dimensions() {
    let input = png_bytes(&gradient_rgb(33, 21));
    let bytes = ready(converter(SupportedFormat::Jpeg, 85).convert(&PathBuf::from("picture.png"), &input));
    let back = image::load_from_memory_with_format(&bytes, ImageFormat::Jpeg).unwrap();
    assert_eq!(back.dimensions(), (33, 21));
}

#[test]
fn jpeg_heeds_the_quality() {
    let input = png_bytes(&gradient_rgb(64, 64));
    let path = PathBuf::from("picture.png");
    let small = ready(converter(SupportedFormat::Jpeg, 5).convert(&path, &input));
    let large = ready(converter(SupportedFormat::Jpeg, 100).convert(&path, &input));
    assert!(small.len() < large.len());
}

#[test]
fn png_ignores_the_quality() {
    let input = png_bytes(&gradient_rgb(16, 16));
    let path = PathBuf::from("picture.png");
    let low = ready(converter(SupportedFormat::Png, 0).convert(&path, &input));
    let high = ready(converter(SupportedFormat::Png, 100).convert(&path, &input));
    assert_eq!(low, high);
}

#[test]
fn the_extension_of_the_path_names_the_container() {
    let input = png_bytes(&gradient_rgb(8, 8));
    let converter = converter(SupportedFormat::Bmp, 85);
    assert!(converter.convert(&PathBuf::from("picture.PNG"), &input).is_ok());
    let wrong = converter.convert(&PathBuf::from("picture.jpg"), &input);
    match wrong {
        Err(error) => assert_eq!(error.stage, ErrorStage::Decode),
        Ok(_) => panic!("a PNG file was decoded as JPEG"),
    }
}

#[test]
fn corrupt_input_is_a_decode_failure() {
    let result = converter(SupportedFormat::Png, 85).convert(&PathBuf::from("broken.png"), b"not an image at all");
    match result {
        Err(error) => {
            assert_eq!(error.stage, ErrorStage::Decode);
            assert_eq!(error.context, "Failed to open image");
            assert!(!error.detail.is_empty());
            assert!(error.description().starts_with("Failed to open image: "));
        }
        Ok(_) => panic!("corrupt data was decoded"),
    }
}

#[test]
fn a_path_without_extension_is_a_decode_failure() {
    let input = png_bytes(&gradient_rgb(8, 8));
    let result = ImageConverter::load_image(&PathBuf::from("picture"), &input);
    match result {
        Err(error) => {
            assert_eq!(error.stage, ErrorStage::Decode);
            assert_eq!(error.context, "Failed to open image");
        }
        Ok(_) => panic!("a file without extension was decoded"),
    }
}

#[test]
fn an_unknown_extension_is_a_decode_failure() {
    let input = png_bytes(&gradient_rgb(8, 8));
    let result = ImageConverter::load_image(&PathBuf::from("picture.xyz"), &input);
    assert!(matches!(result, Err(error) if error.stage == ErrorStage::Decode));
}

#[test]
fn load_image_decodes_what_the_file_holds() {
    let source = gradient_rgba(5, 4);
    let image = ImageConverter::load_image(&PathBuf::from("picture.png"), &png_bytes(&source)).unwrap();
    assert_eq!(image.dimensions(), (5, 4));
    assert_eq!(image.to_rgba8().into_raw(), source.to_rgba8().into_raw());
}

#[test]
fn an_image_too_large_for_ico_is_an_encode_failure() {
    let input = png_bytes(&gradient_rgb(300, 4));
    let result = converter(SupportedFormat::Ico, 85).convert(&PathBuf::from("wide.png"), &input);
    match result {
        Err(error) => {
            assert_eq!(error.stage, ErrorStage::Encode);
            assert_eq!(error.context, "Failed to save ICO");
            assert!(!error.detail.is_empty());
        }
        Ok(_) => panic!("an image of 300 pixels was stored as ICO"),
    }
}

#[test]
fn webp_is_left_to_the_encoder_with_the_quality() {
    let source = gradient_rgba(20, 10);
    let result = converter(SupportedFormat::WebP, 80).convert(&PathBuf::from("picture.png"), &png_bytes(&source));
    match result {
        Ok(Encoding::WebP { frame, quality }) => {
            assert_eq!(quality, 80);
            assert_eq!((frame.width, frame.height), (20, 10));
            assert_eq!(frame.data, source.to_rgba8().into_raw());
            let bytes = converter(SupportedFormat::WebP, 80).encoded(run_webp(&frame, quality)).unwrap();
            let back = image::load_from_memory_with_format(&bytes, ImageFormat::WebP).unwrap();
            assert_eq!(back.dimensions(), (20, 10));
        }
        _ => panic!("a WebP conversion has to ask for the WebP encoder"),
    }
}

#[test]
fn webp_takes_an_image_of_any_layout() {
    let grey = DynamicImage::ImageLuma8(image::GrayImage::from_fn(6, 5, |x, y| image::Luma([(x + y) as u8])));
    let deep = DynamicImage::ImageRgb16(image::ImageBuffer::from_fn(6, 5, |x, y| {
        Rgb([(x * 9000) as u16, (y * 9000) as u16, 65535])
    }));
    let plain = gradient_rgb(6, 5);
    for source in [grey, deep, plain] {
        match converter(SupportedFormat::WebP, 75).save_image(source.clone()) {
            Ok(Encoding::WebP { frame, quality }) => {
                assert_eq!(quality, 75);
                assert_eq!((frame.width, frame.height), (6, 5));
                assert_eq!(frame.data, source.to_rgba8().into_raw());
                let bytes = run_webp(&frame, quality).unwrap();
                let back = image::load_from_memory_with_format(&bytes, ImageFormat::WebP).unwrap();
                assert_eq!(back.dimensions(), (6, 5));
            }
            _ => panic!("the WebP encoder is asked for every layout"),
        }
    }
}

#[test]
fn webp_refuses_a_frame_without_pixels() {
    let converter = converter(SupportedFormat::WebP, 80);
    match converter.webp_request(RgbaFrame { width: 4, height: 0, data: Vec::new() }) {
        Err(error) => {
            assert_eq!(error.stage, ErrorStage::Encode);
            assert_eq!(error.description(), "Failed to create WebP encoder: the image has no pixels");
        }
        Ok(_) => panic!("a frame without pixels was handed to the WebP encoder"),
    }
    match converter.webp_request(RgbaFrame { width: 2, height: 2, data: vec![0; 3] }) {
        Err(error) => assert_eq!(error.detail, "the pixel data does not fit the size of the image"),
        Ok(_) => panic!("a frame with too little data was handed to the WebP encoder"),
    }
}

#[test]
fn an_image_with_a_roomy_buffer_is_refused_not_encoded() {
    let path = PathBuf::from("picture.png");
    for format in [
        SupportedFormat::Png,
        SupportedFormat::Jpeg,
        SupportedFormat::Gif,
        SupportedFormat::Bmp,
        SupportedFormat::Tiff,
        SupportedFormat::Ico,
    ] {
        let roomy = DynamicImage::ImageRgb8(RgbImage::from_raw(2, 2, vec![7u8; 50]).unwrap());
        assert!(!pixelconvert::converter::buffer_fits(&roomy));
        match converter(format, 85).save_image(roomy) {
            Err(error) => {
                assert_eq!(error.stage, ErrorStage::Encode);
                assert_eq!(error.detail, "the pixel buffer does not fit the size of the image");
            }
            Ok(_) => panic!("an image with a roomy buffer was encoded"),
        }
        let exact = DynamicImage::ImageRgb8(RgbImage::from_raw(2, 2, vec![7u8; 12]).unwrap());
        assert!(pixelconvert::converter::buffer_fits(&exact));
        assert!(converter(format, 85).save_image(exact).is_ok());
    }
    let input = png_bytes(&gradient_rgb(3, 3));
    let loaded = ImageConverter::load_image(&path, &input).unwrap();
    assert!(pixelconvert::converter::buffer_fits(&loaded));
}

#[test]
fn a_failure_to_load_is_handed_on_as_it_is() {
    let failure = ImageConverter::unreadable("gone".to_string());
    for format in SupportedFormat::all() {
        match converter(format, 85).save_loaded(Err(failure.clone())) {
            Err(error) => assert_eq!(error, failure),
            Ok(_) => panic!("a failure to load became an encoding"),
        }
    }
    let bytes = ready(converter(SupportedFormat::Bmp, 85).save_loaded(Ok(gradient_rgb(4, 4))));
    assert!(!bytes.is_empty());
}

#[test]
fn the_decoder_s_words_are_kept() {
    let words = image::load_from_memory_with_format(b"not a png", ImageFormat::Png).unwrap_err().to_string();
    match ImageConverter::load_image(&PathBuf::from("broken.png"), b"not a png") {
        Err(error) => assert_eq!(error.detail, words),
        Ok(_) => panic!("corrupt data was decoded"),
    }
    let unknown = ImageFormat::from_path("picture.xyz").unwrap_err().to_string();
    match ImageConverter::load_image(&PathBuf::from("picture.xyz"), b"whatever") {
        Err(error) => assert_eq!(error.detail, unknown),
        Ok(_) => panic!("an unknown container was decoded"),
    }
}

#[test]
fn avif_is_left_to_the_encoder_with_its_settings() {
    let source = gradient_rgba(16, 8);
    let converter = converter(SupportedFormat::Avif, 70).with_parallelism(Some(3));
    match converter.save_image(source.clone()) {
        Ok(Encoding::Avif { frame, quality, speed, threads }) => {
            assert_eq!(quality, 70);
            assert_eq!(speed, 6);
            assert_eq!(threads, 3);
            assert_eq!((frame.width, frame.height), (16, 8));
            assert_eq!(frame.data, source.to_rgba8().into_raw());
        }
        _ => panic!("an AVIF conversion has to ask for the AVIF encoder"),
    }
}

#[test]
fn avif_frame_holds_the_pixels_and_no_more() {
    let roomy = RgbaImage::from_raw(2, 2, vec![9u8; 100]).unwrap();
    match converter(SupportedFormat::Avif, 50).save_image(DynamicImage::ImageRgba8(roomy)) {
        Ok(Encoding::Avif { frame, .. }) => {
            assert_eq!((frame.width, frame.height), (2, 2));
            assert_eq!(frame.data, vec![9u8; 16]);
            assert!(frame.is_consistent());
            assert!(!frame.is_empty());
        }
        _ => panic!("an AVIF conversion has to ask for the AVIF encoder"),
    }
}

#[test]
fn avif_threads_default_to_four() {
    let source = gradient_rgb(4, 4);
    for converter in [
        converter(SupportedFormat::Avif, 50),
        converter(SupportedFormat::Avif, 50).with_parallelism(None),
        converter(SupportedFormat::Avif, 50).with_parallelism(Some(0)),
    ] {
        match converter.save_image(source.clone()) {
            Ok(Encoding::Avif { threads, .. }) => assert_eq!(threads, 4),
            _ => panic!("an AVIF conversion has to ask for the AVIF encoder"),
        }
    }
}

#[test]
fn avif_refuses_a_quality_outside_its_range() {
    for quality in [0u8, 101, 255] {
        match converter(SupportedFormat::Avif, quality).save_image(gradient_rgb(4, 4)) {
            Err(error) => {
                assert_eq!(error.stage, ErrorStage::Encode);
                assert_eq!(error.context, "Failed to encode AVIF");
                assert_eq!(error.detail, "quality must be between 1 and 100");
            }
            Ok(_) => panic!("quality {} was handed to the AVIF encoder", quality),
        }
    }
    assert!(converter(SupportedFormat::Avif, 1).save_image(gradient_rgb(4, 4)).is_ok());
    assert!(converter(SupportedFormat::Avif, 100).save_image(gradient_rgb(4, 4)).is_ok());
}

#[test]
fn avif_refuses_a_frame_without_pixels() {
    let converter = converter(SupportedFormat::Avif, 50);
    let empty = RgbaFrame { width: 0, height: 5, data: Vec::new() };
    match converter.avif_request(empty) {
        Err(error) => assert_eq!(error.detail, "the image has no pixels"),
        Ok(_) => panic!("a frame without pixels was handed to the AVIF encoder"),
    }
    let short = RgbaFrame { width: 2, height: 2, data: vec![0; 15] };
    match converter.avif_request(short) {
        Err(error) => assert_eq!(error.detail, "the pixel data does not fit the size of the image"),
        Ok(_) => panic!("a frame with too little data was handed to the AVIF encoder"),
    }
}

#[test]
fn avif_request_encodes_to_an_avif_file() {
    let converter = converter(SupportedFormat::Avif, 60).with_parallelism(Some(1));
    match converter.save_image(gradient_rgba(16, 16)) {
        Ok(Encoding::Avif { frame, quality, speed, threads }) => {
            let pixels: Vec<ravif::RGBA8> = frame
                .data
                .chunks_exact(4)
                .map(|p| ravif::RGBA8::new(p[0], p[1], p[2], p[3]))
                .collect();
            let encoder = ravif::Encoder::new()
                .with_quality(quality as f32)
                .with_alpha_quality(quality as f32)
                .with_speed(speed)
                .with_num_threads(Some(threads));
            let encoded = encoder
                .encode_rgba(ravif::Img::new(&pixels[..], frame.width as usize, frame.height as usize))
                .map(|encoded| encoded.avif_file)
                .map_err(|error| error.to_string());
            let bytes = converter.encoded(encoded).unwrap();
            assert_eq!(&bytes[4..12], b"ftypavif");
        }
        _ => panic!("an AVIF conversion has to ask for the AVIF encoder"),
    }
}

#[test]
fn encoded_names_the_encoder_that_failed() {
    let webp = converter(SupportedFormat::WebP, 80).encoded(Err("VP8_ENC_ERROR_BAD_DIMENSION".to_string()));
    match webp {
        Err(error) => {
            assert_eq!(error.stage, ErrorStage::Encode);
            assert_eq!(error.description(), "Failed to encode WebP: VP8_ENC_ERROR_BAD_DIMENSION");
        }
        Ok(_) => panic!("a failure became a success"),
    }
    let avif = converter(SupportedFormat::Avif, 80).encoded(Err("Encoding error reported by rav1e".to_string()));
    match avif {
        Err(error) => assert_eq!(error.description(), "Failed to encode AVIF: Encoding error reported by rav1e"),
        Ok(_) => panic!("a failure became a success"),
    }
    assert_eq!(converter(SupportedFormat::WebP, 80).encoded(Ok(vec![1, 2, 3])), Ok(vec![1, 2, 3]));
}

#[test]
fn write_failure_names_the_file_that_was_not_written() {
    let detail = "Permission denied";
    let cases = [
        (SupportedFormat::Png, "Failed to save PNG"),
        (SupportedFormat::Jpeg, "Failed to save JPEG"),
        (SupportedFormat::WebP, "Failed to write WebP file"),
        (SupportedFormat::Avif, "Failed to write AVIF file"),
        (SupportedFormat::Gif, "Failed to save GIF"),
        (SupportedFormat::Bmp, "Failed to save BMP"),
        (SupportedFormat::Tiff, "Failed to save TIFF"),
        (SupportedFormat::Ico, "Failed to save ICO"),
    ];
    for (format, context) in cases {
        let error = converter(format, 85).write_failure(detail.to_string());
        assert_eq!(error.stage, ErrorStage::Write);
        assert_eq!(error.context, context);
        assert_eq!(error.description(), format!("{}: {}", context, detail));
    }
}

#[test]
fn unreadable_is_a_decode_failure() {
    let error = ImageConverter::unreadable("No such file or directory (os error 2)".to_string());
    assert_eq!(error.stage, ErrorStage::Decode);
    assert_eq!(error.description(), "Failed to open image: No such file or directory (os error 2)");
}

#[test]
fn a_description_is_never_empty() {
    let error = ConversionError::encode("", String::new());
    assert_eq!(error.description(), ": ");
}
