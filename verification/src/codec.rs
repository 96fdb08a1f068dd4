//! The codec libraries, each call behind a contract that is taken on
//! trust. An image is carried through without looking inside; what the
//! library itself reads of one is copied out into a frame of plain values.
use crate::converter::SupportedFormat;
use std::path::PathBuf;
use vstd::prelude::*;

verus! {

/// A decoded image of the `image` crate.
#[verifier::external_type_specification]
#[verifier::external_body]
pub struct ExDynamicImage(image::DynamicImage);

/// A failure of the `image` crate.
#[verifier::external_type_specification]
#[verifier::external_body]
pub struct ExImageError(image::ImageError);

/// A container format of the `image` crate.
#[verifier::external_type_specification]
#[verifier::external_body]
pub struct ExImageFormat(image::ImageFormat);

/// What `ImageFormat::from_path` makes of a path.
pub uninterp spec fn format_of(path: PathBuf) -> Result<image::ImageFormat, image::ImageError>;

/// What `image::load_from_memory_with_format` makes of the bytes of a file
/// in a container format.
pub uninterp spec fn decoding_of(data: Seq<u8>, format: image::ImageFormat) -> Result<
    image::DynamicImage,
    image::ImageError,
>;

/// What `ImageError`'s `to_string` makes of a failure.
pub uninterp spec fn error_text_of(error: image::ImageError) -> Seq<char>;

/// The bytes that `DynamicImage::as_bytes` hands out: the whole pixel
/// buffer of an image.
pub uninterp spec fn bytes_of(image: image::DynamicImage) -> Seq<u8>;

/// What `DynamicImage::width` gives.
pub uninterp spec fn width_of(image: image::DynamicImage) -> u32;

/// What `DynamicImage::height` gives.
pub uninterp spec fn height_of(image: image::DynamicImage) -> u32;

/// What `ColorType::bytes_per_pixel` gives for the colour type of an
/// image.
pub uninterp spec fn pixel_bytes_of(image: image::DynamicImage) -> u8;

/// The pixels that `DynamicImage::to_rgba8` gives, four bytes each, row by
/// row.
pub uninterp spec fn rgba_of(image: image::DynamicImage) -> Seq<u8>;

/// What `DynamicImage::write_to` writes for an image in the container
/// format that stands for a target format.
pub uninterp spec fn container_of(image: image::DynamicImage, format: SupportedFormat) -> Result<
    Seq<u8>,
    image::ImageError,
>;

/// What `DynamicImage::write_with_encoder` writes for an image with a JPEG
/// encoder of a quality.
pub uninterp spec fn jpeg_of(image: image::DynamicImage, quality: u8) -> Result<
    Seq<u8>,
    image::ImageError,
>;

/// The pixel buffer of the image holds exactly its pixels. The encoders of
/// the `image` crate take no other image.
pub open spec fn fills_buffer(image: image::DynamicImage) -> bool {
    bytes_of(image).len() == width_of(image) * height_of(image) * pixel_bytes_of(image)
}

/// What a frame holds, as plain values.
pub struct FrameView {
    pub width: u32,
    pub height: u32,
    pub data: Seq<u8>,
}

/// The frame that an image converts to.
pub open spec fn frame_of(image: image::DynamicImage) -> FrameView {
    FrameView { width: width_of(image), height: height_of(image), data: rgba_of(image) }
}

/// The pixels of an image as straight 8-bit RGBA, row by row.
pub struct RgbaFrame {
    pub width: u32,
    pub height: u32,
    pub data: Vec<u8>,
}

impl View for RgbaFrame {
    type V = FrameView;

    open spec fn view(&self) -> FrameView {
        FrameView { width: self.width, height: self.height, data: self.data@ }
    }
}

impl FrameView {
    /// The data holds four bytes for each pixel.
    pub open spec fn wf(self) -> bool {
        self.data.len() == self.width * self.height * 4
    }

    /// The frame has a pixel.
    pub open spec fn has_pixels(self) -> bool {
        self.width > 0 && self.height > 0
    }
}

impl RgbaFrame {
    /// The data holds four bytes for each pixel.
    pub open spec fn wf(&self) -> bool {
        self@.wf()
    }

    /// Whether the data holds four bytes for each pixel.
    pub fn is_consistent(&self) -> (consistent: bool)
        ensures
            consistent == self.wf(),
    {
        let width: u128 = self.width as u128;
        let height: u128 = self.height as u128;
        assert(width * height <= 0xFFFF_FFFF * 0xFFFF_FFFF) by (nonlinear_arith)
            requires
                width <= 0xFFFF_FFFF,
                height <= 0xFFFF_FFFF,
        ;
        let pixels: u128 = width * height;
        self.data.len() as u128 == pixels * 4
    }

    /// Whether the frame has no pixel at all.
    pub fn is_empty(&self) -> (empty: bool)
        ensures
            empty == !self@.has_pixels(),
    {
        self.width == 0 || self.height == 0
    }
}

/// `ImageFormat::from_path`: the container format that the extension of
/// the path stands for, or the failure that says it stands for none.
#[verifier::external_body]
pub(crate) fn format_of_path(path: &PathBuf) -> (format: Result<
    image::ImageFormat,
    image::ImageError,
>)
    ensures
        format == format_of(*path),
{
    image::ImageFormat::from_path(path)
}

/// `image::load_from_memory_with_format`: the image that `data` holds in
/// the given container format, or the decoder's failure.
#[verifier::external_body]
pub(crate) fn decode_as(data: &[u8], format: image::ImageFormat) -> (image: Result<
    image::DynamicImage,
    image::ImageError,
>)
    ensures
        image == decoding_of(data@, format),
{
    image::load_from_memory_with_format(data, format)
}

/// `ImageError`'s `to_string`: the failure in words.
#[verifier::external_body]
pub(crate) fn image_error_text(error: &image::ImageError) -> (text: String)
    ensures
        text@ == error_text_of(*error),
{
    error.to_string()
}

/// `DynamicImage::as_bytes`: the length of the pixel buffer of the image.
#[verifier::external_body]
pub(crate) fn buffer_length(image: &image::DynamicImage) -> (length: usize)
    ensures
        length == bytes_of(*image).len(),
{
    image.as_bytes().len()
}

/// `DynamicImage::width`: the width of the image in pixels.
#[verifier::external_body]
pub(crate) fn image_width(image: &image::DynamicImage) -> (width: u32)
    ensures
        width == width_of(*image),
{
    image.width()
}

/// `DynamicImage::height`: the height of the image in pixels.
#[verifier::external_body]
pub(crate) fn image_height(image: &image::DynamicImage) -> (height: u32)
    ensures
        height == height_of(*image),
{
    image.height()
}

/// `ColorType::bytes_per_pixel`, of `DynamicImage::color`: the number of
/// bytes that one pixel of the image takes.
#[verifier::external_body]
pub(crate) fn pixel_bytes(image: &image::DynamicImage) -> (bytes: u8)
    ensures
        bytes == pixel_bytes_of(*image),
{
    image.color().bytes_per_pixel()
}

/// `DynamicImage::write_to`: the image in the container format that
/// stands for the target format, or the encoder's failure. The encoders
/// refuse, by a panic, an image whose buffer holds more than its pixels.
#[verifier::external_body]
pub(crate) fn write_container(image: &image::DynamicImage, format: SupportedFormat) -> (bytes:
    Result<Vec<u8>, image::ImageError>)
    requires
        fills_buffer(*image),
    ensures
        match bytes {
            Ok(written) => container_of(*image, format) == Ok::<Seq<u8>, image::ImageError>(
                written@,
            ),
            Err(failure) => container_of(*image, format) == Err::<Seq<u8>, image::ImageError>(
                failure,
            ),
        },
{
    let container = match format {
        SupportedFormat::Png => image::ImageFormat::Png,
        SupportedFormat::Jpeg => image::ImageFormat::Jpeg,
        SupportedFormat::WebP => image::ImageFormat::WebP,
        SupportedFormat::Avif => image::ImageFormat::Avif,
        SupportedFormat::Gif => image::ImageFormat::Gif,
        SupportedFormat::Bmp => image::ImageFormat::Bmp,
        SupportedFormat::Tiff => image::ImageFormat::Tiff,
        SupportedFormat::Ico => image::ImageFormat::Ico,
    };
    let mut bytes = Vec::new();
    image.write_to(&mut std::io::Cursor::new(&mut bytes), container).map(|_| bytes)
}

/// `DynamicImage::write_with_encoder` on a `JpegEncoder::new_with_quality`:
/// the image as JPEG at the given quality, which the encoder confines to
/// 1..=100, or the encoder's failure. The encoder refuses, by a panic, an
/// image whose buffer holds more than its pixels.
#[verifier::external_body]
pub(crate) fn write_jpeg(image: &image::DynamicImage, quality: u8) -> (bytes: Result<
    Vec<u8>,
    image::ImageError,
>)
    requires
        fills_buffer(*image),
    ensures
        match bytes {
            Ok(written) => jpeg_of(*image, quality) == Ok::<Seq<u8>, image::ImageError>(
                written@,
            ),
            Err(failure) => jpeg_of(*image, quality) == Err::<Seq<u8>, image::ImageError>(
                failure,
            ),
        },
{
    let mut bytes = Vec::new();
    let encoder = image::codecs::jpeg::JpegEncoder::new_with_quality(&mut bytes, quality);
    image.write_with_encoder(encoder).map(|_| bytes)
}

/// `DynamicImage::to_rgba8`, read through `ImageBuffer::pixels`: the
/// pixels of the image as straight 8-bit RGBA, four bytes for each, with
/// the width and height of the image.
#[verifier::external_body]
pub(crate) fn rgba_frame(image: &image::DynamicImage) -> (frame: RgbaFrame)
    ensures
        frame.width == width_of(*image),
        frame.height == height_of(*image),
        frame.data@ == rgba_of(*image),
        frame.wf(),
{
    let pixels = image.to_rgba8();
    let data = pixels.pixels().flat_map(|pixel| pixel.0).collect();
    RgbaFrame { width: pixels.width(), height: pixels.height(), data }
}

} // verus!
