//! The format registry and the codec adapter.
use crate::batch::{concurrency_limit, parallelism, DEFAULT_CONCURRENCY};
use crate::codec::{
    buffer_length, container_of, decode_as, decoding_of, error_text_of, fills_buffer, format_of,
    format_of_path, frame_of, image_error_text, image_height, image_width, jpeg_of, pixel_bytes,
    rgba_frame, write_container, write_jpeg, FrameView, RgbaFrame,
};
use crate::error::{outcome_of, ConversionError, ErrorStage, ErrorView};
use image::{DynamicImage, ImageError};
use std::path::PathBuf;
use vstd::prelude::*;

verus! {

/// A target image format. The set is closed.
#[derive(Debug, Clone, Copy, PartialEq, Eq, Structural)]
pub enum SupportedFormat {
    Png,
    Jpeg,
    WebP,
    Avif,
    Gif,
    Bmp,
    Tiff,
    Ico,
}

impl SupportedFormat {
    /// The formats in their canonical order.
    pub open spec fn canonical() -> Seq<SupportedFormat> {
        seq![
            SupportedFormat::Png,
            SupportedFormat::Jpeg,
            SupportedFormat::WebP,
            SupportedFormat::Avif,
            SupportedFormat::Gif,
            SupportedFormat::Bmp,
            SupportedFormat::Tiff,
            SupportedFormat::Ico,
        ]
    }

    /// Position of a format in the canonical order.
    pub open spec fn position(self) -> int {
        match self {
            SupportedFormat::Png => 0,
            SupportedFormat::Jpeg => 1,
            SupportedFormat::WebP => 2,
            SupportedFormat::Avif => 3,
            SupportedFormat::Gif => 4,
            SupportedFormat::Bmp => 5,
            SupportedFormat::Tiff => 6,
            SupportedFormat::Ico => 7,
        }
    }

    /// The canonical file extension, without a dot.
    pub open spec fn extension_text(self) -> Seq<char> {
        match self {
            SupportedFormat::Png => "png"@,
            SupportedFormat::Jpeg => "jpg"@,
            SupportedFormat::WebP => "webp"@,
            SupportedFormat::Avif => "avif"@,
            SupportedFormat::Gif => "gif"@,
            SupportedFormat::Bmp => "bmp"@,
            SupportedFormat::Tiff => "tiff"@,
            SupportedFormat::Ico => "ico"@,
        }
    }

    /// The MIME type.
    pub open spec fn mime_text(self) -> Seq<char> {
        match self {
            SupportedFormat::Png => "image/png"@,
            SupportedFormat::Jpeg => "image/jpeg"@,
            SupportedFormat::WebP => "image/webp"@,
            SupportedFormat::Avif => "image/avif"@,
            SupportedFormat::Gif => "image/gif"@,
            SupportedFormat::Bmp => "image/bmp"@,
            SupportedFormat::Tiff => "image/tiff"@,
            SupportedFormat::Ico => "image/x-icon"@,
        }
    }

    /// The name shown to people.
    pub open spec fn display_text(self) -> Seq<char> {
        match self {
            SupportedFormat::Png => "PNG"@,
            SupportedFormat::Jpeg => "JPEG"@,
            SupportedFormat::WebP => "WebP"@,
            SupportedFormat::Avif => "AVIF"@,
            SupportedFormat::Gif => "GIF"@,
            SupportedFormat::Bmp => "BMP"@,
            SupportedFormat::Tiff => "TIFF"@,
            SupportedFormat::Ico => "ICO"@,
        }
    }

    /// The format chosen by a position in a selection list: the canonical
    /// format at that position, and WebP for a position past the end.
    pub open spec fn selected(index: int) -> SupportedFormat {
        if 0 <= index < Self::canonical().len() {
            Self::canonical()[index]
        } else {
            SupportedFormat::WebP
        }
    }

    pub fn extension(&self) -> (text: &'static str)
        ensures
            text@ == self.extension_text(),
    {
        match self {
            SupportedFormat::Png => "png",
            SupportedFormat::Jpeg => "jpg",
            SupportedFormat::WebP => "webp",
            SupportedFormat::Avif => "avif",
            SupportedFormat::Gif => "gif",
            SupportedFormat::Bmp => "bmp",
            SupportedFormat::Tiff => "tiff",
            SupportedFormat::Ico => "ico",
        }
    }

    pub fn mime_type(&self) -> (text: &'static str)
        ensures
            text@ == self.mime_text(),
    {
        match self {
            SupportedFormat::Png => "image/png",
            SupportedFormat::Jpeg => "image/jpeg",
            SupportedFormat::WebP => "image/webp",
            SupportedFormat::Avif => "image/avif",
            SupportedFormat::Gif => "image/gif",
            SupportedFormat::Bmp => "image/bmp",
            SupportedFormat::Tiff => "image/tiff",
            SupportedFormat::Ico => "image/x-icon",
        }
    }

    pub fn display_name(&self) -> (text: &'static str)
        ensures
            text@ == self.display_text(),
    {
        match self {
            SupportedFormat::Png => "PNG",
            SupportedFormat::Jpeg => "JPEG",
            SupportedFormat::WebP => "WebP",
            SupportedFormat::Avif => "AVIF",
            SupportedFormat::Gif => "GIF",
            SupportedFormat::Bmp => "BMP",
            SupportedFormat::Tiff => "TIFF",
            SupportedFormat::Ico => "ICO",
        }
    }

    /// Every format, in the canonical order.
    pub fn all() -> (formats: Vec<SupportedFormat>)
        ensures
            formats@ == Self::canonical(),
    {
        let formats = vec![
            SupportedFormat::Png,
            SupportedFormat::Jpeg,
            SupportedFormat::WebP,
            SupportedFormat::Avif,
            SupportedFormat::Gif,
            SupportedFormat::Bmp,
            SupportedFormat::Tiff,
            SupportedFormat::Ico,
        ];
        assert(formats@ =~= Self::canonical());
        formats
    }

    /// The format that a position in a selection list stands for.
    pub fn from_index(index: u32) -> (format: SupportedFormat)
        ensures
            format == Self::selected(index as int),
    {
        match index {
            0 => SupportedFormat::Png,
            1 => SupportedFormat::Jpeg,
            2 => SupportedFormat::WebP,
            3 => SupportedFormat::Avif,
            4 => SupportedFormat::Gif,
            5 => SupportedFormat::Bmp,
            6 => SupportedFormat::Tiff,
            7 => SupportedFormat::Ico,
            _ => SupportedFormat::WebP,
        }
    }
}

/// The settings of one conversion. The quality is meant to lie between 0
/// and 100; nothing here confines it.
#[derive(Debug, Clone, Copy, PartialEq, Eq, Structural)]
pub struct ConversionOptions {
    pub quality: u8,
    pub format: SupportedFormat,
}

impl Default for ConversionOptions {
    fn default() -> (options: ConversionOptions)
        ensures
            options.quality == 85,
            options.format == SupportedFormat::Png,
    {
        ConversionOptions { quality: 85, format: SupportedFormat::Png }
    }
}

/// The effort that the AVIF encoder is asked for, between 1, the slowest
/// and smallest, and 10.
pub const AVIF_SPEED: u8 = 6;

/// What has become of an image on its way to the target format.
pub enum Encoding {
    /// The image is encoded: these are the bytes of the target file.
    Ready { bytes: Vec<u8> },
    /// The lossy WebP encoder is to be run on `frame`, with `quality` as a
    /// percentage.
    WebP { frame: RgbaFrame, quality: u8 },
    /// The AVIF encoder is to be run on `frame`, with `quality` for colour
    /// and alpha alike.
    Avif { frame: RgbaFrame, quality: u8, speed: u8, threads: usize },
}

/// What an encoding holds, as plain values.
pub enum EncodingView {
    Ready { bytes: Seq<u8> },
    WebP { frame: FrameView, quality: u8 },
    Avif { frame: FrameView, quality: u8, speed: u8, threads: nat },
}

impl View for Encoding {
    type V = EncodingView;

    open spec fn view(&self) -> EncodingView {
        match self {
            Encoding::Ready { bytes } => EncodingView::Ready { bytes: bytes@ },
            Encoding::WebP { frame, quality } => EncodingView::WebP {
                frame: frame@,
                quality: *quality,
            },
            Encoding::Avif { frame, quality, speed, threads } => EncodingView::Avif {
                frame: frame@,
                quality: *quality,
                speed: *speed,
                threads: *threads as nat,
            },
        }
    }
}

impl EncodingView {
    /// A request is one that the encoder it is meant for takes.
    pub open spec fn wf(self) -> bool {
        match self {
            EncodingView::Ready { .. } => true,
            EncodingView::WebP { frame, .. } => frame.wf() && frame.has_pixels(),
            EncodingView::Avif { frame, quality, speed, threads } => {
                &&& frame.wf()
                &&& frame.has_pixels()
                &&& 1 <= quality <= 100
                &&& 1 <= speed <= 10
                &&& threads > 0
            },
        }
    }
}

impl Encoding {
    /// A request is one that the encoder it is meant for takes.
    pub open spec fn wf(&self) -> bool {
        self@.wf()
    }
}

/// An encoding, or the failure to make one, as plain values.
pub open spec fn encoding_outcome(result: Result<Encoding, ConversionError>) -> Result<
    EncodingView,
    ErrorView,
> {
    match result {
        Ok(encoding) => Ok(encoding@),
        Err(error) => Err(error@),
    }
}

/// What an encoder of the `image` crate answered, with its bytes as plain
/// values.
pub open spec fn bytes_outcome(result: Result<Vec<u8>, ImageError>) -> Result<Seq<u8>, ImageError> {
    match result {
        Ok(bytes) => Ok(bytes@),
        Err(failure) => Err(failure),
    }
}

/// The context of a failure to read or decode the source.
pub open spec fn open_context() -> Seq<char> {
    "Failed to open image"@
}

/// The context of a failure to prepare or encode the target.
pub open spec fn save_context(format: SupportedFormat) -> Seq<char> {
    match format {
        SupportedFormat::Png => "Failed to save PNG"@,
        SupportedFormat::Jpeg => "Failed to save JPEG"@,
        SupportedFormat::WebP => "Failed to create WebP encoder"@,
        SupportedFormat::Avif => "Failed to encode AVIF"@,
        SupportedFormat::Gif => "Failed to save GIF"@,
        SupportedFormat::Bmp => "Failed to save BMP"@,
        SupportedFormat::Tiff => "Failed to save TIFF"@,
        SupportedFormat::Ico => "Failed to save ICO"@,
    }
}

/// The context of a failure of an encoder that is run on request.
pub open spec fn encoder_context(format: SupportedFormat) -> Seq<char> {
    match format {
        SupportedFormat::WebP => "Failed to encode WebP"@,
        _ => save_context(format),
    }
}

/// The context of a failure to write the target file.
pub open spec fn write_context(format: SupportedFormat) -> Seq<char> {
    match format {
        SupportedFormat::WebP => "Failed to write WebP file"@,
        SupportedFormat::Avif => "Failed to write AVIF file"@,
        _ => save_context(format),
    }
}

/// Why an image whose buffer holds more than its pixels is not encoded.
pub open spec fn buffer_refusal() -> Seq<char> {
    "the pixel buffer does not fit the size of the image"@
}

/// Why no encoder is asked for a frame.
pub open spec fn frame_refusal(frame: FrameView) -> Seq<char> {
    if !frame.wf() {
        "the pixel data does not fit the size of the image"@
    } else {
        "the image has no pixels"@
    }
}

/// Whether the AVIF encoder takes a frame at a quality.
pub open spec fn avif_takes(frame: FrameView, quality: u8) -> bool {
    frame.wf() && frame.has_pixels() && 1 <= quality <= 100
}

/// Why the AVIF encoder is not asked.
pub open spec fn avif_refusal(frame: FrameView) -> Seq<char> {
    if frame.wf() && frame.has_pixels() {
        "quality must be between 1 and 100"@
    } else {
        frame_refusal(frame)
    }
}

/// An encode failure for a target format.
pub open spec fn encode_failure(format: SupportedFormat, detail: Seq<char>) -> ErrorView {
    ErrorView { stage: ErrorStage::Encode, context: save_context(format), detail }
}

/// What a decoder's answer means: its image, or a decode failure that
/// carries the decoder's diagnostic.
pub open spec fn decoded_as(outcome: Result<DynamicImage, ImageError>) -> Result<
    DynamicImage,
    ErrorView,
> {
    match outcome {
        Ok(image) => Ok(image),
        Err(failure) => Err(
            ErrorView {
                stage: ErrorStage::Decode,
                context: open_context(),
                detail: error_text_of(failure),
            },
        ),
    }
}

/// What loading makes of a file: the image that its bytes hold in the
/// container format that the extension of its path names.
pub open spec fn loaded(path: PathBuf, data: Seq<u8>) -> Result<DynamicImage, ErrorView> {
    match format_of(path) {
        Ok(format) => decoded_as(decoding_of(data, format)),
        Err(failure) => decoded_as(Err(failure)),
    }
}

/// What an encoder's answer means for a target format: its bytes, or an
/// encode failure that carries the encoder's diagnostic.
pub open spec fn written_as(format: SupportedFormat, outcome: Result<Seq<u8>, ImageError>)
    -> Result<EncodingView, ErrorView> {
    match outcome {
        Ok(bytes) => Ok(EncodingView::Ready { bytes }),
        Err(failure) => Err(encode_failure(format, error_text_of(failure))),
    }
}

/// The request to the WebP encoder for a frame at a quality.
pub open spec fn webp_requested(quality: u8, frame: FrameView) -> Result<EncodingView, ErrorView> {
    if frame.wf() && frame.has_pixels() {
        Ok(EncodingView::WebP { frame, quality })
    } else {
        Err(encode_failure(SupportedFormat::WebP, frame_refusal(frame)))
    }
}

/// The request to the AVIF encoder for a frame at a quality.
pub open spec fn avif_requested(quality: u8, threads: nat, frame: FrameView) -> Result<
    EncodingView,
    ErrorView,
> {
    if avif_takes(frame, quality) {
        Ok(EncodingView::Avif { frame, quality, speed: AVIF_SPEED, threads })
    } else {
        Err(encode_failure(SupportedFormat::Avif, avif_refusal(frame)))
    }
}

/// What saving makes of an image. WebP and AVIF get the image as a frame
/// of straight RGBA, whatever its own layout was. JPEG gets the encoder of
/// the `image` crate at the quality of the options; the other containers
/// get the encoder of their format, which knows no quality.
pub open spec fn saved(options: ConversionOptions, threads: nat, image: DynamicImage) -> Result<
    EncodingView,
    ErrorView,
> {
    match options.format {
        SupportedFormat::WebP => webp_requested(options.quality, frame_of(image)),
        SupportedFormat::Avif => avif_requested(options.quality, threads, frame_of(image)),
        SupportedFormat::Jpeg => if fills_buffer(image) {
            written_as(SupportedFormat::Jpeg, jpeg_of(image, options.quality))
        } else {
            Err(encode_failure(SupportedFormat::Jpeg, buffer_refusal()))
        },
        format => if fills_buffer(image) {
            written_as(format, container_of(image, format))
        } else {
            Err(encode_failure(format, buffer_refusal()))
        },
    }
}

/// What converting makes of what loading gave: a failure to load is the
/// failure of the conversion, and an image is saved.
pub open spec fn converted(
    options: ConversionOptions,
    threads: nat,
    source: Result<DynamicImage, ErrorView>,
) -> Result<EncodingView, ErrorView> {
    match source {
        Ok(image) => saved(options, threads, image),
        Err(error) => Err(error),
    }
}

/// The context of a failure to prepare or encode the target, as text.
fn save_context_of(format: SupportedFormat) -> (text: &'static str)
    ensures
        text@ == save_context(format),
{
    match format {
        SupportedFormat::Png => "Failed to save PNG",
        SupportedFormat::Jpeg => "Failed to save JPEG",
        SupportedFormat::WebP => "Failed to create WebP encoder",
        SupportedFormat::Avif => "Failed to encode AVIF",
        SupportedFormat::Gif => "Failed to save GIF",
        SupportedFormat::Bmp => "Failed to save BMP",
        SupportedFormat::Tiff => "Failed to save TIFF",
        SupportedFormat::Ico => "Failed to save ICO",
    }
}

/// Whether the pixel buffer of an image holds exactly its pixels.
pub fn buffer_fits(image: &DynamicImage) -> (fits: bool)
    ensures
        fits == fills_buffer(*image),
{
    let width: u128 = image_width(image) as u128;
    let height: u128 = image_height(image) as u128;
    let bytes: u128 = pixel_bytes(image) as u128;
    assert(width * height <= 0xFFFF_FFFF * 0xFFFF_FFFF) by (nonlinear_arith)
        requires
            width <= 0xFFFF_FFFF,
            height <= 0xFFFF_FFFF,
    ;
    let pixels: u128 = width * height;
    assert(pixels * bytes <= 0xFFFF_FFFF * 0xFFFF_FFFF * 0xFF) by (nonlinear_arith)
        requires
            pixels <= 0xFFFF_FFFF * 0xFFFF_FFFF,
            bytes <= 0xFF,
    ;
    buffer_length(image) as u128 == pixels * bytes
}

/// Converts images to one target format at one quality.
pub struct ImageConverter {
    options: ConversionOptions,
    threads: usize,
}

impl ImageConverter {
    /// The settings of the converter.
    pub closed spec fn options(&self) -> ConversionOptions {
        self.options
    }

    /// The number of threads that the AVIF encoder may use.
    pub closed spec fn threads(&self) -> nat {
        parallelism(Some(self.threads))
    }

    /// A converter with the given settings, for a machine that does not say
    /// how many processors it has.
    pub fn new(options: ConversionOptions) -> (converter: ImageConverter)
        ensures
            converter.options() == options,
            converter.threads() == DEFAULT_CONCURRENCY,
    {
        ImageConverter { options, threads: DEFAULT_CONCURRENCY }
    }

    /// The same converter for a machine that reports `available`
    /// processors.
    pub fn with_parallelism(self, available: Option<usize>) -> (converter: ImageConverter)
        ensures
            converter.options() == self.options(),
            converter.threads() == parallelism(available),
    {
        ImageConverter { options: self.options, threads: concurrency_limit(available) }
    }

    /// The failure to report where the source could not be read at all.
    pub fn unreadable(detail: String) -> (error: ConversionError)
        ensures
            error.stage == ErrorStage::Decode,
            error.context@ == open_context(),
            error.detail@ == detail@,
    {
        ConversionError::decode("Failed to open image", detail)
    }

    /// What a decoder's answer means for the conversion: its image, or a
    /// decode failure that carries the decoder's diagnostic.
    pub fn decoded(outcome: Result<DynamicImage, ImageError>) -> (image: Result<
        DynamicImage,
        ConversionError,
    >)
        ensures
            outcome_of(image) == decoded_as(outcome),
    {
        match outcome {
            Ok(decoded) => Ok(decoded),
            Err(failure) => Err(Self::unreadable(image_error_text(&failure))),
        }
    }

    /// Decodes the source. `data` is what the file at `input_path` holds;
    /// the extension of the path says in which container format.
    pub fn load_image(input_path: &PathBuf, data: &[u8]) -> (image: Result<
        DynamicImage,
        ConversionError,
    >)
        ensures
            outcome_of(image) == loaded(*input_path, data@),
    {
        match format_of_path(input_path) {
            Ok(format) => Self::decoded(decode_as(data, format)),
            Err(failure) => Self::decoded(Err(failure)),
        }
    }

    /// An encode failure for a target format.
    fn refused(format: SupportedFormat, detail: &str) -> (error: ConversionError)
        ensures
            error@ == encode_failure(format, detail@),
    {
        ConversionError::encode(save_context_of(format), detail.to_string())
    }

    /// What an encoder's answer means for the conversion: its bytes, or an
    /// encode failure that carries the encoder's diagnostic.
    pub fn written(&self, outcome: Result<Vec<u8>, ImageError>) -> (encoding: Result<
        Encoding,
        ConversionError,
    >)
        ensures
            encoding_outcome(encoding) == written_as(
                self.options().format,
                bytes_outcome(outcome),
            ),
    {
        match outcome {
            Ok(bytes) => Ok(Encoding::Ready { bytes }),
            Err(failure) => Err(
                ConversionError::encode(
                    save_context_of(self.options.format),
                    image_error_text(&failure),
                ),
            ),
        }
    }

    /// The request to the WebP encoder for a frame: the request where the
    /// frame holds its pixels and has some, and an encode failure
    /// otherwise.
    pub fn webp_request(&self, frame: RgbaFrame) -> (encoding: Result<Encoding, ConversionError>)
        ensures
            encoding_outcome(encoding) == webp_requested(self.options().quality, frame@),
    {
        if !frame.is_consistent() {
            Err(Self::refused(SupportedFormat::WebP, "the pixel data does not fit the size of the image"))
        } else if frame.is_empty() {
            Err(Self::refused(SupportedFormat::WebP, "the image has no pixels"))
        } else {
            Ok(Encoding::WebP { frame, quality: self.options.quality })
        }
    }

    /// The request to the AVIF encoder for a frame: the request where the
    /// frame holds its pixels and has some and the quality lies in
    /// 1..=100, which is what the encoder takes, and an encode failure
    /// otherwise.
    pub fn avif_request(&self, frame: RgbaFrame) -> (encoding: Result<Encoding, ConversionError>)
        ensures
            encoding_outcome(encoding) == avif_requested(
                self.options().quality,
                self.threads(),
                frame@,
            ),
    {
        let quality: u8 = self.options.quality;
        if !frame.is_consistent() {
            Err(Self::refused(SupportedFormat::Avif, "the pixel data does not fit the size of the image"))
        } else if frame.is_empty() {
            Err(Self::refused(SupportedFormat::Avif, "the image has no pixels"))
        } else if quality < 1 || quality > 100 {
            Err(Self::refused(SupportedFormat::Avif, "quality must be between 1 and 100"))
        } else {
            Ok(
                Encoding::Avif {
                    frame,
                    quality,
                    speed: AVIF_SPEED,
                    threads: concurrency_limit(Some(self.threads)),
                },
            )
        }
    }

    /// Takes an image as far towards the target format as can be done
    /// without floating-point work: to the bytes of the file for the
    /// container formats, where only JPEG heeds the quality, and to a
    /// request to the encoder, with the image as a frame of straight RGBA,
    /// for WebP and AVIF.
    pub fn save_image(&self, image: DynamicImage) -> (encoding: Result<Encoding, ConversionError>)
        ensures
            encoding_outcome(encoding) == saved(self.options(), self.threads(), image),
            encoding matches Ok(made) ==> made.wf(),
    {
        match self.options.format {
            SupportedFormat::WebP => self.webp_request(rgba_frame(&image)),
            SupportedFormat::Avif => self.avif_request(rgba_frame(&image)),
            SupportedFormat::Jpeg => {
                if buffer_fits(&image) {
                    self.written(write_jpeg(&image, self.options.quality))
                } else {
                    Err(Self::refused(self.options.format, "the pixel buffer does not fit the size of the image"))
                }
            },
            SupportedFormat::Png | SupportedFormat::Gif | SupportedFormat::Bmp
            | SupportedFormat::Tiff | SupportedFormat::Ico => {
                if buffer_fits(&image) {
                    self.written(write_container(&image, self.options.format))
                } else {
                    Err(Self::refused(self.options.format, "the pixel buffer does not fit the size of the image"))
                }
            },
        }
    }

    /// What follows loading: a failure to load is handed on as it is, and
    /// an image is saved.
    pub fn save_loaded(&self, source: Result<DynamicImage, ConversionError>) -> (encoding: Result<
        Encoding,
        ConversionError,
    >)
        ensures
            match source {
                Ok(image) => encoding_outcome(encoding) == saved(
                    self.options(),
                    self.threads(),
                    image,
                ),
                Err(error) => encoding == Err::<Encoding, ConversionError>(error),
            },
            encoding_outcome(encoding) == converted(
                self.options(),
                self.threads(),
                outcome_of(source),
            ),
            encoding matches Ok(made) ==> made.wf(),
    {
        match source {
            Ok(image) => self.save_image(image),
            Err(error) => Err(error),
        }
    }

    /// Decodes the source and takes it towards the target format. `data` is
    /// what the file at `input_path` holds.
    pub fn convert(&self, input_path: &PathBuf, data: &[u8]) -> (encoding: Result<
        Encoding,
        ConversionError,
    >)
        ensures
            encoding_outcome(encoding) == converted(
                self.options(),
                self.threads(),
                loaded(*input_path, data@),
            ),
            encoding matches Ok(made) ==> made.wf(),
    {
        self.save_loaded(Self::load_image(input_path, data))
    }

    /// What the answer of an encoder that was run on request means for the
    /// conversion: its bytes, or an encode failure with its diagnostic.
    pub fn encoded(&self, outcome: Result<Vec<u8>, String>) -> (bytes: Result<
        Vec<u8>,
        ConversionError,
    >)
        ensures
            match outcome {
                Ok(data) => bytes == Ok::<Vec<u8>, ConversionError>(data),
                Err(reason) => {
                    &&& bytes matches Err(error)
                    &&& error.stage == ErrorStage::Encode
                    &&& error.context@ == encoder_context(self.options().format)
                    &&& error.detail@ == reason@
                },
            },
    {
        match outcome {
            Ok(data) => Ok(data),
            Err(reason) => {
                let context = match self.options.format {
                    SupportedFormat::WebP => "Failed to encode WebP",
                    _ => save_context_of(self.options.format),
                };
                Err(ConversionError::encode(context, reason))
            },
        }
    }

    /// The failure to report where the target file could not be written.
    pub fn write_failure(&self, detail: String) -> (error: ConversionError)
        ensures
            error.stage == ErrorStage::Write,
            error.context@ == write_context(self.options().format),
            error.detail@ == detail@,
    {
        let context = match self.options.format {
            SupportedFormat::WebP => "Failed to write WebP file",
            SupportedFormat::Avif => "Failed to write AVIF file",
            _ => save_context_of(self.options.format),
        };
        ConversionError::write(context, detail)
    }
}

/// Every format stands in the canonical order exactly once, at its own
/// position.
pub proof fn lemma_canonical_order_is_complete(format: SupportedFormat)
    ensures
        SupportedFormat::canonical().len() == 8,
        0 <= format.position() < 8,
        SupportedFormat::canonical()[format.position()] == format,
        forall|i: int|
            0 <= i < 8 && SupportedFormat::canonical()[i] == format ==> i == format.position(),
{
}

} // verus!
