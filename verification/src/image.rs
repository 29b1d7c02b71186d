//! Image handling and transformation.

use ::image::GenericImageView;
use vstd::prelude::*;
use vstd::string::StringExecFns;

verus! {

/// The format of an image, as the image crate knows it.
#[verifier::external_type_specification]
#[verifier::external_body]
pub struct ExImageFormat(::image::ImageFormat);

/// An error of the image crate.
#[verifier::external_type_specification]
#[verifier::external_body]
pub struct ExImageError(::image::ImageError);

/// A decoded image.
#[verifier::external_type_specification]
#[verifier::external_body]
pub struct ExDynamicImage(::image::DynamicImage);

/// An error of reading or writing a file.
#[verifier::external_type_specification]
#[verifier::external_body]
pub struct ExIoError(std::io::Error);

/// An image format.
#[derive(Clone, Copy, Debug, PartialEq, Eq, Structural)]
pub enum Format {
    /// Portable Network Graphics.
    Png,
    /// JPEG.
    Jpeg,
}

impl Format {
    /// The file extension of each format.
    pub open spec fn spec_ext(self) -> Seq<char> {
        match self {
            Format::Png => "png"@,
            Format::Jpeg => "jpg"@,
        }
    }

    /// The MIME type of each format.
    pub open spec fn spec_mime(self) -> Seq<char> {
        match self {
            Format::Png => "image/png"@,
            Format::Jpeg => "image/jpeg"@,
        }
    }

    /// Gets the format's file extension.
    pub fn ext(self) -> (r: &'static str)
        ensures
            r@ == self.spec_ext(),
    {
        match self {
            Format::Png => "png",
            Format::Jpeg => "jpg",
        }
    }

    /// Gets the format's MIME type.
    pub fn mime(self) -> (r: &'static str)
        ensures
            r@ == self.spec_mime(),
    {
        match self {
            Format::Png => "image/png",
            Format::Jpeg => "image/jpeg",
        }
    }
}

/// A format that is neither PNG nor JPEG.
#[derive(Debug)]
pub struct FormatError {
    /// The format that was found.
    pub format: ::image::ImageFormat,
}

/// Raw image data.
#[derive(Debug, PartialEq, Eq)]
pub struct Image {
    /// The encoded image.
    pub data: Vec<u8>,
    /// The encoding.
    pub format: Format,
}

impl Clone for Image {
    fn clone(&self) -> (r: Image)
        ensures
            r.data@ == self.data@,
            r.format == self.format,
    {
        Image { data: self.data.clone(), format: self.format }
    }
}

/// An error when loading an image.
#[derive(Debug)]
pub enum LoadError {
    /// There is no image.
    NoImage,
    /// The file could not be read.
    CouldntReadFile(std::io::Error),
    /// The data is in no format that is known.
    CouldntDetectFormat(::image::ImageError),
    /// The data is in a format that is not used here.
    UnsupportedFormat(FormatError),
}

/// An error when loading an image with a cache backup.
#[derive(Debug)]
pub enum LoadWithCacheError {
    /// There is no image, cached or not.
    NoImage,
    /// The cached file could not be loaded.
    CacheLoadError(LoadError),
    /// The source image could not be opened.
    CouldntOpenUncachedImage(::image::ImageError),
    /// The source image has no pixels.
    EmptyImage,
    /// The source image could not be transformed.
    ProcessError(::image::ImageError),
    /// The cache folder could not be created.
    CouldntCreateCacheFolder(std::io::Error),
    /// The transformed image could not be written to the cache.
    CouldntWriteCachedFile(std::io::Error),
}

/// The width and the height of a decoded image, in pixels.
pub uninterp spec fn spec_dimensions(img: ::image::DynamicImage) -> (u32, u32);

/// The first bytes of every PNG file.
pub open spec fn spec_png_signature() -> Seq<u8> {
    seq![0x89u8, 0x50u8, 0x4eu8, 0x47u8, 0x0du8, 0x0au8, 0x1au8, 0x0au8]
}

/// The first bytes of every JPEG file.
pub open spec fn spec_jpeg_signature() -> Seq<u8> {
    seq![0xffu8, 0xd8u8, 0xffu8]
}

/// Whether data begins with the given bytes.
pub open spec fn spec_begins(data: Seq<u8>, start: Seq<u8>) -> bool {
    data.len() >= start.len() && data.take(start.len() as int) == start
}

/// The format that the first bytes of the data tell of, where it is one of
/// the two that are used here.
pub open spec fn spec_format_of(data: Seq<u8>) -> Option<Format> {
    if spec_begins(data, spec_png_signature()) {
        Some(Format::Png)
    } else if spec_begins(data, spec_jpeg_signature()) {
        Some(Format::Jpeg)
    } else {
        None
    }
}

/// Calls `image::guess_format`, which holds the first bytes of the data
/// against a list of signatures and takes the first that fits, and tells
/// PNG and JPEG apart from the other variants of `image::ImageFormat`. The
/// signatures of PNG and of JPEG are the first two of the list and belong
/// to no other format, so one of the two formats comes out exactly where
/// the data begins with its signature.
#[verifier::external_body]
fn detect_format(buffer: &[u8]) -> (r: Result<Result<Format, FormatError>, ::image::ImageError>)
    ensures
        match spec_format_of(buffer@) {
            Some(format) => r matches Ok(Ok(found)) && found == format,
            None => !(r matches Ok(Ok(_))),
        },
{
    match ::image::guess_format(buffer) {
        Ok(::image::ImageFormat::Png) => Ok(Ok(Format::Png)),
        Ok(::image::ImageFormat::Jpeg) => Ok(Ok(Format::Jpeg)),
        Ok(format) => Ok(Err(FormatError { format })),
        Err(e) => Err(e),
    }
}

/// Calls `image::GenericImageView::dimensions` on a decoded image: its width
/// and height.
#[verifier::external_body]
fn image_dimensions(img: &::image::DynamicImage) -> (r: (u32, u32))
    ensures
        r == spec_dimensions(*img),
{
    img.dimensions()
}

/// The pixels of a decoded image as `image::DynamicImage::to_rgb8` gives
/// them: three bytes for each pixel, row by row.
pub uninterp spec fn spec_rgb(img: ::image::DynamicImage) -> Seq<u8>;

/// The PNG encoding of a picture of three bytes for each pixel; `None`
/// where the encoder fails.
pub uninterp spec fn spec_png(rgb: Seq<u8>, width: u32, height: u32) -> Option<Seq<u8>>;

/// The JPEG encoding of a picture of three bytes for each pixel; `None`
/// where the encoder fails.
pub uninterp spec fn spec_jpeg(rgb: Seq<u8>, width: u32, height: u32) -> Option<Seq<u8>>;

/// The size of the largest picture of the same proportions that fits a
/// square box: the longer side takes the side of the box, the shorter one
/// is scaled with it, rounded down, and keeps at least one pixel.
pub open spec fn spec_fit(width: u32, height: u32, side: u32) -> (u32, u32) {
    if height <= width {
        let scaled = height as int * side as int / width as int;
        (
            side,
            if scaled < 1 {
                1u32
            } else {
                scaled as u32
            },
        )
    } else {
        let scaled = width as int * side as int / height as int;
        (
            if scaled < 1 {
                1u32
            } else {
                scaled as u32
            },
            side,
        )
    }
}

/// A picture that fits a box has at least one and at most `side` pixels
/// each way.
pub proof fn lemma_fit_bounds(width: u32, height: u32, side: u32)
    requires
        width > 0,
        height > 0,
        side > 0,
    ensures
        1 <= spec_fit(width, height, side).0 <= side,
        1 <= spec_fit(width, height, side).1 <= side,
{
    if height <= width {
        assert(height as int * side as int / width as int <= side as int) by (nonlinear_arith)
            requires
                0 < height <= width,
                side > 0,
        ;
    } else {
        assert(width as int * side as int / height as int <= side as int) by (nonlinear_arith)
            requires
                0 < width < height,
                side > 0,
        ;
    }
}

/// Calls `image::DynamicImage::resize` with the Lanczos filter and a square
/// box. The image crate divides by the width and the height of the source,
/// so an image without pixels is left out. The size of the image that comes
/// out is what the crate computes from the size of the source and the box;
/// nothing is claimed here of its pixels.
#[verifier::external_body]
fn resize_to_fit(img: &::image::DynamicImage, side: u32) -> (r: ::image::DynamicImage)
    requires
        spec_dimensions(*img).0 > 0,
        spec_dimensions(*img).1 > 0,
        side > 0,
    ensures
        spec_dimensions(r) == spec_fit(spec_dimensions(*img).0, spec_dimensions(*img).1, side),
{
    img.resize(side, side, ::image::imageops::FilterType::Lanczos3)
}

/// Calls `image::DynamicImage::to_rgb8` and hands out the buffer of the
/// image that it gives: three bytes for each pixel of the source. The crate
/// panics where that many bytes cannot be counted, so such a size is left
/// out.
#[verifier::external_body]
fn rgb_bytes(img: &::image::DynamicImage) -> (r: Vec<u8>)
    requires
        3 * spec_dimensions(*img).0 * spec_dimensions(*img).1 <= usize::MAX,
    ensures
        r@ == spec_rgb(*img),
        r@.len() == 3 * spec_dimensions(*img).0 * spec_dimensions(*img).1,
{
    img.to_rgb8().into_raw()
}

/// Calls `image::png::PngEncoder::encode` on a picture of three bytes for
/// each pixel. What comes out depends on the picture alone. The encoder
/// panics on a picture without width, so a picture without pixels is left
/// out.
#[verifier::external_body]
fn encode_png(rgb: &[u8], width: u32, height: u32) -> (r: Result<Vec<u8>, ::image::ImageError>)
    requires
        width >= 1,
        height >= 1,
        rgb@.len() == 3 * width * height,
    ensures
        match r {
            Ok(data) => spec_png(rgb@, width, height) == Some(data@),
            Err(_) => spec_png(rgb@, width, height) is None,
        },
{
    let mut data = Vec::new();
    ::image::png::PngEncoder::new(&mut data)
        .encode(rgb, width, height, ::image::ColorType::Rgb8)
        .map(|()| data)
}

/// Calls `image::jpeg::JpegEncoder::encode` on a picture of three bytes for
/// each pixel. What comes out depends on the picture alone. The encoder
/// panics where the bytes are fewer than the pixels need, so such a picture
/// is left out.
#[verifier::external_body]
fn encode_jpeg(rgb: &[u8], width: u32, height: u32) -> (r: Result<Vec<u8>, ::image::ImageError>)
    requires
        width >= 1,
        height >= 1,
        rgb@.len() == 3 * width * height,
    ensures
        match r {
            Ok(data) => spec_jpeg(rgb@, width, height) == Some(data@),
            Err(_) => spec_jpeg(rgb@, width, height) is None,
        },
{
    let mut data = Vec::new();
    ::image::jpeg::JpegEncoder::new(&mut data)
        .encode(rgb, width, height, ::image::ColorType::Rgb8)
        .map(|()| data)
}

/// Calls `image::load_from_memory_with_format` with the format of the image
/// crate that stands for `format`. Nothing is claimed here of what decoding
/// gives.
#[verifier::external_body]
fn decode(data: &[u8], format: Format) -> (r: Result<::image::DynamicImage, ::image::ImageError>) {
    let format = match format {
        Format::Png => ::image::ImageFormat::Png,
        Format::Jpeg => ::image::ImageFormat::Jpeg,
    };
    ::image::load_from_memory_with_format(data, format)
}

/// The side of the box that a standard cover fits in, in pixels.
pub const COVER_SIDE: u32 = 1000;

/// The side of the box that a cover for the car fits in, in pixels.
pub const COVER_VW_SIDE: u32 = 300;

/// The smaller of the two encodings of one picture; PNG where they are of
/// one size.
pub open spec fn spec_smaller_encoding(png: Seq<u8>, jpeg: Seq<u8>) -> (Seq<u8>, Format) {
    if png.len() <= jpeg.len() {
        (png, Format::Png)
    } else {
        (jpeg, Format::Jpeg)
    }
}

/// Keeps the smaller of the two encodings of one picture; PNG where they
/// are of one size.
pub fn smaller_encoding(png: Vec<u8>, jpeg: Vec<u8>) -> (r: Image)
    ensures
        (r.data@, r.format) == spec_smaller_encoding(png@, jpeg@),
{
    if png.len() <= jpeg.len() {
        Image::from_png(png)
    } else {
        Image::from_jpeg(jpeg)
    }
}

/// Whether a decoded image has at least one pixel.
pub fn has_pixels(img: &::image::DynamicImage) -> (r: bool)
    ensures
        r == (spec_dimensions(*img).0 > 0 && spec_dimensions(*img).1 > 0),
{
    let (width, height) = image_dimensions(img);
    width > 0 && height > 0
}

/// The standard encoding of a picture: the smaller of its PNG and its JPEG
/// encoding, PNG where they are of one size; none where either fails.
pub open spec fn spec_standard_encoding(rgb: Seq<u8>, width: u32, height: u32) -> Option<
    (Seq<u8>, Format),
> {
    match spec_png(rgb, width, height) {
        None => None,
        Some(png) => match spec_jpeg(rgb, width, height) {
            None => None,
            Some(jpeg) => Some(spec_smaller_encoding(png, jpeg)),
        },
    }
}

/// The encoding of a picture for the car: its JPEG encoding.
pub open spec fn spec_car_encoding(rgb: Seq<u8>, width: u32, height: u32) -> Option<
    (Seq<u8>, Format),
> {
    match spec_jpeg(rgb, width, height) {
        None => None,
        Some(jpeg) => Some((jpeg, Format::Jpeg)),
    }
}

/// Whether `r` is the image of an encoding, or a failure where there is no
/// encoding.
pub open spec fn spec_is_encoding(
    r: Result<Image, ::image::ImageError>,
    encoding: Option<(Seq<u8>, Format)>,
) -> bool {
    match encoding {
        Some(encoded) => r matches Ok(image) && (image.data@, image.format) == encoded,
        None => r is Err,
    }
}

/// Whether `r` is what transforming an image of the given size gives: an
/// encoding of a picture that has the size of the source fitted to the box.
pub open spec fn spec_is_standard_transform(
    r: Result<Image, ::image::ImageError>,
    source: (u32, u32),
    rgb: Seq<u8>,
) -> bool {
    let size = spec_fit(source.0, source.1, COVER_SIDE);
    &&& rgb.len() == 3 * size.0 * size.1
    &&& spec_is_encoding(r, spec_standard_encoding(rgb, size.0, size.1))
}

/// Whether `r` is what transforming an image of the given size for the car
/// gives.
pub open spec fn spec_is_car_transform(
    r: Result<Image, ::image::ImageError>,
    source: (u32, u32),
    rgb: Seq<u8>,
) -> bool {
    let size = spec_fit(source.0, source.1, COVER_VW_SIDE);
    &&& rgb.len() == 3 * size.0 * size.1
    &&& spec_is_encoding(r, spec_car_encoding(rgb, size.0, size.1))
}

/// Encodes a picture of three bytes for each pixel as PNG and as JPEG and
/// keeps the smaller encoding. It fails where either encoder fails.
pub fn encode_smaller(rgb: &[u8], width: u32, height: u32) -> (r: Result<
    Image,
    ::image::ImageError,
>)
    requires
        width >= 1,
        height >= 1,
        rgb@.len() == 3 * width * height,
    ensures
        spec_is_encoding(r, spec_standard_encoding(rgb@, width, height)),
{
    let png_data = match encode_png(rgb, width, height) {
        Ok(data) => data,
        Err(e) => {
            return Err(e);
        },
    };
    let jpeg_data = match encode_jpeg(rgb, width, height) {
        Ok(data) => data,
        Err(e) => {
            return Err(e);
        },
    };
    Ok(smaller_encoding(png_data, jpeg_data))
}

/// Transform an image into a standard format.
///
/// The picture is resized to the largest size of its proportions that fits
/// a box of 1000x1000 pixels, and encoded as PNG and as JPEG. The encoding
/// used is whichever produces a smaller-sized output. Where an encoder
/// fails, the transformation fails.
pub fn transform_image(img: ::image::DynamicImage) -> (r: Result<Image, ::image::ImageError>)
    requires
        spec_dimensions(img).0 > 0,
        spec_dimensions(img).1 > 0,
    ensures
        exists|rgb: Seq<u8>| #[trigger] spec_is_standard_transform(r, spec_dimensions(img), rgb),
{
    proof {
        lemma_fit_bounds(spec_dimensions(img).0, spec_dimensions(img).1, COVER_SIDE);
    }
    let resized = resize_to_fit(&img, COVER_SIDE);
    let (width, height) = image_dimensions(&resized);
    assert(3 * width * height <= 3 * 1000 * 1000) by (nonlinear_arith)
        requires
            1 <= width <= 1000,
            1 <= height <= 1000,
    ;
    let rgb = rgb_bytes(&resized);
    let r = encode_smaller(rgb.as_slice(), width, height);
    proof {
        assert(spec_is_standard_transform(r, spec_dimensions(img), rgb@));
    }
    r
}

/// Transform an image into a format for car use: the picture is resized to
/// the largest size of its proportions that fits a box of 300x300 pixels,
/// and encoded as JPEG. Where the encoder fails, the transformation fails.
pub fn transform_image_vw(img: ::image::DynamicImage) -> (r: Result<Image, ::image::ImageError>)
    requires
        spec_dimensions(img).0 > 0,
        spec_dimensions(img).1 > 0,
    ensures
        exists|rgb: Seq<u8>| #[trigger] spec_is_car_transform(r, spec_dimensions(img), rgb),
        r matches Ok(image) ==> image.format == Format::Jpeg,
{
    proof {
        lemma_fit_bounds(spec_dimensions(img).0, spec_dimensions(img).1, COVER_VW_SIDE);
    }
    let resized = resize_to_fit(&img, COVER_VW_SIDE);
    let (width, height) = image_dimensions(&resized);
    assert(3 * width * height <= 3 * 300 * 300) by (nonlinear_arith)
        requires
            1 <= width <= 300,
            1 <= height <= 300,
    ;
    let rgb = rgb_bytes(&resized);
    let r = match encode_jpeg(rgb.as_slice(), width, height) {
        Ok(data) => Ok(Image::from_jpeg(data)),
        Err(e) => Err(e),
    };
    proof {
        assert(spec_is_car_transform(r, spec_dimensions(img), rgb@));
    }
    r
}

/// What loading gives for data of which the format was looked for: the data
/// with its format, or the reason why no format was found.
pub open spec fn spec_load_result(
    data: Vec<u8>,
    detected: Result<Result<Format, FormatError>, ::image::ImageError>,
) -> Result<Image, LoadError> {
    match detected {
        Ok(Ok(format)) => Ok(Image { data, format }),
        Ok(Err(e)) => Err(LoadError::UnsupportedFormat(e)),
        Err(e) => Err(LoadError::CouldntDetectFormat(e)),
    }
}

impl Image {
    /// Create a new image from data.
    pub fn new(data: Vec<u8>, format: Format) -> (r: Image)
        ensures
            r == (Image { data, format }),
    {
        Image { data, format }
    }

    /// Create an `Image` from PNG data.
    pub fn from_png(data: Vec<u8>) -> (r: Image)
        ensures
            r == (Image { data, format: Format::Png }),
    {
        Image::new(data, Format::Png)
    }

    /// Create an `Image` from JPEG data.
    pub fn from_jpeg(data: Vec<u8>) -> (r: Image)
        ensures
            r == (Image { data, format: Format::Jpeg }),
    {
        Image::new(data, Format::Jpeg)
    }

    /// The image, or the error, for data of which the format was looked for.
    pub fn load_result(
        data: Vec<u8>,
        detected: Result<Result<Format, FormatError>, ::image::ImageError>,
    ) -> (r: Result<Image, LoadError>)
        ensures
            r == spec_load_result(data, detected),
    {
        match detected {
            Ok(Ok(format)) => Ok(Image { data, format }),
            Ok(Err(e)) => Err(LoadError::UnsupportedFormat(e)),
            Err(e) => Err(LoadError::CouldntDetectFormat(e)),
        }
    }

    /// Looks for the format of the data of an image file. Data that begins
    /// with the signature of PNG or of JPEG is an image of that format, with
    /// the very data that went in; any other data is no image.
    pub fn from_data(data: Vec<u8>) -> (r: Result<Image, LoadError>)
        ensures
            match spec_format_of(data@) {
                Some(format) => r == Ok::<Image, LoadError>(Image { data, format }),
                None => r matches Err(e) && (e is UnsupportedFormat || e is CouldntDetectFormat),
            },
    {
        let detected = detect_format(data.as_slice());
        Image::load_result(data, detected)
    }

    /// The image for what reading a file gave: the error of reading, or
    /// what the data holds.
    pub fn from_read(read: Result<Vec<u8>, std::io::Error>) -> (r: Result<Image, LoadError>)
        ensures
            match read {
                Err(e) => r == Err::<Image, LoadError>(LoadError::CouldntReadFile(e)),
                Ok(data) => match spec_format_of(data@) {
                    Some(format) => r == Ok::<Image, LoadError>(Image { data, format }),
                    None => r matches Err(e) && (e is UnsupportedFormat
                        || e is CouldntDetectFormat),
                },
            },
    {
        match read {
            Ok(data) => Image::from_data(data),
            Err(e) => Err(LoadError::CouldntReadFile(e)),
        }
    }

    /// Get the image data.
    pub fn data(&self) -> (r: &[u8])
        ensures
            r@ == self.data@,
    {
        self.data.as_slice()
    }

    /// Create a savable image from the data, which is decoded in the
    /// image's own format. Whether the data can be decoded, and what it
    /// holds, is for the decoder to say.
    pub fn as_dynamic(&self) -> (r: Result<::image::DynamicImage, ::image::ImageError>) {
        decode(self.data(), self.format)
    }
}

/// Calls `to_string` on an error of reading or writing, which gives the
/// text that the error shows. Nothing is claimed here of the text.
#[verifier::external_body]
fn io_error_text(e: &std::io::Error) -> (r: String) {
    e.to_string()
}

/// Calls `to_string` on an error of the image crate, which gives the text
/// that the error shows. Nothing is claimed here of the text.
#[verifier::external_body]
fn image_error_text(e: &::image::ImageError) -> (r: String) {
    e.to_string()
}

/// Formats a format of the image crate as the crate's `Debug` shows it.
/// Nothing is claimed here of the text.
#[verifier::external_body]
fn image_format_text(format: &::image::ImageFormat) -> (r: String) {
    format!("{:?}", format)
}

/// Whether a text begins with another.
pub open spec fn spec_begins_with(text: Seq<char>, start: Seq<char>) -> bool {
    text.len() >= start.len() && text.take(start.len() as int) == start
}

/// A message that names what is wrong and then says why.
fn explained(what: &str, detail: &str) -> (r: String)
    ensures
        r@ == what@ + ": "@ + detail@,
        spec_begins_with(r@, what@ + ": "@),
{
    let message = crate::text::with_detail(what, detail);
    proof {
        assert(message@.take((what@ + ": "@).len() as int) =~= what@ + ": "@);
    }
    message
}

impl FormatError {
    /// What is shown for the error: `invalid format`, and the format.
    pub fn message(&self) -> (r: String)
        ensures
            spec_begins_with(r@, "invalid format: "@),
    {
        let detail = image_format_text(&self.format);
        let message = explained("invalid format", detail.as_str());
        proof {
            reveal_strlit("invalid format");
            reveal_strlit(": ");
            reveal_strlit("invalid format: ");
            assert("invalid format"@ + ": "@ =~= "invalid format: "@);
        }
        message
    }
}

impl LoadError {
    /// How the text that is shown for the error begins. For an image that is
    /// missing it is the whole text; else the reason follows.
    pub open spec fn spec_message_start(self) -> Seq<char> {
        match self {
            LoadError::NoImage => "no image found"@,
            LoadError::CouldntReadFile(_) => "couldn't read file"@ + ": "@,
            LoadError::CouldntDetectFormat(_) => "couldn't detect format"@ + ": "@,
            LoadError::UnsupportedFormat(_) => "unsupported format"@ + ": "@,
        }
    }

    /// What is shown for the error.
    pub fn message(&self) -> (r: String)
        ensures
            spec_begins_with(r@, self.spec_message_start()),
            self is NoImage ==> r@ == self.spec_message_start(),
    {
        match self {
            LoadError::NoImage => {
                let message = String::from_str("no image found");
                proof {
                    assert(message@.take(message@.len() as int) =~= message@);
                }
                message
            },
            LoadError::CouldntReadFile(e) => explained(
                "couldn't read file",
                io_error_text(e).as_str(),
            ),
            LoadError::CouldntDetectFormat(e) => explained(
                "couldn't detect format",
                image_error_text(e).as_str(),
            ),
            LoadError::UnsupportedFormat(e) => explained(
                "unsupported format",
                e.message().as_str(),
            ),
        }
    }
}

impl LoadWithCacheError {
    /// How the text that is shown for the error begins. For an image that is
    /// missing or has no pixels it is the whole text; else the reason follows.
    pub open spec fn spec_message_start(self) -> Seq<char> {
        match self {
            LoadWithCacheError::NoImage => "no image found"@,
            LoadWithCacheError::CacheLoadError(_) => "error with cache file"@ + ": "@,
            LoadWithCacheError::CouldntOpenUncachedImage(_) => "couldn't open uncached image"@
                + ": "@,
            LoadWithCacheError::EmptyImage => "image has no pixels"@,
            LoadWithCacheError::ProcessError(_) => "error processing image"@ + ": "@,
            LoadWithCacheError::CouldntCreateCacheFolder(_) => "couldn't create cache folder"@
                + ": "@,
            LoadWithCacheError::CouldntWriteCachedFile(_) => "couldn't write cached file"@ + ": "@,
        }
    }

    /// What is shown for the error.
    pub fn message(&self) -> (r: String)
        ensures
            spec_begins_with(r@, self.spec_message_start()),
            self is NoImage || self is EmptyImage ==> r@ == self.spec_message_start(),
    {
        match self {
            LoadWithCacheError::NoImage => {
                let message = String::from_str("no image found");
                proof {
                    assert(message@.take(message@.len() as int) =~= message@);
                }
                message
            },
            LoadWithCacheError::CacheLoadError(e) => explained(
                "error with cache file",
                e.message().as_str(),
            ),
            LoadWithCacheError::CouldntOpenUncachedImage(e) => explained(
                "couldn't open uncached image",
                image_error_text(e).as_str(),
            ),
            LoadWithCacheError::EmptyImage => {
                let message = String::from_str("image has no pixels");
                proof {
                    assert(message@.take(message@.len() as int) =~= message@);
                }
                message
            },
            LoadWithCacheError::ProcessError(e) => explained(
                "error processing image",
                image_error_text(e).as_str(),
            ),
            LoadWithCacheError::CouldntCreateCacheFolder(e) => explained(
                "couldn't create cache folder",
                io_error_text(e).as_str(),
            ),
            LoadWithCacheError::CouldntWriteCachedFile(e) => explained(
                "couldn't write cached file",
                io_error_text(e).as_str(),
            ),
        }
    }
}

} // verus!
