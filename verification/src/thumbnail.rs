//! Previews: a stored image, decoded, scaled to a fixed size and encoded
//! again in the format it came in.
//!
//! Decoding, resampling and encoding are the `image` crate's work, and each
//! of the three is a function of what it is given. What is decided here is
//! the size of a preview, the filter, which format is used, in which order
//! the steps run, and what a failure of each step is called.

use vstd::prelude::*;
use image::imageops::FilterType;
use image::ImageFormat;

verus! {

/// Width of every preview, in pixels.
pub const PREVIEW_WIDTH: u32 = 100;

/// Height of every preview, in pixels.
pub const PREVIEW_HEIGHT: u32 = 100;

/// The image formats that a file name can stand for.
#[derive(Clone, Copy, Debug, PartialEq, Eq, Structural)]
pub enum Format {
    Png,
    Jpeg,
    Gif,
    WebP,
    Pnm,
    Tiff,
    Tga,
    Dds,
    Bmp,
    Ico,
    Hdr,
    OpenExr,
    Farbfeld,
    Avif,
    Qoi,
    Pcx,
}

/// The ways of resampling a picture.
#[derive(Clone, Copy, Debug, PartialEq, Eq, Structural)]
pub enum Filter {
    /// Each pixel takes the value of the nearest pixel of the source.
    Nearest,
    Triangle,
    CatmullRom,
    Gaussian,
    Lanczos3,
}

/// The filter every preview is made with: the fastest one.
pub open spec fn preview_filter() -> Filter {
    Filter::Nearest
}

/// A decoded picture as plain values: its dimensions, the layout of a pixel
/// and the samples of all pixels, row by row.
pub struct PictureModel {
    pub width: u32,
    pub height: u32,
    /// Number of channels of a pixel.
    pub channels: u8,
    /// Number of bytes of a pixel.
    pub bytes_per_pixel: u8,
    pub samples: Seq<u8>,
}

/// The format that the `image` crate finds for the extension of `name`, or
/// `None` where it finds none among the formats listed here.
pub uninterp spec fn format_named(name: Seq<char>) -> Option<Format>;

/// The picture that the `image` crate decodes from `content` in `format`, or
/// `None` where it fails to.
pub uninterp spec fn decoded(content: Seq<u8>, format: Format) -> Option<PictureModel>;

/// The picture that the `image` crate resamples `picture` to.
pub uninterp spec fn scaled(
    picture: PictureModel,
    width: u32,
    height: u32,
    filter: Filter,
) -> PictureModel;

/// The bytes that the `image` crate encodes `picture` to in `format`, or
/// `None` where it fails to.
pub uninterp spec fn encoded(picture: PictureModel, format: Format) -> Option<Seq<u8>>;

/// A decoded image of the `image` crate.
#[verifier::external_type_specification]
#[verifier::external_body]
pub struct ExDynamicImage(image::DynamicImage);

/// The `image` crate's list of formats.
#[verifier::external_type_specification]
#[verifier::external_body]
pub struct ExImageFormat(image::ImageFormat);

/// The error type of the `image` crate.
#[verifier::external_type_specification]
#[verifier::external_body]
pub struct ExImageError(image::ImageError);

/// A format together with the value the `image` crate has for it.
///
/// Both are set together when the format is found and never change, so the
/// two always stand for the same format.
struct KnownFormat {
    kind: Format,
    codec: image::ImageFormat,
}

/// A decoded picture.
///
/// The picture is kept as the `image` crate holds it, beside a copy of its
/// plain values, which are what contracts speak of. Both are set together
/// when the picture is made and never change, so the plain values are always
/// those of the picture kept.
struct Picture {
    image: image::DynamicImage,
    width: u32,
    height: u32,
    channels: u8,
    bytes_per_pixel: u8,
    samples: Vec<u8>,
}

impl View for Picture {
    type V = PictureModel;

    closed spec fn view(&self) -> PictureModel {
        PictureModel {
            width: self.width,
            height: self.height,
            channels: self.channels,
            bytes_per_pixel: self.bytes_per_pixel,
            samples: self.samples@,
        }
    }
}

/// Calls `image::ImageFormat::from_path` and tells the variants of what it
/// returns apart.
///
/// Trusted: the format is the one the crate finds for `name`, which is what
/// `format_named` names. Which names have a format is not claimed.
#[verifier::external_body]
fn format_of(name: &str) -> (format: Option<KnownFormat>)
    ensures
        match format {
            Some(f) => format_named(name@) == Some(f.kind),
            None => format_named(name@) is None,
        },
{
    let codec = match ImageFormat::from_path(name) { Ok(codec) => codec, Err(_) => return None };
    let kind = match codec {
        ImageFormat::Png => Format::Png, ImageFormat::Jpeg => Format::Jpeg,
        ImageFormat::Gif => Format::Gif, ImageFormat::WebP => Format::WebP,
        ImageFormat::Pnm => Format::Pnm, ImageFormat::Tiff => Format::Tiff,
        ImageFormat::Tga => Format::Tga, ImageFormat::Dds => Format::Dds,
        ImageFormat::Bmp => Format::Bmp, ImageFormat::Ico => Format::Ico,
        ImageFormat::Hdr => Format::Hdr, ImageFormat::OpenExr => Format::OpenExr,
        ImageFormat::Farbfeld => Format::Farbfeld, ImageFormat::Avif => Format::Avif,
        ImageFormat::Qoi => Format::Qoi, ImageFormat::Pcx => Format::Pcx,
        _ => return None,
    };
    Some(KnownFormat { kind, codec })
}

/// Calls `image::load_from_memory_with_format` and reads the plain values off
/// the picture it returns.
///
/// Trusted: the outcome is the crate's decoding of `content` in that format,
/// which is what `decoded` names. Which contents decode is not claimed.
#[verifier::external_body]
fn decode(content: &[u8], format: &KnownFormat) -> (picture: Result<Picture, image::ImageError>)
    ensures
        match picture {
            Ok(p) => decoded(content@, format.kind) == Some(p@),
            Err(_) => decoded(content@, format.kind) is None,
        },
{
    let image = match image::load_from_memory_with_format(content, format.codec) {
        Ok(image) => image,
        Err(error) => return Err(error),
    };
    let (width, height, color) = (image.width(), image.height(), image.color());
    let (channels, bytes_per_pixel) = (color.channel_count(), color.bytes_per_pixel());
    Ok(Picture { width, height, channels, bytes_per_pixel, samples: image.as_bytes().to_vec(), image })
}

/// Calls `image::DynamicImage::resize_exact` and reads the plain values off
/// the picture it returns.
///
/// Trusted: the outcome is the crate's resampling of the picture, which is
/// what `scaled` names, and it has exactly the dimensions asked for, whatever
/// the dimensions of the source are. Nothing is claimed of its pixels.
#[verifier::external_body]
fn scale(picture: &Picture, width: u32, height: u32, filter: Filter) -> (made: Picture)
    ensures
        made@ == scaled(picture@, width, height, filter),
        made@.width == width,
        made@.height == height,
{
    let filter = match filter {
        Filter::Nearest => FilterType::Nearest, Filter::Triangle => FilterType::Triangle,
        Filter::CatmullRom => FilterType::CatmullRom, Filter::Gaussian => FilterType::Gaussian,
        Filter::Lanczos3 => FilterType::Lanczos3,
    };
    let image = picture.image.resize_exact(width, height, filter);
    let (width, height, color) = (image.width(), image.height(), image.color());
    let (channels, bytes_per_pixel) = (color.channel_count(), color.bytes_per_pixel());
    Picture { width, height, channels, bytes_per_pixel, samples: image.as_bytes().to_vec(), image }
}

/// Calls `image::DynamicImage::write_to` on a buffer in memory.
///
/// Trusted: the outcome is the crate's encoding of the picture in that
/// format, which is what `encoded` names. Which pictures encode is not
/// claimed.
#[verifier::external_body]
fn encode(picture: &Picture, format: &KnownFormat) -> (data: Result<Vec<u8>, image::ImageError>)
    ensures
        match data {
            Ok(bytes) => encoded(picture@, format.kind) == Some(bytes@),
            Err(_) => encoded(picture@, format.kind) is None,
        },
{
    let mut buffer = std::io::Cursor::new(Vec::new());
    match picture.image.write_to(&mut buffer, format.codec) {
        Ok(()) => Ok(buffer.into_inner()),
        Err(error) => Err(error),
    }
}

/// Why no preview could be made.
#[derive(Clone, Copy, Debug, PartialEq, Eq, Structural)]
pub enum ThumbnailError {
    /// The extension of the name stands for no known image format.
    UnknownFormat,
    /// The content is not a readable image of its format.
    Decode,
    /// The preview could not be written in that format.
    Encode,
}

/// A finished preview.
pub struct Preview {
    /// Width in pixels.
    pub width: u32,
    /// Height in pixels.
    pub height: u32,
    /// The encoded image, ready to be stored.
    pub data: Vec<u8>,
}

/// Mathematical value of a [`Preview`].
pub struct PreviewModel {
    pub width: u32,
    pub height: u32,
    pub data: Seq<u8>,
}

impl View for Preview {
    type V = PreviewModel;

    open spec fn view(&self) -> PreviewModel {
        PreviewModel { width: self.width, height: self.height, data: self.data@ }
    }
}

/// View of the outcome of making a preview.
pub open spec fn preview_view(made: Result<Preview, ThumbnailError>) -> Result<
    PreviewModel,
    ThumbnailError,
> {
    match made {
        Ok(preview) => Ok(preview@),
        Err(error) => Err(error),
    }
}

/// The picture has exactly the size of a preview.
pub open spec fn has_preview_size(picture: PictureModel) -> bool {
    picture.width == PREVIEW_WIDTH && picture.height == PREVIEW_HEIGHT
}

/// The preview that an encoding attempt on a picture of the given size ends
/// in.
pub open spec fn preview_from(width: u32, height: u32, data: Option<Seq<u8>>) -> Result<
    PreviewModel,
    ThumbnailError,
> {
    match data {
        Some(data) => Ok(PreviewModel { width, height, data }),
        None => Err(ThumbnailError::Encode),
    }
}

/// The preview of the content stored under `name`: the content decoded in
/// the format of the name, scaled to the preview size with the preview
/// filter, and encoded in the same format. The first step that fails names
/// the error.
pub open spec fn preview_of(name: Seq<char>, full: Seq<u8>) -> Result<PreviewModel, ThumbnailError> {
    match format_named(name) {
        None => Err(ThumbnailError::UnknownFormat),
        Some(format) => match decoded(full, format) {
            None => Err(ThumbnailError::Decode),
            Some(picture) => preview_from(
                PREVIEW_WIDTH,
                PREVIEW_HEIGHT,
                encoded(scaled(picture, PREVIEW_WIDTH, PREVIEW_HEIGHT, preview_filter()), format),
            ),
        },
    }
}

impl Preview {
    /// The preview that an encoding attempt ends in.
    ///
    /// Encoded bytes become the preview, with the dimensions given. A failed
    /// attempt is an `Encode` error.
    pub fn from_encoding(width: u32, height: u32, data: Option<Vec<u8>>) -> (made: Result<
        Preview,
        ThumbnailError,
    >)
        ensures
            preview_view(made) == preview_from(
                width,
                height,
                match data {
                    Some(bytes) => Some(bytes@),
                    None => None,
                },
            ),
    {
        match data {
            Some(data) => Ok(Preview { width, height, data }),
            None => Err(ThumbnailError::Encode),
        }
    }
}

/// Makes the preview of a stored image.
///
/// `name` is the name the image is stored under, whose extension tells the
/// format, and `full` is the content of the file in full. The image is scaled
/// to exactly `PREVIEW_WIDTH` by `PREVIEW_HEIGHT` pixels, whatever its size
/// and proportions, with the nearest-neighbour filter, and encoded in the
/// same format.
///
/// The outcome is `preview_of(name, full)`: a name without a known format is
/// `UnknownFormat`, content that does not decode is `Decode`, a picture that
/// does not encode is `Encode`, and everything else is a preview. The picture
/// that is encoded has exactly the preview size.
pub fn resize_image(name: &str, full: &[u8]) -> (made: Result<Preview, ThumbnailError>)
    ensures
        preview_view(made) == preview_of(name@, full@),
        (format_named(name@) is Some && decoded(full@, format_named(name@)->0) is Some)
            ==> has_preview_size(
            scaled(
                decoded(full@, format_named(name@)->0)->0,
                PREVIEW_WIDTH,
                PREVIEW_HEIGHT,
                preview_filter(),
            ),
        ),
{
    let format = match format_of(name) {
        Some(format) => format,
        None => {
            return Err(ThumbnailError::UnknownFormat);
        },
    };
    let picture = match decode(full, &format) {
        Ok(picture) => picture,
        Err(_) => {
            return Err(ThumbnailError::Decode);
        },
    };
    let small = scale(&picture, PREVIEW_WIDTH, PREVIEW_HEIGHT, Filter::Nearest);
    let data = match encode(&small, &format) {
        Ok(bytes) => Some(bytes),
        Err(_) => None,
    };
    Preview::from_encoding(small.width, small.height, data)
}

/// When a preview is owed and which error comes when: a preview is made
/// exactly of content that decodes in the format of its name and whose scaled
/// picture encodes, and it then has the preview size; each error belongs to
/// the first step that fails.
pub proof fn lemma_preview_outcomes(name: Seq<char>, full: Seq<u8>)
    ensures
        ({
            let format = format_named(name);
            let picture = decoded(full, format->0);
            let small = scaled(picture->0, PREVIEW_WIDTH, PREVIEW_HEIGHT, preview_filter());
            let data = encoded(small, format->0);
            let made = preview_of(name, full);
            &&& made is Ok <==> format is Some && picture is Some && data is Some
            &&& made matches Ok(preview) ==> preview.width == PREVIEW_WIDTH && preview.height
                == PREVIEW_HEIGHT && preview.data == data->0
            &&& made == Err::<PreviewModel, ThumbnailError>(ThumbnailError::UnknownFormat)
                <==> format is None
            &&& made == Err::<PreviewModel, ThumbnailError>(ThumbnailError::Decode) <==> format
                is Some && picture is None
            &&& made == Err::<PreviewModel, ThumbnailError>(ThumbnailError::Encode) <==> format
                is Some && picture is Some && data is None
        }),
{
}

} // verus!
