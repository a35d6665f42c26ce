//! Rendering: from the bytes of an image to the bytes of a JPEG thumbnail.
//!
//! Decoding, resampling and encoding are the work of the `image` crate. What
//! is decided here is which images are accepted, how large a thumbnail
//! becomes, with which filter and which quality it is made, and how failures
//! are reported.

use vstd::prelude::*;
use vstd::string::*;

use super::size;
use super::size::{ThumbnailError, ThumbnailSize};
use crate::text;
use crate::text::decimal_text;

verus! {

/// Images with more pixels than this are not decoded.
pub const MAX_DECODE_PIXELS: u64 = 50_000_000;

/// The quality of the JPEG encoding.
pub const JPEG_QUALITY: u8 = 80;

/// How pixels are resampled.
#[derive(Clone, Copy, PartialEq, Eq, Structural, Debug)]
pub enum ScaleFilter {
    Triangle,
    CatmullRom,
}

// ── The image crate ─────────────────────────────────────────────────────────

/// An image of the `image` crate: its dimensions, its pixels and how they are
/// stored.
#[verifier::external_type_specification]
#[verifier::external_body]
pub struct ExDynamicImage(image::DynamicImage);

/// All that an image holds, written as bytes in some fixed way, so that
/// images with the same content cannot be told apart.
pub uninterp spec fn image_content(image: image::DynamicImage) -> Seq<u8>;

/// The width of the image with that content.
pub uninterp spec fn content_width(content: Seq<u8>) -> u32;

/// The height of the image with that content.
pub uninterp spec fn content_height(content: Seq<u8>) -> u32;

/// What `image::ImageReader` reads of the dimensions of an encoded image: the
/// width and the height, or the message of its error.
pub uninterp spec fn probed_dimensions(data: Seq<u8>) -> Result<(u32, u32), Seq<char>>;

/// What `image::load_from_memory` makes of an encoded image: the content of
/// the decoded image, or the message of its error.
pub uninterp spec fn loaded_content(data: Seq<u8>) -> Result<Seq<u8>, Seq<char>>;

/// The content of the image that `DynamicImage::resize` returns for the image
/// with content `content`, with the bounds `width` and `height` and with the
/// triangle filter or else the Catmull-Rom filter.
pub uninterp spec fn resized_content(
    content: Seq<u8>,
    width: u32,
    height: u32,
    triangle: bool,
) -> Seq<u8>;

/// What the JPEG encoder of the `image` crate writes for the image with that
/// content, turned into 8-bit RGB, at that quality: the encoded bytes, or the
/// message of its error.
pub uninterp spec fn jpeg_of(content: Seq<u8>, quality: u8) -> Result<Seq<u8>, Seq<char>>;

/// A result with the text of its error taken by its characters.
pub open spec fn dimensions_view(r: Result<(u32, u32), String>) -> Result<(u32, u32), Seq<char>> {
    match r {
        Ok(d) => Ok(d),
        Err(e) => Err(e@),
    }
}

/// A decoded image taken by its content, the text of the error by its
/// characters.
pub open spec fn image_view(r: Result<image::DynamicImage, String>) -> Result<
    Seq<u8>,
    Seq<char>,
> {
    match r {
        Ok(img) => Ok(image_content(img)),
        Err(e) => Err(e@),
    }
}

/// Encoded bytes as a sequence, the text of the error by its characters.
pub open spec fn bytes_view(r: Result<Vec<u8>, String>) -> Result<Seq<u8>, Seq<char>> {
    match r {
        Ok(b) => Ok(b@),
        Err(e) => Err(e@),
    }
}

/// Calls `ImageReader::new` of the `image` crate on the bytes, then
/// `with_guessed_format` and `into_dimensions`, and takes an error by its
/// message. The result depends on the bytes alone only while no hook for
/// detecting or decoding formats is registered with the `image` crate; this
/// library registers none.
#[verifier::external_body]
fn probe_dimensions(data: &Vec<u8>) -> (dimensions: Result<(u32, u32), String>)
    ensures
        dimensions_view(dimensions) == probed_dimensions(data@),
{
    image::ImageReader::new(std::io::Cursor::new(data))
        .with_guessed_format()
        .map_err(|e| e.to_string())?
        .into_dimensions()
        .map_err(|e| e.to_string())
}

/// Calls `image::load_from_memory` and takes an error by its message. The
/// result depends on the bytes alone only while no hook for detecting or
/// decoding formats is registered with the `image` crate; this library
/// registers none.
#[verifier::external_body]
fn load_from_memory(data: &Vec<u8>) -> (loaded: Result<image::DynamicImage, String>)
    ensures
        image_view(loaded) == loaded_content(data@),
{
    image::load_from_memory(data).map_err(|e| e.to_string())
}

/// `DynamicImage::width` of the `image` crate is the image's width.
pub assume_specification[ image::DynamicImage::width ](img: &image::DynamicImage) -> (width: u32)
    ensures
        width == content_width(image_content(*img)),
;

/// `DynamicImage::height` of the `image` crate is the image's height.
pub assume_specification[ image::DynamicImage::height ](img: &image::DynamicImage) -> (height:
    u32)
    ensures
        height == content_height(image_content(*img)),
;

/// Calls `DynamicImage::resize` of the `image` crate. The scaled image fits
/// within the bounds, where a bound of zero counts as one. As its aspect ratio
/// is kept, the side that was not the shorter one does not become it. The call
/// panics where the scaled image has more bytes than can be addressed; the
/// bound on the longer side rules that out.
#[verifier::external_body]
fn resize(
    img: &image::DynamicImage,
    width: u32,
    height: u32,
    filter: ScaleFilter,
) -> (resized: image::DynamicImage)
    requires
        is_landscape(image_content(*img)) ==> width <= 4096,
        !is_landscape(image_content(*img)) ==> height <= 4096,
    ensures
        image_content(resized) == resized_content(
            image_content(*img),
            width,
            height,
            filter is Triangle,
        ),
        content_width(image_content(resized)) <= if width >= 1 { width } else { 1 },
        content_height(image_content(resized)) <= if height >= 1 { height } else { 1 },
        is_landscape(image_content(*img)) ==> content_height(image_content(resized))
            <= content_width(image_content(resized)),
        !is_landscape(image_content(*img)) ==> content_width(image_content(resized))
            <= content_height(image_content(resized)),
{
    let filter = match filter {
        ScaleFilter::Triangle => image::imageops::FilterType::Triangle,
        ScaleFilter::CatmullRom => image::imageops::FilterType::CatmullRom,
    };
    img.resize(width, height, filter)
}

/// Calls `DynamicImage::to_rgb8` of the `image` crate and writes the result
/// with `JpegEncoder::new_with_quality`, taking an error by its message. The
/// encoder begins its output with the two bytes of the start-of-image marker
/// and writes the dimensions of the image into it, which are read back.
#[verifier::external_body]
fn encode_jpeg(img: &image::DynamicImage, quality: u8) -> (encoded: Result<Vec<u8>, String>)
    ensures
        bytes_view(encoded) == jpeg_of(image_content(*img), quality),
        encoded matches Ok(bytes) ==> is_jpeg_with(
            bytes@,
            content_width(image_content(*img)),
            content_height(image_content(*img)),
        ),
{
    let mut buffer = Vec::new();
    let encoder = image::codecs::jpeg::JpegEncoder::new_with_quality(&mut buffer, quality);
    match img.to_rgb8().write_with_encoder(encoder) {
        Ok(()) => Ok(buffer),
        Err(e) => Err(e.to_string()),
    }
}

// ── Accepting and scaling ───────────────────────────────────────────────────

/// The bytes begin with the start-of-image marker of JPEG.
pub open spec fn has_jpeg_marker(data: Seq<u8>) -> bool {
    data.len() >= 2 && data[0] == 0xFF && data[1] == 0xD8
}

/// The data is a JPEG of which those dimensions are read.
pub open spec fn is_jpeg_with(data: Seq<u8>, width: u32, height: u32) -> bool {
    has_jpeg_marker(data) && probed_dimensions(data) == Ok::<_, Seq<char>>((width, height))
}

/// The message for an image with too many pixels.
pub open spec fn too_large_message(width: u32, height: u32) -> Seq<char> {
    "Image too large for thumbnail: "@ + text::decimal(width as nat) + "×"@ + text::decimal(
        height as nat,
    ) + " ("@ + text::decimal((width * height / 1_000_000) as nat) + " MP, max "@ + text::decimal(
        MAX_DECODE_PIXELS as nat,
    ) + ")"@
}

/// `outcome` is an image error with that message.
pub open spec fn is_image_error<T>(outcome: Result<T, ThumbnailError>, message: Seq<char>) -> bool {
    outcome matches Err(ThumbnailError::ImageError(m)) && m@ == message
}

/// Decides whether an image is decoded, by what its dimensions were found to
/// be: they have to be readable and must not make too many pixels.
pub fn check_dimensions(probed: Result<(u32, u32), String>) -> (outcome: Result<
    (),
    ThumbnailError,
>)
    ensures
        match probed {
            Err(e) => is_image_error(outcome, e@),
            Ok((width, height)) => if width * height > MAX_DECODE_PIXELS {
                is_image_error(outcome, too_large_message(width, height))
            } else {
                outcome is Ok
            },
        },
{
    match probed {
        Err(e) => Err(ThumbnailError::ImageError(e)),
        Ok((width, height)) => {
            assert(width as u64 * height as u64 <= 0xFFFF_FFFF * 0xFFFF_FFFF) by (nonlinear_arith)
                requires
                    width <= 0xFFFF_FFFF,
                    height <= 0xFFFF_FFFF,
            ;
            let pixels: u64 = width as u64 * height as u64;
            if pixels > MAX_DECODE_PIXELS {
                Err(
                    ThumbnailError::ImageError(
                        "Image too large for thumbnail: ".to_owned().concat(
                            decimal_text(width as u128).as_str(),
                        ).concat("×").concat(decimal_text(height as u128).as_str()).concat(
                            " (",
                        ).concat(decimal_text((pixels / 1_000_000) as u128).as_str()).concat(
                            " MP, max ",
                        ).concat(decimal_text(MAX_DECODE_PIXELS as u128).as_str()).concat(")"),
                    ),
                )
            } else {
                Ok(())
            }
        },
    }
}

/// Decodes an image for its thumbnails, unless its dimensions cannot be read
/// or it has too many pixels.
pub fn decode_for_thumbnail(data: &Vec<u8>) -> (outcome: Result<
    image::DynamicImage,
    ThumbnailError,
>)
    ensures
        match probed_dimensions(data@) {
            Err(e) => is_image_error(outcome, e),
            Ok((width, height)) => if width * height > MAX_DECODE_PIXELS {
                is_image_error(outcome, too_large_message(width, height))
            } else {
                match loaded_content(data@) {
                    Err(e) => is_image_error(outcome, e),
                    Ok(content) => outcome is Ok && image_content(outcome->Ok_0) == content,
                }
            },
        },
{
    match check_dimensions(probe_dimensions(data)) {
        Err(e) => Err(e),
        Ok(()) => match load_from_memory(data) {
            Err(e) => Err(ThumbnailError::ImageError(e)),
            Ok(img) => Ok(img),
        },
    }
}

/// What the shorter side of a scaled image has to be computed from: it is
/// `short * (max / long)`, cut to a whole number.
#[derive(Clone, Copy, PartialEq, Eq, Structural, Debug)]
pub struct ScaleRequest {
    pub max: u32,
    pub long: u32,
    pub short: u32,
}

/// The request for an image with that width and height: the longer side
/// becomes the size's maximum.
pub open spec fn scale_of(width: u32, height: u32, s: ThumbnailSize) -> ScaleRequest {
    ScaleRequest {
        max: size::max_dimension(s),
        long: if width > height { width } else { height },
        short: if width > height { height } else { width },
    }
}

/// The bounds for an image with that width and height: the size's maximum for
/// the longer side and `scaled` for the other.
pub open spec fn bounds_of(width: u32, height: u32, s: ThumbnailSize, scaled: u32) -> (u32, u32) {
    if width > height {
        (size::max_dimension(s), scaled)
    } else {
        (scaled, size::max_dimension(s))
    }
}

/// Says from what the shorter side of a thumbnail has to be computed, for an
/// image with that width and height.
pub fn scale_for(width: u32, height: u32, s: ThumbnailSize) -> (request: ScaleRequest)
    ensures
        request == scale_of(width, height, s),
{
    if width > height {
        ScaleRequest { max: s.max_dimension(), long: width, short: height }
    } else {
        ScaleRequest { max: s.max_dimension(), long: height, short: width }
    }
}

/// The bounds for a thumbnail, from the width and the height of the image and
/// the computed shorter side.
pub fn bounds_for(width: u32, height: u32, s: ThumbnailSize, scaled: u32) -> (bounds: (u32, u32))
    ensures
        bounds == bounds_of(width, height, s, scaled),
{
    if width > height {
        (s.max_dimension(), scaled)
    } else {
        (scaled, s.max_dimension())
    }
}

/// The image with that content is wider than it is high.
pub open spec fn is_landscape(content: Seq<u8>) -> bool {
    content_width(content) > content_height(content)
}

/// The content of the scaled image.
pub open spec fn scaled_content(
    content: Seq<u8>,
    s: ThumbnailSize,
    scaled: u32,
    filter: ScaleFilter,
) -> Seq<u8> {
    let bounds = bounds_of(content_width(content), content_height(content), s, scaled);
    resized_content(content, bounds.0, bounds.1, filter is Triangle)
}

/// The filter for thumbnails of that size.
pub open spec fn filter_of(s: ThumbnailSize) -> ScaleFilter {
    match s {
        ThumbnailSize::Icon => ScaleFilter::Triangle,
        ThumbnailSize::Preview => ScaleFilter::CatmullRom,
        ThumbnailSize::Large => ScaleFilter::CatmullRom,
    }
}

/// The filter for thumbnails of that size.
pub fn filter_for(s: ThumbnailSize) -> (filter: ScaleFilter)
    ensures
        filter == filter_of(s),
{
    match s {
        ThumbnailSize::Icon => ScaleFilter::Triangle,
        ThumbnailSize::Preview => ScaleFilter::CatmullRom,
        ThumbnailSize::Large => ScaleFilter::CatmullRom,
    }
}

/// Says from what the shorter side of the thumbnail has to be computed.
pub fn request_scale(img: &image::DynamicImage, s: ThumbnailSize) -> (request: ScaleRequest)
    ensures
        request == scale_of(
            content_width(image_content(*img)),
            content_height(image_content(*img)),
            s,
        ),
{
    scale_for(img.width(), img.height(), s)
}

/// `outcome` is the JPEG encoding of the image with that content, or its
/// failure.
pub open spec fn is_encoded(outcome: Result<Vec<u8>, ThumbnailError>, content: Seq<u8>) -> bool {
    match jpeg_of(content, JPEG_QUALITY) {
        Ok(bytes) => {
            &&& outcome is Ok
            &&& outcome->Ok_0@ == bytes
            &&& is_jpeg_with(bytes, content_width(content), content_height(content))
        },
        Err(e) => is_image_error(outcome, e),
    }
}

fn encode(img: &image::DynamicImage) -> (outcome: Result<Vec<u8>, ThumbnailError>)
    ensures
        is_encoded(outcome, image_content(*img)),
{
    match encode_jpeg(img, JPEG_QUALITY) {
        Ok(bytes) => Ok(bytes),
        Err(e) => Err(ThumbnailError::ImageError(e)),
    }
}

fn scale(
    img: &image::DynamicImage,
    s: ThumbnailSize,
    scaled: u32,
    filter: ScaleFilter,
) -> (resized: image::DynamicImage)
    ensures
        image_content(resized) == scaled_content(image_content(*img), s, scaled, filter),
        fits(image_content(resized), s),
{
    let (width, height) = bounds_for(img.width(), img.height(), s, scaled);
    resize(img, width, height, filter)
}

/// Renders the thumbnail of that size from a decoded image; `scaled` is the
/// computed shorter side. Whatever it is, neither side of the thumbnail exceeds
/// the size's maximum.
pub fn render_thumbnail(img: &image::DynamicImage, s: ThumbnailSize, scaled: u32) -> (outcome:
    Result<Vec<u8>, ThumbnailError>)
    ensures
        is_encoded(outcome, scaled_content(image_content(*img), s, scaled, filter_of(s))),
        fits(scaled_content(image_content(*img), s, scaled, filter_of(s)), s),
        outcome matches Ok(bytes) ==> is_fitting_jpeg(bytes@, s),
{
    let resized = scale(img, s, scaled, filter_for(s));
    encode(&resized)
}

/// Neither side of the image with that content exceeds the size's maximum.
pub open spec fn fits(content: Seq<u8>, s: ThumbnailSize) -> bool {
    content_width(content) <= size::max_dimension(s) && content_height(content)
        <= size::max_dimension(s)
}

/// `outcome` is what these renderings amount to: all thumbnails in their order,
/// or the first error.
pub open spec fn is_collected(
    outcome: Result<Vec<(ThumbnailSize, Vec<u8>)>, ThumbnailError>,
    rendered: Seq<(ThumbnailSize, Result<Vec<u8>, ThumbnailError>)>,
) -> bool {
    match outcome {
        Ok(thumbnails) => {
            &&& thumbnails@.len() == rendered.len()
            &&& forall|i: int|
                0 <= i < rendered.len() ==> rendered[i] == (
                    (#[trigger] thumbnails@[i]).0,
                    Ok::<Vec<u8>, ThumbnailError>(thumbnails@[i].1),
                )
        },
        Err(e) => exists|i: int|
            0 <= i < rendered.len() && (#[trigger] rendered[i]).1 == Err::<Vec<u8>, _>(e) && forall|
                j: int,
            |
                0 <= j < i ==> (#[trigger] rendered[j]).1 is Ok,
    }
}

/// Collects the thumbnails that were rendered one by one.
pub fn collect_rendered(
    rendered: Vec<(ThumbnailSize, Result<Vec<u8>, ThumbnailError>)>,
) -> (outcome: Result<Vec<(ThumbnailSize, Vec<u8>)>, ThumbnailError>)
    ensures
        is_collected(outcome, rendered@),
{
    let mut rest = rendered;
    let mut done: Vec<(ThumbnailSize, Vec<u8>)> = Vec::new();
    while rest.len() > 0
        invariant
            done@.len() + rest@.len() == rendered@.len(),
            rest@ == rendered@.skip(done@.len() as int),
            forall|i: int|
                0 <= i < done@.len() ==> rendered@[i] == (
                    (#[trigger] done@[i]).0,
                    Ok::<Vec<u8>, ThumbnailError>(done@[i].1),
                ),
        decreases rest@.len(),
    {
        let ghost at = done@.len() as int;
        proof {
            assert(rest@[0] == rendered@[at]);
            assert(rest@.remove(0) =~= rendered@.skip(at + 1));
        }
        let (size, result) = rest.remove(0);
        match result {
            Ok(bytes) => {
                done.push((size, bytes));
            },
            Err(e) => {
                proof {
                    assert forall|j: int| 0 <= j < at implies (#[trigger] rendered@[j]).1 is Ok by {
                        assert(done@[j] == done@[j]);
                    }
                }
                return Err(e);
            },
        }
    }
    Ok(done)
}

// ── Thumbnails made elsewhere ───────────────────────────────────────────────

/// The data is a JPEG that needs no scaling for that size.
pub open spec fn is_fitting_jpeg(data: Seq<u8>, s: ThumbnailSize) -> bool {
    &&& has_jpeg_marker(data)
    &&& probed_dimensions(data) matches Ok((width, height))
    &&& width <= size::max_dimension(s)
    &&& height <= size::max_dimension(s)
}

/// Decides whether data is a JPEG that needs no scaling, by its first bytes and
/// by what its dimensions were found to be.
pub fn needs_no_scaling(data: &Vec<u8>, probed: &Result<(u32, u32), String>, s: ThumbnailSize) -> (
    yes: bool)
    ensures
        yes == (has_jpeg_marker(data@) && (*probed matches Ok((width, height)) && width
            <= size::max_dimension(s) && height <= size::max_dimension(s))),
{
    let max = s.max_dimension();
    if data.len() < 2 || data[0] != 0xFF || data[1] != 0xD8 {
        return false;
    }
    match probed {
        Ok((width, height)) => *width <= max && *height <= max,
        Err(_) => false,
    }
}

/// A thumbnail that was made elsewhere, on its way to being stored.
pub enum ExternalThumbnail {
    /// The bytes to store.
    Ready(Vec<u8>),
    /// An image that is too large; it has to be scaled first.
    TooLarge(image::DynamicImage),
}

/// `outcome` is what taking in the data gives: a JPEG of the right size as it
/// is, the decoded image where it is too large, a new encoding of any other
/// image, or the error of what cannot be decoded or encoded.
pub open spec fn is_accepted(
    outcome: Result<ExternalThumbnail, ThumbnailError>,
    data: Vec<u8>,
    s: ThumbnailSize,
) -> bool {
    if is_fitting_jpeg(data@, s) {
        outcome == Ok::<_, ThumbnailError>(ExternalThumbnail::Ready(data))
    } else {
        match loaded_content(data@) {
            Err(e) => is_image_error(outcome, "Invalid image data: "@ + e),
            Ok(content) => if !fits(content, s) {
                outcome matches Ok(ExternalThumbnail::TooLarge(img)) && image_content(img)
                    == content
            } else {
                match jpeg_of(content, JPEG_QUALITY) {
                    Ok(bytes) => {
                        &&& outcome matches Ok(ExternalThumbnail::Ready(stored))
                        &&& stored@ == bytes
                        &&& is_jpeg_with(bytes, content_width(content), content_height(content))
                    },
                    Err(e) => is_image_error(outcome, e),
                }
            },
        }
    }
}

/// Takes in a thumbnail that was made elsewhere. A JPEG of the right size is
/// stored as it is; any other image is decoded and encoded anew, after
/// scaling where it is too large.
pub fn accept_external(data: Vec<u8>, s: ThumbnailSize) -> (outcome: Result<
    ExternalThumbnail,
    ThumbnailError,
>)
    ensures
        is_accepted(outcome, data, s),
        outcome matches Ok(ExternalThumbnail::Ready(stored)) ==> is_fitting_jpeg(stored@, s),
{
    let max = s.max_dimension();
    if needs_no_scaling(&data, &probe_dimensions(&data), s) {
        return Ok(ExternalThumbnail::Ready(data));
    }
    match load_from_memory(&data) {
        Err(e) => Err(
            ThumbnailError::ImageError("Invalid image data: ".to_owned().concat(e.as_str())),
        ),
        Ok(img) => {
            if img.width() > max || img.height() > max {
                Ok(ExternalThumbnail::TooLarge(img))
            } else {
                match encode(&img) {
                    Ok(bytes) => Ok(ExternalThumbnail::Ready(bytes)),
                    Err(e) => Err(e),
                }
            }
        },
    }
}

/// `outcome` is the encoding of the image with that content, scaled to fit, or
/// the failure of encoding it.
pub open spec fn is_finished(
    outcome: Result<Vec<u8>, ThumbnailError>,
    content: Seq<u8>,
    s: ThumbnailSize,
    scaled: u32,
) -> bool {
    let smaller = scaled_content(content, s, scaled, ScaleFilter::CatmullRom);
    is_encoded(outcome, smaller) && fits(smaller, s)
}

/// Scales and encodes a thumbnail that was made elsewhere; `scaled` is the
/// computed shorter side.
pub fn finish_external(img: &image::DynamicImage, s: ThumbnailSize, scaled: u32) -> (outcome:
    Result<Vec<u8>, ThumbnailError>)
    ensures
        is_finished(outcome, image_content(*img), s, scaled),
        outcome matches Ok(bytes) ==> is_fitting_jpeg(bytes@, s),
{
    let resized = scale(img, s, scaled, ScaleFilter::CatmullRom);
    encode(&resized)
}

} // verus!
