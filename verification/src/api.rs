use vstd::prelude::*;
use vstd::string::StringSliceAdditionalSpecFns;
use vstd::string::StringExecFns;
use crate::codec::base64_decoded;
use crate::codec::base64_encoded;
use crate::codec::decode_base64;
use crate::codec::decode_rgba8;
use crate::codec::encode_base64;
use crate::codec::encode_png;
use crate::codec::png_encoded;
use crate::codec::rgba8_decoded;
use crate::convolutions::convolved_pixels;
use crate::convolutions::named_weights;
use crate::convolutions::NamedKernel;
use crate::convolutions::edge_detection;
use crate::convolutions::emboss;
use crate::convolutions::sharpen;
use crate::filters::bw_threshold;
use crate::filters::grayscale;
use crate::filters::grayscale_pixels;
use crate::filters::monochrome;
use crate::filters::monochrome_pixels;
use crate::filters::ocean_blue;
use crate::filters::purple;
use crate::filters::threshold_pixels;
use crate::filters::TintPresets;
use crate::filters::DEFAULT_CUTOFF;
use crate::photo::Photo;

verus! {

/// Why an image could not be taken in or handed out.
#[derive(Clone, Copy, Debug, PartialEq, Eq, Structural)]
pub enum CodecError {
    /// The text is not base64.
    Base64,
    /// The bytes are not an image in a format that can be read.
    Image,
    /// The image that was read is empty, or its buffer does not belong to its
    /// dimensions.
    Geometry,
    /// The image could not be written as PNG.
    Encoding,
    /// The data is longer than this machine can address once transcoded.
    TooLong,
}

/// What a load yields, with the photo taken apart into plain values.
pub open spec fn photo_parts(r: Result<Photo, CodecError>) -> Result<
    (Seq<u8>, u32, u32),
    CodecError,
> {
    match r {
        Ok(p) => Ok((p.pixels@, p.width, p.height)),
        Err(e) => Err(e),
    }
}

/// What an export yields, with the text as a sequence of characters.
pub open spec fn text_of(r: Result<String, CodecError>) -> Result<Seq<char>, CodecError> {
    match r {
        Ok(s) => Ok(s@),
        Err(e) => Err(e),
    }
}

/// A decoded buffer is accepted when it has at least one pixel and four bytes
/// for each.
pub open spec fn checked_parts(pixels: Seq<u8>, width: u32, height: u32) -> Result<
    (Seq<u8>, u32, u32),
    CodecError,
> {
    if width >= 1 && height >= 1 && pixels.len() == width as int * height as int * 4 {
        Ok((pixels, width, height))
    } else {
        Err(CodecError::Geometry)
    }
}

/// The outcome of [`set_img_bytes`]: base64 text is decoded to a file, the
/// file to pixels, and the pixels are checked against their dimensions.
pub open spec fn loaded_parts(text: &str) -> Result<(Seq<u8>, u32, u32), CodecError> {
    if text.spec_bytes().len() + 7 > usize::MAX {
        Err(CodecError::TooLong)
    } else {
        match base64_decoded(text@) {
            None => Err(CodecError::Base64),
            Some(file) => match rgba8_decoded(file) {
                None => Err(CodecError::Image),
                Some(parts) => checked_parts(parts.0, parts.1, parts.2),
            },
        }
    }
}

pub open spec fn data_url_prefix() -> Seq<char> {
    "data:image/png;base64,"@
}

/// The data URL that carries a PNG file.
pub open spec fn data_url_of_png(png: Seq<u8>) -> Result<Seq<char>, CodecError> {
    if (png.len() / 3) * 4 + 4 > usize::MAX {
        Err(CodecError::TooLong)
    } else {
        Ok(data_url_prefix() + base64_encoded(png))
    }
}

/// The outcome of [`photo_to_base64`] on a buffer with its dimensions.
pub open spec fn data_url(pixels: Seq<u8>, width: u32, height: u32) -> Result<
    Seq<char>,
    CodecError,
> {
    match png_encoded(pixels, width, height) {
        None => Err(CodecError::Encoding),
        Some(png) => data_url_of_png(png),
    }
}

/// Accepts a decoded RGBA8 buffer as a photo if it is well-formed.
pub fn photo_from_rgba(pixels: Vec<u8>, width: u32, height: u32) -> (r: Result<Photo, CodecError>)
    ensures
        photo_parts(r) == checked_parts(pixels@, width, height),
        r matches Ok(p) ==> p.wf(),
{
    match Photo::new(pixels, width, height) {
        Some(p) => Ok(p),
        None => Err(CodecError::Geometry),
    }
}

/// Reads a photo from the base64 text of an encoded image file.
pub fn set_img_bytes(base64: &str) -> (r: Result<Photo, CodecError>)
    ensures
        photo_parts(r) == loaded_parts(base64),
        r matches Ok(p) ==> p.wf(),
{
    if base64.as_bytes().len() > usize::MAX - 7 {
        return Err(CodecError::TooLong);
    }
    let file: Vec<u8> = match decode_base64(base64) {
        Ok(bytes) => bytes,
        Err(_) => {
            return Err(CodecError::Base64);
        },
    };
    match decode_rgba8(&file) {
        Ok(parts) => photo_from_rgba(parts.0, parts.1, parts.2),
        Err(_) => Err(CodecError::Image),
    }
}

/// Puts the data-URL header for a PNG in front of base64 text.
pub fn with_data_url_prefix(encoded: &str) -> (r: String)
    ensures
        r@ == data_url_prefix() + encoded@,
{
    String::from_str("data:image/png;base64,").concat(encoded)
}

/// Writes the photo as a PNG file and returns it as a base64 data URL.
pub fn photo_to_base64(photo: &Photo) -> (r: Result<String, CodecError>)
    requires
        photo.len_matches(),
    ensures
        text_of(r) == data_url(photo.pixels@, photo.width, photo.height),
{
    let png: Vec<u8> = match encode_png(&photo.pixels, photo.width, photo.height) {
        Ok(file) => file,
        Err(_) => {
            return Err(CodecError::Encoding);
        },
    };
    if png.len() / 3 > (usize::MAX - 4) / 4 {
        return Err(CodecError::TooLong);
    }
    let encoded: String = encode_base64(&png);
    Ok(with_data_url_prefix(encoded.as_str()))
}

/// The photo in gray, as a data URL. The photo itself is not changed.
pub fn to_grayscale(photo: &Photo) -> (r: Result<String, CodecError>)
    requires
        photo.wf(),
    ensures
        text_of(r) == data_url(grayscale_pixels(photo.pixels@), photo.width, photo.height),
{
    let mut tmp = photo.duplicate();
    grayscale(&mut tmp);
    photo_to_base64(&tmp)
}

/// The photo tinted by [`monochrome`], as a data URL.
pub fn to_monochrome(photo: &Photo, r_offset: u32, g_offset: u32, b_offset: u32) -> (r: Result<
    String,
    CodecError,
>)
    requires
        photo.wf(),
    ensures
        text_of(r) == data_url(
            monochrome_pixels(photo.pixels@, r_offset, g_offset, b_offset),
            photo.width,
            photo.height,
        ),
{
    let mut tmp = photo.duplicate();
    monochrome(&mut tmp, r_offset, g_offset, b_offset);
    photo_to_base64(&tmp)
}

/// The photo's edges, as a data URL.
pub fn get_edges(photo: &Photo) -> (r: Result<String, CodecError>)
    requires
        photo.len_matches(),
    ensures
        text_of(r) == data_url(
            convolved_pixels(
                named_weights(NamedKernel::EdgeDetection),
                photo.pixels@,
                photo.width as int,
                photo.height as int,
            ),
            photo.width,
            photo.height,
        ),
{
    let mut tmp = photo.duplicate();
    edge_detection(&mut tmp);
    photo_to_base64(&tmp)
}

/// The photo sharpened, as a data URL.
pub fn sharpen_image(photo: &Photo) -> (r: Result<String, CodecError>)
    requires
        photo.len_matches(),
    ensures
        text_of(r) == data_url(
            convolved_pixels(
                named_weights(NamedKernel::Sharpen),
                photo.pixels@,
                photo.width as int,
                photo.height as int,
            ),
            photo.width,
            photo.height,
        ),
{
    let mut tmp = photo.duplicate();
    sharpen(&mut tmp);
    photo_to_base64(&tmp)
}

/// The photo as it is, as a data URL: no cartoon transform is applied.
pub fn cartoon_gan(photo: &Photo) -> (r: Result<String, CodecError>)
    requires
        photo.len_matches(),
    ensures
        text_of(r) == data_url(photo.pixels@, photo.width, photo.height),
{
    let tmp = photo.duplicate();
    photo_to_base64(&tmp)
}

/// The photo in the "ocean blue" tint of `presets`, as a data URL.
pub fn to_oceanblue(photo: &Photo, presets: &TintPresets) -> (r: Result<String, CodecError>)
    requires
        photo.wf(),
    ensures
        text_of(r) == data_url(
            monochrome_pixels(
                photo.pixels@,
                presets.ocean_blue.r_offset,
                presets.ocean_blue.g_offset,
                presets.ocean_blue.b_offset,
            ),
            photo.width,
            photo.height,
        ),
{
    let mut tmp = photo.duplicate();
    ocean_blue(&mut tmp, presets);
    photo_to_base64(&tmp)
}

/// The photo in the "purple" tint of `presets`, as a data URL.
pub fn to_purple(photo: &Photo, presets: &TintPresets) -> (r: Result<String, CodecError>)
    requires
        photo.wf(),
    ensures
        text_of(r) == data_url(
            monochrome_pixels(
                photo.pixels@,
                presets.purple.r_offset,
                presets.purple.g_offset,
                presets.purple.b_offset,
            ),
            photo.width,
            photo.height,
        ),
{
    let mut tmp = photo.duplicate();
    purple(&mut tmp, presets);
    photo_to_base64(&tmp)
}

/// The photo in black and white at the default cutoff, as a data URL.
pub fn to_threshold(photo: &Photo) -> (r: Result<String, CodecError>)
    requires
        photo.wf(),
    ensures
        text_of(r) == data_url(
            threshold_pixels(photo.pixels@, DEFAULT_CUTOFF),
            photo.width,
            photo.height,
        ),
{
    let mut tmp = photo.duplicate();
    bw_threshold(&mut tmp);
    photo_to_base64(&tmp)
}

/// The photo embossed, as a data URL.
pub fn to_emboss(photo: &Photo) -> (r: Result<String, CodecError>)
    requires
        photo.len_matches(),
    ensures
        text_of(r) == data_url(
            convolved_pixels(
                named_weights(NamedKernel::Emboss),
                photo.pixels@,
                photo.width as int,
                photo.height as int,
            ),
            photo.width,
            photo.height,
        ),
{
    let mut tmp = photo.duplicate();
    emboss(&mut tmp);
    photo_to_base64(&tmp)
}

} // verus!
