use vstd::prelude::*;
use vstd::string::StringSliceAdditionalSpecFns;
use std::io::Cursor;
use image::DynamicImage::ImageRgba8;
use image::ImageBuffer;

verus! {

/// `base64::DecodeError`, carried through as an opaque value.
#[verifier::external_type_specification]
#[verifier::external_body]
pub struct ExDecodeError(base64::DecodeError);

/// `image::ImageError`, carried through as an opaque value.
#[verifier::external_type_specification]
#[verifier::external_body]
pub struct ExImageError(image::ImageError);

/// The bytes that standard, padded base64 text stands for, or `None` where
/// `base64::decode` rejects the text.
pub uninterp spec fn base64_decoded(text: Seq<char>) -> Option<Seq<u8>>;

/// The standard, padded base64 text that `base64::encode` writes for `bytes`.
pub uninterp spec fn base64_encoded(bytes: Seq<u8>) -> Seq<char>;

/// The RGBA8 pixels, width and height that the `image` crate reads out of an
/// encoded still image, or `None` where it cannot read one.
pub uninterp spec fn rgba8_decoded(bytes: Seq<u8>) -> Option<(Seq<u8>, u32, u32)>;

/// The PNG file that the `image` crate writes for an RGBA8 buffer of the given
/// width and height, or `None` where its encoder refuses.
pub uninterp spec fn png_encoded(pixels: Seq<u8>, width: u32, height: u32) -> Option<Seq<u8>>;

/// Calls `base64::decode`. Trusted: the outcome depends on the text alone, an
/// `Err` stands for rejected text, and an `Ok` holds the decoded bytes. The
/// length bound keeps the crate's size estimates, which round the input's
/// length up to whole chunks of eight bytes, from overflowing.
#[verifier::external_body]
pub(crate) fn decode_base64(text: &str) -> (r: Result<Vec<u8>, base64::DecodeError>)
    requires
        text.spec_bytes().len() + 7 <= usize::MAX,
    ensures
        r is Ok <==> base64_decoded(text@) is Some,
        r matches Ok(bytes) ==> base64_decoded(text@) == Some(bytes@),
{
    base64::decode(text)
}

/// Calls `base64::encode`. Trusted: the text depends on the bytes alone. The
/// length bound keeps the crate's size computation from overflowing.
#[verifier::external_body]
pub(crate) fn encode_base64(bytes: &Vec<u8>) -> (r: String)
    requires
        (bytes@.len() / 3) * 4 + 4 <= usize::MAX,
    ensures
        r@ == base64_encoded(bytes@),
{
    base64::encode(bytes)
}

/// Calls `image::load_from_memory` and hands out the image as RGBA8 bytes
/// with its dimensions. Trusted: the outcome depends on the bytes alone, and
/// an `Err` stands for input that the crate cannot read. Nothing is claimed
/// about how the three values relate.
#[verifier::external_body]
pub(crate) fn decode_rgba8(bytes: &Vec<u8>) -> (r: Result<(Vec<u8>, u32, u32), image::ImageError>)
    ensures
        r is Ok <==> rgba8_decoded(bytes@) is Some,
        r matches Ok(got) ==> rgba8_decoded(bytes@) == Some((got.0@, got.1, got.2)),
{
    let img = image::load_from_memory(bytes.as_slice())?;
    Ok((ImageRgba8(img.to_rgba8()).as_bytes().to_vec(), img.width(), img.height()))
}

/// Calls `DynamicImage::write_to` with the PNG format on an in-memory
/// cursor. Trusted: the outcome depends on the buffer and the dimensions
/// alone, and an `Err` stands for an image that the encoder refuses. The
/// buffer must hold exactly four bytes per pixel: the crate checks as much
/// and panics otherwise.
#[verifier::external_body]
pub(crate) fn encode_png(pixels: &Vec<u8>, width: u32, height: u32) -> (r: Result<
    Vec<u8>,
    image::ImageError,
>)
    requires
        pixels@.len() == width as int * height as int * 4,
    ensures
        r is Ok <==> png_encoded(pixels@, width, height) is Some,
        r matches Ok(file) ==> png_encoded(pixels@, width, height) == Some(file@),
{
    let img = ImageRgba8(ImageBuffer::from_vec(width, height, pixels.clone()).unwrap());
    let mut buf = Cursor::new(Vec::new());
    img.write_to(&mut buf, image::ImageOutputFormat::Png)?;
    Ok(buf.into_inner())
}

} // verus!
