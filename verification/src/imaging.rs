//! The trusted boundary around the image codec.
//!
//! The codec decodes source bytes (detecting the format from the bytes
//! themselves), resamples to requested dimensions, and encodes into an
//! in-memory buffer.  The pipeline's logic never looks inside an image
//! value: it works with the dimensions carried beside it.

use vstd::prelude::*;
use crate::formats::OutputFormat;

verus! {

#[verifier::external_type_specification]
#[verifier::external_body]
pub struct ExDynamicImage(image::DynamicImage);

/// The dimensions the codec reads out of `bytes`, or `None` when it does
/// not recognize or cannot decode them.  Format detection and decoding
/// depend on the bytes alone.
pub uninterp spec fn decoded_dims(bytes: Seq<u8>) -> Option<(u32, u32)>;

/// A decoded source image beside its native dimensions.
pub struct DecodedImage {
    /// The codec's image value, opaque to the pipeline's logic.
    pub image: image::DynamicImage,
    /// The image's native width in pixels.
    pub width: u32,
    /// The image's native height in pixels.
    pub height: u32,
}

/// Relies on `image::io::Reader`: `with_guessed_format` detects the
/// format from the bytes and `decode` turns them into an image whose
/// dimensions depend on the bytes alone.
#[verifier::external_body]
pub fn decode_image(bytes: &Vec<u8>) -> (r: Option<DecodedImage>)
    ensures
        r is Some <==> decoded_dims(bytes@) is Some,
        r matches Some(img) ==> decoded_dims(bytes@) == Some((img.width, img.height)),
{
    let reader = image::io::Reader::new(std::io::Cursor::new(bytes.as_slice()))
        .with_guessed_format()
        .ok()?;
    let image = reader.decode().ok()?;
    let (width, height) = (image.width(), image.height());
    Some(DecodedImage { image, width, height })
}

/// Relies on `DynamicImage::resize_exact`: the returned image has
/// exactly the requested dimensions.
#[verifier::external_body]
pub fn resize_to(img: &DecodedImage, width: u32, height: u32) -> (r: DecodedImage)
    requires
        width >= 1,
        height >= 1,
    ensures
        r.width == width,
        r.height == height,
{
    let image = img.image.resize_exact(width, height, image::imageops::FilterType::Nearest);
    DecodedImage { image, width, height }
}

/// Relies on `DynamicImage::write_to`: encodes the image fully into an
/// in-memory buffer in the chosen format; `quality` applies to JPEG
/// output.  `None` reports an encoder failure.
#[verifier::external_body]
pub fn encode_image(img: &DecodedImage, format: OutputFormat, quality: u8) -> Option<Vec<u8>> {
    let out = match format {
        OutputFormat::Jpeg => image::ImageOutputFormat::Jpeg(quality),
        OutputFormat::Png => image::ImageOutputFormat::Png,
        OutputFormat::Webp => image::ImageOutputFormat::WebP,
    };
    let mut cursor = std::io::Cursor::new(Vec::new());
    img.image.write_to(&mut cursor, out).ok()?;
    Some(cursor.into_inner())
}

} // verus!
