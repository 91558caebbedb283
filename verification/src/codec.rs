use vstd::prelude::*;
use crate::options::TargetFormat;

verus! {

// The image codec capability that conversion delegates to. Everything here
// is a declaration about the `image` crate: Verus believes the contracts and
// never looks at the codec itself.

#[verifier::external_type_specification]
#[verifier::external_body]
pub struct ExDynamicImage(image::DynamicImage);

/// Whether the codec's built-in container signatures and decoders accept
/// these bytes as a decodable image: a function of the bytes alone.
pub uninterp spec fn decode_accepts(bytes: Seq<u8>) -> bool;

/// The image that accepted bytes decode to. The built-in decoders read
/// nothing but the bytes, so this too is a function of the bytes alone.
pub uninterp spec fn decoded_of(bytes: Seq<u8>) -> image::DynamicImage;

/// Relies on `image::guess_format`, which consults only the codec's
/// built-in magic-byte table, and `image::load_from_memory_with_format`,
/// which for a built-in container reaches only the built-in decoder.
/// Custom codecs registered with the codec crate's process-global hook
/// registries are deliberately not consulted, which keeps the outcome a
/// function of the bytes alone. On failure the codec's own message is
/// handed back as the error text.
#[verifier::external_body]
pub(crate) fn decode_image(bytes: &Vec<u8>) -> (r: Result<image::DynamicImage, String>)
    ensures
        r is Ok <==> decode_accepts(bytes@),
        r matches Ok(img) ==> img == decoded_of(bytes@),
{
    let format = match image::guess_format(bytes.as_slice()) {
        Ok(format) => format,
        Err(e) => return Err(e.to_string()),
    };
    match image::load_from_memory_with_format(bytes.as_slice(), format) {
        Ok(img) => Ok(img),
        Err(e) => Err(e.to_string()),
    }
}

/// Whether the encoder for this target accepts the decoded image: each of
/// the four built-in encoders decides on the image and format alone.
pub uninterp spec fn encode_accepts(img: image::DynamicImage, target: TargetFormat) -> bool;

/// The bytes that encoding the image to this target produces. The built-in
/// encoders run with fixed settings (default JPEG quality, lossless WebP,
/// GIF speed 1), so the output is a function of image and format alone.
pub uninterp spec fn encoded_of(img: image::DynamicImage, target: TargetFormat) -> Seq<u8>;

/// Relies on `DynamicImage::write_to`: encodes the decoded image into the
/// chosen container, converting the color type where that encoder supports
/// no better one. A successful encoder always writes at least its
/// container header, so success means non-empty output. On failure the
/// codec's own message is the error text.
#[verifier::external_body]
pub(crate) fn encode_image(img: &image::DynamicImage, target: TargetFormat) -> (r: Result<
    Vec<u8>,
    String,
>)
    ensures
        r is Ok <==> encode_accepts(*img, target),
        r matches Ok(v) ==> v@ == encoded_of(*img, target) && v@.len() > 0,
{
    let format = match target {
        TargetFormat::Png => image::ImageFormat::Png,
        TargetFormat::Jpeg => image::ImageFormat::Jpeg,
        TargetFormat::WebP => image::ImageFormat::WebP,
        TargetFormat::Gif => image::ImageFormat::Gif,
    };
    let mut out: Vec<u8> = Vec::new();
    match img.write_to(&mut std::io::Cursor::new(&mut out), format) {
        Ok(()) => Ok(out),
        Err(e) => Err(e.to_string()),
    }
}

/// Whether the single-frame GIF encoder accepts the decoded image, which
/// it decides on the image alone (its dimensions must fit the container).
pub uninterp spec fn gif_encode_accepts(img: image::DynamicImage) -> bool;

/// The bytes that single-frame GIF encoding of the image produces: the
/// encoder runs at its fixed speed, so a function of the image alone.
pub uninterp spec fn gif_encoded_of(img: image::DynamicImage) -> Seq<u8>;

/// Relies on `GifEncoder::encode_frame` (with `DynamicImage::into_rgba8`
/// to re-lay the decoded pixels as an 8-bit-per-channel RGBA buffer,
/// `GifEncoder::new` for the sink and `Frame::new` to wrap the buffer):
/// writes the image as the single frame of a GIF, with default delay and
/// disposal. A success always starts with the GIF header, so its output
/// is non-empty. On failure the codec's own message is the error text.
#[verifier::external_body]
pub(crate) fn encode_single_frame_gif(img: image::DynamicImage) -> (r: Result<Vec<u8>, String>)
    ensures
        r is Ok <==> gif_encode_accepts(img),
        r matches Ok(v) ==> v@ == gif_encoded_of(img) && v@.len() > 0,
{
    let mut out: Vec<u8> = Vec::new();
    let result = {
        let mut encoder = image::codecs::gif::GifEncoder::new(&mut out);
        encoder.encode_frame(image::Frame::new(img.into_rgba8()))
    };
    match result {
        Ok(()) => Ok(out),
        Err(e) => Err(e.to_string()),
    }
}

} // verus!
