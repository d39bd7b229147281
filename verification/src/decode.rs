//! From a request's image input to a pixel grid.
//!
//! The input is either a data URL (`data:<media type>;base64,<payload>`) or a
//! bare base64 payload. The payload decodes to the bytes of an image file whose
//! format is found from its signature.

use base64::Engine;
use vstd::prelude::*;
use vstd::slice::slice_subrange;
use vstd::string::StringSliceAdditionalSpecFns;

use crate::error::PipelineError;
use crate::grid::PixelGrid;
use crate::scan::{first_position, lemma_first_position_is};

verus! {

/// `base64::DecodeError`: why a payload did not decode. It is carried through
/// unread.
#[verifier::external_type_specification]
#[verifier::external_body]
pub struct ExBase64DecodeError(base64::DecodeError);

/// `image::DynamicImage`: a decoded image of any pixel type. It is carried
/// through unread.
#[verifier::external_type_specification]
#[verifier::external_body]
pub struct ExDynamicImage(image::DynamicImage);

/// `image::ImageError`: why an image file did not decode. It is carried through
/// unread.
#[verifier::external_type_specification]
#[verifier::external_body]
pub struct ExImageError(image::ImageError);

/// What the standard base64 alphabet with canonical padding decodes `payload`
/// to; `None` where `payload` is not such an encoding.
pub uninterp spec fn base64_decoded(payload: Seq<u8>) -> Option<Seq<u8>>;

/// `base64::Engine::decode` of the `STANDARD` engine. The bytes it returns, or
/// the fact that it returns an error, depend on the payload alone and go by
/// the name `base64_decoded`.
#[verifier::external_body]
fn base64_decode(payload: &[u8]) -> (out: Result<Vec<u8>, base64::DecodeError>)
    ensures
        match out {
            Ok(bytes) => base64_decoded(payload@) == Some(bytes@),
            Err(_) => base64_decoded(payload@).is_none(),
        },
{
    base64::engine::general_purpose::STANDARD.decode(payload)
}

/// `image::load_from_memory` guesses the format of an image file from its first
/// bytes and decodes it. What it returns depends on the bytes and on the
/// decoders that the process has registered with `image`, so nothing is
/// claimed of the outcome.
pub assume_specification[ image::load_from_memory ](buffer: &[u8]) -> (out: image::ImageResult<
    image::DynamicImage,
>)
;

/// `image::DynamicImage::into_rgb8` converts a decoded image to three 8-bit
/// samples per pixel; the result is handed out as width, height and samples.
/// Nothing is claimed of them.
#[verifier::external_body]
fn rgb8_parts(decoded: image::DynamicImage) -> (out: (u32, u32, Vec<u8>)) {
    let rgb = decoded.into_rgb8();
    (rgb.width(), rgb.height(), rgb.into_raw())
}

/// Position of the first comma in `text`, or the length of `text` where it
/// holds none.
pub open spec fn first_comma(text: Seq<u8>) -> int {
    first_position(text, |byte: u8| byte == 0x2C)
}

/// The base64 payload of an input: what follows the first comma, or the whole
/// input where it holds no comma.
pub open spec fn payload_of(text: Seq<u8>) -> Seq<u8> {
    let comma = first_comma(text);
    if 0 <= comma < text.len() {
        text.skip(comma + 1)
    } else {
        text
    }
}

/// The payload of `input`, as a part of it.
pub fn payload(input: &[u8]) -> (out: &[u8])
    ensures
        out@ == payload_of(input@),
{
    let length: usize = input.len();
    let mut at: usize = 0;
    while at < length && input[at] != 0x2C
        invariant
            length == input@.len(),
            at <= length,
            forall|i: int| 0 <= i < at ==> input[i] != 0x2C,
        decreases length - at,
    {
        at += 1;
    }
    proof {
        lemma_first_position_is(input@, |byte: u8| byte == 0x2C, at as int);
    }
    if at < length {
        let out = slice_subrange(input, at + 1, length);
        assert(out@ =~= input@.skip(at + 1));
        out
    } else {
        input
    }
}

/// Decodes the image bytes that a data URL or a bare base64 payload carries.
///
/// The text is taken as its UTF-8 bytes. Fails with `Decode` exactly when the
/// payload is not standard base64 with canonical padding.
pub fn decode_base64_image(base64_string: &str) -> (out: Result<Vec<u8>, PipelineError>)
    ensures
        match out {
            Ok(bytes) => base64_decoded(payload_of(base64_string.spec_bytes())) == Some(bytes@),
            Err(e) => base64_decoded(payload_of(base64_string.spec_bytes())).is_none() && e
                == PipelineError::Decode,
        },
{
    match base64_decode(payload(base64_string.as_bytes())) {
        Ok(bytes) => Ok(bytes),
        Err(_) => Err(PipelineError::Decode),
    }
}

/// Decodes the image that a data URL or a bare base64 payload carries into a
/// pixel grid.
///
/// Fails with `Decode` when the payload is not standard base64 with canonical
/// padding, and when the bytes it carries do not decode as an image
/// (`decode_image`).
pub fn decode_input(input: &str) -> (out: Result<PixelGrid, PipelineError>)
    ensures
        base64_decoded(payload_of(input.spec_bytes())).is_none() ==> out.is_err(),
        match out {
            Ok(grid) => grid@.well_formed(),
            Err(e) => e == PipelineError::Decode,
        },
{
    match decode_base64_image(input) {
        Ok(image_bytes) => decode_image(image_bytes.as_slice()),
        Err(e) => Err(e),
    }
}

/// Decodes an image file into a pixel grid.
///
/// Whether a file decodes is for the decoder to say: a file of unknown format
/// or with corrupt pixel data fails with `Decode`, and so does a decoded image
/// that does not hold three samples per pixel.
pub fn decode_image(image_bytes: &[u8]) -> (out: Result<PixelGrid, PipelineError>)
    ensures
        match out {
            Ok(grid) => grid@.well_formed(),
            Err(e) => e == PipelineError::Decode,
        },
{
    match image::load_from_memory(image_bytes) {
        Ok(decoded) => {
            let (width, height, samples) = rgb8_parts(decoded);
            match PixelGrid::new(width, height, samples) {
                Some(grid) => Ok(grid),
                None => Err(PipelineError::Decode),
            }
        },
        Err(_) => Err(PipelineError::Decode),
    }
}

} // verus!
