//! Packaging a screen capture for transport: the recognized text together
//! with the raw image bytes encoded as base64.
//!
//! Capturing the screen and recognizing its text are outside collaborators;
//! only their results reach this module, as plain values.

use vstd::prelude::*;

use base64::Engine;

verus! {

/// The base64 rendering of a byte sequence under the standard alphabet with
/// padding, as base64's `STANDARD` engine produces it.
pub uninterp spec fn base64_of(bytes: Seq<u8>) -> Seq<char>;

/// Relies on base64's `Engine::encode` with the `STANDARD` engine: the
/// result is a function of the input bytes alone — standard alphabet,
/// `=`-padded, four output characters for every three input bytes rounded
/// up. The encoder panics when that output length cannot be represented in
/// `usize`, so such inputs are excluded here.
#[verifier::external_body]
fn base64_encode(bytes: &Vec<u8>) -> (r: String)
    requires
        4 * ((bytes@.len() + 2) / 3) <= usize::MAX,
    ensures
        r@ == base64_of(bytes@),
        r@.len() == 4 * ((bytes@.len() + 2) / 3),
{
    base64::engine::general_purpose::STANDARD.encode(bytes.as_slice())
}

/// A screen capture as surfaced to the application: the text recognized in
/// the image, and the image itself encoded as base64.
#[derive(PartialEq, Eq, Debug)]
pub struct ScreenshotResult {
    pub text: String,
    pub image: String,
}

/// Package recognized text with its screenshot, encoding the raw image
/// bytes to base64 for transport. The bound on the image size only keeps
/// the encoded length representable in `usize`.
pub fn encode_capture(text: String, image_bytes: &Vec<u8>) -> (r: ScreenshotResult)
    requires
        4 * ((image_bytes@.len() + 2) / 3) <= usize::MAX,
    ensures
        r.text == text,
        r.image@ == base64_of(image_bytes@),
        r.image@.len() == 4 * ((image_bytes@.len() + 2) / 3),
{
    let image = base64_encode(image_bytes);
    ScreenshotResult { text, image }
}

} // verus!
