//! From a payload to an image: the QR symbol, its PNG and its SVG form.
//!
//! The symbol and both renderings come from the `qrcode` and `image`
//! crates. Nothing here proves what they compute. Their results are given
//! names, and the three functions that call them are believed to return
//! what the names stand for; everything else in this module is proved from
//! that: which call is made on which values, and what becomes of each
//! outcome.

use vstd::prelude::*;
use image::DynamicImage;
use image::ImageError;
use image::ImageOutputFormat;
use image::Luma;
use qrcode::render::svg;
use qrcode::types::QrError;
use qrcode::QrCode;
use crate::error::ApiError;

verus! {

/// Smallest side, in pixels, that a request may ask of an SVG image.
pub const MIN_DIMENSION: u32 = 100;

/// Largest side, in pixels, that a request may ask of an SVG image.
pub const MAX_DIMENSION: u32 = 2000;

/// `qrcode::QrCode`: an encoded symbol. Carried from the encoder to a
/// renderer; nothing in this library looks inside.
#[verifier::external_type_specification]
#[verifier::external_body]
pub struct ExQrCode(QrCode);

/// `qrcode::types::QrError`: why a payload could not be encoded.
#[verifier::external_type_specification]
#[verifier::external_body]
pub struct ExQrError(QrError);

/// `image::ImageError`: why an image could not be written out.
#[verifier::external_type_specification]
#[verifier::external_body]
pub struct ExImageError(ImageError);

/// The modules that a symbol holds, row by row from the top left, `true`
/// for a dark one (`QrCode::to_colors`). Their number is the square of the
/// symbol's width, and the width tells a Micro QR symbol (11 to 17 modules)
/// from a QR symbol (21 and more); so the modules are all that a renderer
/// reads of a symbol.
pub uninterp spec fn qr_modules(code: QrCode) -> Seq<bool>;

/// What `QrCode::new` makes of a payload: the modules of the smallest QR
/// symbol that holds it at the medium error correction level, or `None`
/// where no symbol does.
pub uninterp spec fn qr_symbol(payload: Seq<u8>) -> Option<Seq<bool>>;

/// The SVG document that `qrcode`'s renderer builds of a symbol's modules
/// when asked for at least `size` pixels a side, in the two colours given.
pub uninterp spec fn svg_markup(modules: Seq<bool>, size: u32, dark: Seq<char>, light: Seq<char>) -> Seq<char>;

/// The PNG file that `image` writes of the 8-bit greyscale picture that
/// `qrcode`'s renderer builds of a symbol's modules at its default module
/// size, or `None` where the encoder reports an error.
pub uninterp spec fn png_image(modules: Seq<bool>) -> Option<Seq<u8>>;

/// Calls `QrCode::new`. Believed, not proved: the call returns, and its
/// result depends on the payload alone, so that it can bear a name. Nothing
/// is claimed of what the symbol looks like.
#[verifier::external_body]
fn qr_encode(payload: &[u8]) -> (r: Result<QrCode, QrError>)
    ensures
        match r {
            Ok(code) => qr_symbol(payload@) == Some(qr_modules(code)),
            Err(_) => qr_symbol(payload@) is None,
        },
{
    QrCode::new(payload)
}

/// Calls `QrCode::render` for `qrcode::render::svg::Color` with
/// `min_dimensions(size, size)`, `dark_color`, `light_color`, then `build`.
/// Believed, not proved: the markup depends on the symbol's modules and
/// the three settings alone. The renderer computes the image's side from
/// `size` in `u32` without a check; sizes up to [`MAX_DIMENSION`] stay far
/// from that type's limit.
#[verifier::external_body]
fn render_svg(code: &QrCode, size: u32, dark: &str, light: &str) -> (r: String)
    requires
        size <= MAX_DIMENSION,
    ensures
        r@ == svg_markup(qr_modules(*code), size, dark@, light@),
{
    code.render().min_dimensions(size, size).dark_color(svg::Color(dark)).light_color(
        svg::Color(light),
    ).build()
}

/// Calls `QrCode::render` for `image::Luma<u8>` and `build`, then
/// `DynamicImage::write_to` with the PNG format on a buffer in memory.
/// Believed, not proved: the file, or the failure to write one, depends on
/// the symbol's modules alone.
#[verifier::external_body]
fn render_png(code: &QrCode) -> (r: Result<Vec<u8>, ImageError>)
    ensures
        match r {
            Ok(bytes) => png_image(qr_modules(*code)) == Some(bytes@),
            Err(_) => png_image(qr_modules(*code)) is None,
        },
{
    let picture = DynamicImage::ImageLuma8(code.render::<Luma<u8>>().build());
    let mut buffer = Vec::new();
    match picture.write_to(&mut buffer, ImageOutputFormat::Png) {
        Ok(()) => Ok(buffer),
        Err(e) => Err(e),
    }
}

/// What becomes of a payload that is to be a PNG image.
pub open spec fn png_outcome(payload: Seq<u8>) -> Result<Seq<u8>, ApiError> {
    match qr_symbol(payload) {
        None => Err(ApiError::QrEncodingFailure),
        Some(modules) => match png_image(modules) {
            None => Err(ApiError::ImageSerializationFailure),
            Some(bytes) => Ok(bytes),
        },
    }
}

/// What becomes of a payload that is to be an SVG image.
pub open spec fn svg_outcome(payload: Seq<u8>, size: u32, dark: Seq<char>, light: Seq<char>) -> Result<Seq<char>, ApiError> {
    match qr_symbol(payload) {
        None => Err(ApiError::QrEncodingFailure),
        Some(modules) => Ok(svg_markup(modules, size, dark, light)),
    }
}

/// Encodes `payload` as a QR symbol and renders it as a PNG file.
pub fn encode_png(payload: &[u8]) -> (r: Result<Vec<u8>, ApiError>)
    ensures
        match r {
            Ok(bytes) => png_outcome(payload@) == Ok::<Seq<u8>, ApiError>(bytes@),
            Err(e) => png_outcome(payload@) == Err::<Seq<u8>, ApiError>(e),
        },
{
    match qr_encode(payload) {
        Err(_) => Err(ApiError::QrEncodingFailure),
        Ok(code) => match render_png(&code) {
            Err(_) => Err(ApiError::ImageSerializationFailure),
            Ok(bytes) => Ok(bytes),
        },
    }
}

/// Encodes `payload` as a QR symbol and renders it as an SVG document of at
/// least `size` pixels a side, dark modules in `dark` on a ground of `light`.
pub fn encode_svg(payload: &[u8], size: u32, dark: &str, light: &str) -> (r: Result<String, ApiError>)
    requires
        MIN_DIMENSION <= size <= MAX_DIMENSION,
    ensures
        match r {
            Ok(markup) => svg_outcome(payload@, size, dark@, light@) == Ok::<Seq<char>, ApiError>(markup@),
            Err(e) => svg_outcome(payload@, size, dark@, light@) == Err::<Seq<char>, ApiError>(e),
        },
{
    match qr_encode(payload) {
        Err(_) => Err(ApiError::QrEncodingFailure),
        Ok(code) => Ok(render_svg(&code, size, dark, light)),
    }
}

} // verus!
