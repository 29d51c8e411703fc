//! QR codes: from a payload to the raster command that prints it.
//!
//! Encoding the symbol and resampling the image are left to the `qrcode` and
//! `image` crates. What they compute is named here, not restated; the
//! thresholding and packing that follow are this crate's own.

use vstd::prelude::*;
use crate::bitmap::{Bitmap, Raster};
use crate::error::PrintError;
use crate::raster::{pack_raster, raster_command, raster_command_of_200_square};

verus! {

/// The side, in pixels, to which every QR image is resized before printing.
pub const QR_SIDE: u32 = 200;

/// The largest symbol that is printed: version 12, which has 65 modules
/// a side.
///
/// Larger symbols are left out because nothing in `qrcode` shows that it
/// gets through them. It picks the mask of a symbol by scoring it under all
/// eight masks, and it adds the scores up in 16 bits, so a sum above 65535
/// overflows, which is a panic in a build with overflow checks. For a symbol
/// of `w` modules a side:
///
/// - runs of one colour score less than `w` in each row and each column;
/// - the finder-like pattern of seven modules scores 40 at each place where
///   it starts with four light modules, or the edge, before or after it;
/// - blocks score 3 for each of the `(w - 1)^2` squares of four modules;
/// - balance scores at most 100.
///
/// Two places where the finder-like pattern starts in one row or column lie
/// at least 4 apart, since the pattern fits over itself at no smaller
/// shift. They lie at least 11 apart unless the first has its light modules
/// before it and the second after it, so of any two neighbouring gaps one
/// is at least 11. The places 0 to 58 of a line of 65 modules hold at most
/// 8 such starts, the places 0 to 62 of a line of 69 hold 9.
///
/// For `w = 65` the scores add up to at most 8450 + 41600 + 12288 + 100 =
/// 62438, which fits in 16 bits. For `w = 69`, the next size, the same
/// count gives 9522 + 49680 + 13872 + 100 = 73174, which does not.
pub const MAX_QR_VERSION: i16 = 12;

/// No rendered QR symbol is wider than this many pixels: the largest symbol
/// that is printed has 65 modules, the border adds 4 on each side, and a
/// module is 8 pixels.
pub const MAX_SYMBOL_SIDE: u32 = 584;

/// The error type of `qrcode`. It is only carried from the encoder to the
/// place where it becomes an `EncodingError`.
#[verifier::external_type_specification]
#[verifier::external_body]
pub struct ExQrError(qrcode::types::QrError);

/// The version of the symbol that `qrcode` chooses for `data` at its default
/// error-correction level, a number from 1 to 40, or `None` where `data`
/// fits no symbol.
pub uninterp spec fn qr_version(data: Seq<char>) -> Option<int>;

/// The image of the QR symbol for `data` as `qrcode` renders it with its
/// default settings, or `None` where `qrcode` cannot encode `data`.
pub uninterp spec fn qr_symbol(data: Seq<char>) -> Option<Raster>;

/// Whether the symbol for `payload` is one that is printed: the payload
/// fits a symbol, and that symbol is no larger than `MAX_QR_VERSION`.
pub open spec fn renderable(payload: Seq<char>) -> bool {
    qr_version(payload) matches Some(version) && 1 <= version <= MAX_QR_VERSION
}

/// The side of the rendered image of a symbol, in pixels: a symbol of
/// version `v` has `4 * v + 17` modules, the border adds 4 on each side, and
/// a module is 8 pixels.
pub open spec fn symbol_side(version: int) -> int {
    8 * (4 * version + 25)
}

/// The image that is printed for `payload`: its QR symbol, if the symbol is
/// one that is printed and the payload can be encoded.
pub open spec fn printable_symbol(payload: Seq<char>) -> Option<Raster> {
    if renderable(payload) {
        qr_symbol(payload)
    } else {
        None
    }
}

/// The pixels that `image` gives when it resizes `source` to `width` by
/// `height` with nearest-neighbour sampling.
pub uninterp spec fn nearest_resized(source: Raster, width: nat, height: nat) -> Seq<u8>;

/// Whether every pixel is either black or white.
pub open spec fn is_monochrome(r: Raster) -> bool {
    forall|i: int| 0 <= i < r.pixels.len() ==> r.pixels[i] == 0 || r.pixels[i] == 255
}

/// `source` resized to the fixed square that is printed.
pub open spec fn fitted(source: Raster) -> Raster {
    Raster {
        width: QR_SIDE as nat,
        height: QR_SIDE as nat,
        pixels: nearest_resized(source, QR_SIDE as nat, QR_SIDE as nat),
    }
}

/// Whether resizing `source` to `height` rows stays within what the machine
/// can allocate: the resize keeps an intermediate image of 16 bytes for each
/// source column and target row.
pub open spec fn resizable(source: Raster, height: nat) -> bool {
    16 * source.width * height <= isize::MAX
}

/// The raster command that prints the QR code for `payload`, or `None` where
/// the payload has no symbol that is printed.
pub open spec fn qr_command(payload: Seq<char>) -> Option<Seq<u8>> {
    match printable_symbol(payload) {
        Some(symbol) => Some(raster_command(fitted(symbol))),
        None => None,
    }
}

/// Calls `qrcode::bits::encode_auto` on the bytes of `data` with
/// `EcLevel::M`, the level that `QrCode::new` uses, and reads the version
/// it chose with `Bits::version`.
///
/// Trusted: the call succeeds exactly where `qr_version` is defined and then
/// returns that version, which is from 1 to 40. `encode_auto` draws no
/// symbol; it reports data that fits none as an error.
#[verifier::external_body]
fn symbol_version(data: &str) -> (res: Result<i16, qrcode::types::QrError>)
    ensures
        res is Ok <==> qr_version(data@) is Some,
        res matches Ok(version) ==> qr_version(data@) == Some(version as int) && 1 <= version
            <= 40,
{
    let bits = qrcode::bits::encode_auto(data.as_bytes(), qrcode::EcLevel::M)?;
    match bits.version() {
        qrcode::Version::Normal(version) => Ok(version),
        qrcode::Version::Micro(version) => Ok(version),
    }
}

/// Calls `qrcode::QrCode::new` on the bytes of `data` and renders the symbol
/// with `QrCode::render::<Luma<u8>>().build()`.
///
/// Trusted: the call succeeds exactly where `qr_symbol` is defined and then
/// returns that image. The symbol has the version that `encode_auto`
/// chooses, since `QrCode::new` starts with that very call. The image is
/// square with the side that `symbol_side` gives for that version, has one
/// byte per pixel, and holds only the renderer's two default colours,
/// black for dark modules and white for light ones.
///
/// While `QrCode::new` picks the mask it adds scores up in 16 bits. On a
/// large symbol that can overflow; the limit on the version rules it out,
/// as `MAX_QR_VERSION` explains. It also takes 360 off the finder score of
/// each direction, which the three finder patterns of every symbol make up
/// for: each counts three times in each direction.
#[verifier::external_body]
fn render_symbol(data: &str) -> (res: Result<Bitmap, qrcode::types::QrError>)
    requires
        renderable(data@),
    ensures
        res is Ok <==> qr_symbol(data@) is Some,
        res matches Ok(b) ==> {
            &&& qr_symbol(data@) == Some(b@)
            &&& b@.wf()
            &&& b@.width == b@.height == symbol_side(qr_version(data@).unwrap())
            &&& is_monochrome(b@)
        },
{
    let code = qrcode::QrCode::new(data)?;
    let image = code.render::<image::Luma<u8>>().build();
    Ok(Bitmap { width: image.width(), height: image.height(), pixels: image.into_raw() })
}

/// Calls `image::DynamicImage::resize_exact` with `FilterType::Nearest` on
/// an 8-bit grayscale image and takes the result back with `to_luma8`.
///
/// Trusted: the result has exactly the requested dimensions, one byte per
/// pixel, and the pixels that `nearest_resized` names. The call allocates an
/// intermediate image of `source.width` by `height` pixels at 16 bytes each
/// and panics where that exceeds `isize::MAX` bytes.
#[verifier::external_body]
fn resize_nearest(source: Bitmap, width: u32, height: u32) -> (resized: Bitmap)
    requires
        resizable(source@, height as nat),
    ensures
        resized@ == (Raster {
            width: width as nat,
            height: height as nat,
            pixels: nearest_resized(source@, width as nat, height as nat),
        }),
        resized@.wf(),
{
    let gray = image::GrayImage::from_raw(source.width, source.height, source.pixels).unwrap();
    let resized = image::DynamicImage::ImageLuma8(gray).resize_exact(
        width,
        height,
        image::imageops::FilterType::Nearest,
    ).to_luma8();
    Bitmap { width: resized.width(), height: resized.height(), pixels: resized.into_raw() }
}

/// Tells whether `image` can be resized for printing on this machine, so
/// that `qr_to_escpos` may be called on it.
pub fn can_resize(image: &Bitmap) -> (can: bool)
    ensures
        can == resizable(image@, QR_SIDE as nat),
{
    let needed: u64 = 3200 * (image.width() as u64);
    assert(needed == 16 * image@.width * QR_SIDE) by (nonlinear_arith)
        requires
            needed == 3200 * image@.width,
            QR_SIDE == 200,
    ;
    needed <= isize::MAX as u64
}

/// Tells whether the QR symbol for `payload` is one that is printed, so
/// that `generate_qr` will render it.
pub fn can_render(payload: &str) -> (can: bool)
    ensures
        can == renderable(payload@),
{
    match symbol_version(payload) {
        Ok(version) => version <= MAX_QR_VERSION,
        Err(_) => false,
    }
}

/// Renders `data` as a QR code at the default error-correction level, as a
/// black and white square image. Fails with `EncodingError` exactly where
/// `data` fits no symbol up to `MAX_QR_VERSION` or cannot be encoded.
pub fn generate_qr(data: &str) -> (res: Result<Bitmap, PrintError>)
    ensures
        match res {
            Ok(image) => {
                &&& printable_symbol(data@) == Some(image@)
                &&& image@.wf()
                &&& image@.width == image@.height == symbol_side(qr_version(data@).unwrap())
                &&& 232 <= image@.width <= MAX_SYMBOL_SIDE
                &&& is_monochrome(image@)
            },
            Err(e) => e == PrintError::EncodingError && printable_symbol(data@) is None,
        },
{
    if !can_render(data) {
        return Err(PrintError::EncodingError);
    }
    match render_symbol(data) {
        Ok(image) => Ok(image),
        Err(_) => Err(PrintError::EncodingError),
    }
}

/// Turns an image into the raster command that prints it: resizes it to 200
/// by 200 pixels with nearest-neighbour sampling, then thresholds and packs
/// it. Whatever the image, the command announces rows of 25 bytes and 200
/// rows, and carries 5000 bytes of packed data.
pub fn qr_to_escpos(image: Bitmap) -> (bytes: Vec<u8>)
    requires
        resizable(image@, QR_SIDE as nat),
    ensures
        bytes@ == raster_command(fitted(image@)),
        bytes@.take(8) == seq![0x1Du8, 0x76u8, 0x30u8, 0x00u8, 25u8, 0u8, 200u8, 0u8],
        bytes@.len() == 8 + 25 * 200,
{
    let resized = resize_nearest(image, QR_SIDE, QR_SIDE);
    proof {
        raster_command_of_200_square(resized@);
    }
    pack_raster(&resized)
}

/// The raster command that prints the QR code for `payload`. Fails with
/// `EncodingError` exactly where the payload fits no symbol up to
/// `MAX_QR_VERSION` or cannot be encoded.
pub fn qr_code_command(payload: &str) -> (res: Result<Vec<u8>, PrintError>)
    ensures
        match res {
            Ok(bytes) => qr_command(payload@) == Some(bytes@),
            Err(e) => e == PrintError::EncodingError && qr_command(payload@) is None,
        },
{
    match generate_qr(payload) {
        Ok(image) => Ok(qr_to_escpos(image)),
        Err(e) => Err(e),
    }
}

} // verus!
