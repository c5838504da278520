//! Trusted boundary to the image codecs.
//!
//! Decoding a bitmap file and encoding a PNG are done by the `image` crate;
//! their full behaviour is not restated here. Decoding gets two names for what
//! it returns — whether the bytes parse, and the RGBA pixel buffer — plus the
//! exact dimension fields that the decoder's header parsing pins down.
//! Encoding gets a name for the produced byte stream plus the fixed prefix
//! every PNG carries: the signature and the header chunk holding the
//! dimensions in big-endian order.

use vstd::prelude::*;
use crate::bmp::{as_signed32, le32_at};

verus! {

/// Byte offset of the info-header size field in an assembled bitmap file.
pub const FILE_INFO_SIZE_OFFSET: usize = 14;

/// Byte offset of the declared width in an assembled bitmap file.
pub const FILE_WIDTH_OFFSET: usize = 18;

/// Byte offset of the declared height in an assembled bitmap file.
pub const FILE_HEIGHT_OFFSET: usize = 22;

/// Whether the bitmap decoder accepts these bytes as a bitmap file.
pub uninterp spec fn bmp_parse_ok(b: Seq<u8>) -> bool;

/// The RGBA pixel buffer the bitmap decoder produces for these bytes.
pub uninterp spec fn bmp_rgba_pixels(b: Seq<u8>) -> Seq<u8>;

/// The width of the image the bitmap decoder produces for these bytes.
pub uninterp spec fn bmp_decoded_width(b: Seq<u8>) -> u32;

/// The height of the image the bitmap decoder produces for these bytes.
pub uninterp spec fn bmp_decoded_height(b: Seq<u8>) -> u32;

/// Whether the PNG encoder accepts this pixel buffer and these dimensions.
pub uninterp spec fn png_encode_ok(pixels: Seq<u8>, width: u32, height: u32) -> bool;

/// The PNG byte stream the encoder produces for this pixel buffer.
pub uninterp spec fn png_encoding(pixels: Seq<u8>, width: u32, height: u32) -> Seq<u8>;

/// The fixed eight-byte signature that opens every PNG file.
pub open spec fn png_signature() -> Seq<u8> {
    seq![137u8, 80u8, 78u8, 71u8, 13u8, 10u8, 26u8, 10u8]
}

/// The value of the four big-endian bytes at offset `i`.
pub open spec fn be32_at(b: Seq<u8>, i: int) -> int {
    b[i] * 0x1000000 + b[i + 1] * 0x10000 + b[i + 2] * 0x100 + b[i + 3]
}

/// Byte offset of the width in a PNG header chunk.
pub const PNG_WIDTH_OFFSET: usize = 16;

/// Byte offset of the height in a PNG header chunk.
pub const PNG_HEIGHT_OFFSET: usize = 20;

/// Relies on `image::load_from_memory_with_format` with the bitmap format and
/// on `DynamicImage::{width, height, to_rgba8}`: the decoder is a function of
/// the bytes alone; for a file whose info-header size field reads 40 it takes
/// the width from the signed little-endian field at offset 18, rejecting
/// negative values, and the height as the magnitude of the signed field at
/// offset 22; the RGBA buffer holds four bytes per pixel.
#[verifier::external_body]
pub(crate) fn decode_bmp(bytes: &Vec<u8>) -> (r: Result<(Vec<u8>, u32, u32), ()>)
    ensures
        r is Ok <==> bmp_parse_ok(bytes@),
        r matches Ok(t) ==> t.0@ == bmp_rgba_pixels(bytes@) && t.1 == bmp_decoded_width(bytes@)
            && t.2 == bmp_decoded_height(bytes@) && t.0@.len() == 4 * t.1 * t.2,
        r matches Ok(t) ==> (bytes@.len() >= 26 && le32_at(bytes@, FILE_INFO_SIZE_OFFSET as int)
            == 40) ==> {
            &&& as_signed32(le32_at(bytes@, FILE_WIDTH_OFFSET as int)) >= 0
            &&& t.1 == as_signed32(le32_at(bytes@, FILE_WIDTH_OFFSET as int))
            &&& t.2 == if as_signed32(le32_at(bytes@, FILE_HEIGHT_OFFSET as int)) < 0 {
                -as_signed32(le32_at(bytes@, FILE_HEIGHT_OFFSET as int))
            } else {
                as_signed32(le32_at(bytes@, FILE_HEIGHT_OFFSET as int))
            }
        },
{
    match image::load_from_memory_with_format(bytes.as_slice(), image::ImageFormat::Bmp) {
        Ok(img) => {
            let width = img.width();
            let height = img.height();
            Ok((img.to_rgba8().into_raw(), width, height))
        },
        Err(_) => Err(()),
    }
}

/// Relies on `image::codecs::png::PngEncoder` and
/// `image::ImageEncoder::write_image` with the RGBA color type: the encoder is
/// a function of the pixel buffer and dimensions alone, requires the buffer to
/// hold exactly four bytes per pixel (it panics otherwise), rejects an empty
/// dimension, and on success writes the PNG signature followed by the header
/// chunk with the dimensions in big-endian order.
#[verifier::external_body]
pub(crate) fn encode_png(pixels: &Vec<u8>, width: u32, height: u32) -> (r: Result<Vec<u8>, ()>)
    requires
        pixels@.len() == 4 * width * height,
    ensures
        r is Ok <==> png_encode_ok(pixels@, width, height),
        width == 0 || height == 0 ==> r is Err,
        r matches Ok(b) ==> {
            &&& b@ == png_encoding(pixels@, width, height)
            &&& b@.len() >= 24
            &&& b@.subrange(0, 8) == png_signature()
            &&& be32_at(b@, PNG_WIDTH_OFFSET as int) == width
            &&& be32_at(b@, PNG_HEIGHT_OFFSET as int) == height
        },
{
    let mut out: Vec<u8> = Vec::new();
    let encoder = image::codecs::png::PngEncoder::new(&mut out);
    match image::ImageEncoder::write_image(
        encoder,
        pixels.as_slice(),
        width,
        height,
        image::ExtendedColorType::Rgba8,
    ) {
        Ok(()) => Ok(out),
        Err(_) => Err(()),
    }
}

} // verus!
