//! Decoding of the mode art shown on the result screen: a size-capped,
//! simple lossy WebP file decoded to RGBA within dimension and memory
//! limits.
use vstd::prelude::*;

verus! {

/// Largest encoded art file accepted (512 KiB).
pub const MODE_ART_MAX_ENCODED_BYTES: usize = 524288;
/// Largest width or height accepted.
pub const MODE_ART_MAX_DIMENSION: u32 = 1024;
/// Most memory the decoder may allocate (8 MiB).
pub const MODE_ART_MAX_DECODE_BYTES: u64 = 8388608;

/// Decoded mode art: RGBA8 pixels, row by row.
#[derive(Clone, Debug)]
pub struct DecodedModeArt {
    pub width: u16,
    pub height: u16,
    pub rgba: Vec<u8>,
}

/// The RGBA8 image (width, height, pixels) that the `image` crate decodes
/// from WebP `bytes` when width and height are limited to `max_dimension`
/// and allocation to `max_alloc` bytes; `None` when decoding fails.
pub uninterp spec fn webp_rgba8(bytes: Seq<u8>, max_dimension: u32, max_alloc: u64) -> Option<(u32, u32, Seq<u8>)>;

/// A 14-bit frame dimension of a lossy (VP8) bitstream, stored little-endian
/// in two bytes whose top two bits hold the scale.
pub open spec fn vp8_dimension(lo: u8, hi: u8) -> int {
    (hi % 64) * 256 + lo
}

/// Whether `b` is a simple lossy WebP file within `max_dimension`: after the
/// 12-byte RIFF/WEBP header its first chunk is a single lossy image (`VP8 `),
/// and the frame width and height in its header (bytes 26 to 29) are at most
/// `max_dimension`. Lossless (`VP8L`) and extended (`VP8X`: alpha,
/// animation, metadata) files are not of this kind.
pub open spec fn small_lossy_webp(b: Seq<u8>, max_dimension: int) -> bool {
    &&& b.len() >= 30
    &&& b[12] == 0x56 && b[13] == 0x50 && b[14] == 0x38 && b[15] == 0x20
    &&& vp8_dimension(b[26], b[27]) <= max_dimension
    &&& vp8_dimension(b[28], b[29]) <= max_dimension
}

/// Whether a file is a simple lossy WebP file within `max_dimension`.
pub fn is_small_lossy_webp(b: &[u8], max_dimension: u32) -> (r: bool)
    ensures
        r == small_lossy_webp(b@, max_dimension as int),
{
    if b.len() < 30 {
        return false;
    }
    if !(b[12] == 0x56 && b[13] == 0x50 && b[14] == 0x38 && b[15] == 0x20) {
        return false;
    }
    let width: u32 = (b[27] % 64) as u32 * 256 + b[26] as u32;
    let height: u32 = (b[29] % 64) as u32 * 256 + b[28] as u32;
    width <= max_dimension && height <= max_dimension
}

/// Decodes `bytes` as WebP with `image::io::Reader` under the given limits
/// and converts the image to RGBA8. Trusted: the result is whatever the
/// `image` crate decodes, named `webp_rgba8` of the same arguments; nothing
/// is claimed about its contents. The crate decodes the whole file while
/// opening it, before the limits are applied, so only simple lossy files
/// whose header is within `max_dimension` are handed over: on extended files
/// the decoder can panic (a first animation frame smaller than the canvas, a
/// frame or canvas size that disagrees with the bitstream), and its lossless
/// decoder can panic on a crafted bitstream (a distance code beyond its
/// alphabet shifts past the word size) or overflow 16-bit index arithmetic on
/// wide images, while its lossy decoder reads through a bounded arithmetic
/// decoder into buffers sized from the checked header.
#[verifier::external_body]
fn decode_webp_rgba8(bytes: &[u8], max_dimension: u32, max_alloc: u64) -> (r: Option<(u32, u32, Vec<u8>)>)
    requires
        small_lossy_webp(bytes@, max_dimension as int),
    ensures
        match r {
            Some((w, h, px)) => webp_rgba8(bytes@, max_dimension, max_alloc) == Some((w, h, px@)),
            None => webp_rgba8(bytes@, max_dimension, max_alloc) is None,
        },
{
    let mut limits = image::io::Limits::default();
    limits.max_image_width = Some(max_dimension);
    limits.max_image_height = Some(max_dimension);
    limits.max_alloc = Some(max_alloc);
    let mut reader = image::io::Reader::with_format(std::io::Cursor::new(bytes), image::ImageFormat::WebP);
    reader.limits(limits);
    let decoded = reader.decode().ok()?.to_rgba8();
    Some((decoded.width(), decoded.height(), decoded.into_raw()))
}

/// Mode art from a decoded image: kept only when both dimensions fit in 16
/// bits.
pub open spec fn art_from_image(width: u32, height: u32, rgba: Seq<u8>) -> Option<(u16, u16, Seq<u8>)> {
    if width <= u16::MAX && height <= u16::MAX {
        Some((width as u16, height as u16, rgba))
    } else {
        None
    }
}

/// Whether `r` holds the art `expected` describes.
pub open spec fn holds_art(r: Option<DecodedModeArt>, expected: Option<(u16, u16, Seq<u8>)>) -> bool {
    match (r, expected) {
        (Some(a), Some((w, h, px))) => a.width == w && a.height == h && a.rgba@ == px,
        (None, None) => true,
        _ => false,
    }
}

/// Mode art from a decoded image.
pub fn mode_art_from_image(width: u32, height: u32, rgba: Vec<u8>) -> (r: Option<DecodedModeArt>)
    ensures
        holds_art(r, art_from_image(width, height, rgba@)),
{
    if width > 0xffff || height > 0xffff {
        return None;
    }
    Some(DecodedModeArt { width: width as u16, height: height as u16, rgba })
}

/// The art decoded from an encoded file: empty and oversized files, and
/// files that are not simple lossy WebP within the dimension limit, are
/// refused before decoding.
pub open spec fn decoded_art(bytes: Seq<u8>) -> Option<(u16, u16, Seq<u8>)> {
    if bytes.len() == 0 || bytes.len() > MODE_ART_MAX_ENCODED_BYTES
        || !small_lossy_webp(bytes, MODE_ART_MAX_DIMENSION as int) {
        None
    } else {
        match webp_rgba8(bytes, MODE_ART_MAX_DIMENSION, MODE_ART_MAX_DECODE_BYTES) {
            Some((w, h, px)) => art_from_image(w, h, px),
            None => None,
        }
    }
}

/// Decodes a mode art file. Lossless and extended WebP files are refused
/// (`None`) rather than handed to a decoder that can panic on them.
pub fn decode_mode_art(bytes: &[u8]) -> (r: Option<DecodedModeArt>)
    ensures
        holds_art(r, decoded_art(bytes@)),
{
    if bytes.len() == 0 || bytes.len() > MODE_ART_MAX_ENCODED_BYTES
        || !is_small_lossy_webp(bytes, MODE_ART_MAX_DIMENSION) {
        return None;
    }
    match decode_webp_rgba8(bytes, MODE_ART_MAX_DIMENSION, MODE_ART_MAX_DECODE_BYTES) {
        Some((width, height, rgba)) => mode_art_from_image(width, height, rgba),
        None => None,
    }
}

} // verus!
