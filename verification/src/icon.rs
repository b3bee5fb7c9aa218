//! Decoding the tray icon: a PNG image becomes an RGBA pixel buffer of four
//! bytes per pixel.
use vstd::prelude::*;

verus! {

/// The width and height that the header of `png` gives, or `None` when
/// `read_info` fails: a bad signature or header, or a bad chunk before the
/// image data.
pub uninterp spec fn png_header_size(png: Seq<u8>) -> Option<(u32, u32)>;

/// Decoding the first frame of `png` into a buffer that holds `buffer`:
/// whether it succeeded, and what the buffer holds afterwards.
pub uninterp spec fn png_first_frame(png: Seq<u8>, buffer: Seq<u8>) -> (bool, Seq<u8>);

/// Starts a `png::Decoder` on `png` and calls `read_info`, then reads
/// `info().width` and `info().height`. Trusted: the result is the size named
/// by `png_header_size`, `None` exactly when `read_info` fails.
#[verifier::external_body]
fn png_read_size(png: &[u8]) -> (size: Option<(u32, u32)>)
    ensures
        size == png_header_size(png@),
{
    match png::Decoder::new(std::io::Cursor::new(png)).read_info() {
        Ok(reader) => Some((reader.info().width, reader.info().height)),
        Err(_) => None,
    }
}

/// Starts a `png::Decoder` on `png`, calls `read_info` and then
/// `Reader::next_frame` on the whole of `buffer`. Trusted: success and the
/// buffer's new contents are those named by `png_first_frame`; the buffer is
/// a slice to the decoder, so its length does not change.
#[verifier::external_body]
fn png_read_first_frame(png: &[u8], buffer: &mut Vec<u8>) -> (decoded: bool)
    ensures
        (decoded, final(buffer)@) == png_first_frame(png@, old(buffer)@),
        final(buffer)@.len() == old(buffer)@.len(),
{
    match png::Decoder::new(std::io::Cursor::new(png)).read_info() {
        Ok(mut reader) => reader.next_frame(buffer.as_mut_slice()).is_ok(),
        Err(_) => false,
    }
}

/// The bytes of an RGBA image of that size.
pub open spec fn rgba_len(width: u32, height: u32) -> int {
    width * height * 4
}

/// A zeroed buffer of `n` bytes.
pub open spec fn zeroed(n: int) -> Seq<u8> {
    Seq::new(n as nat, |i: int| 0u8)
}

/// An image of `width` by `height` pixels and a buffer of four bytes per
/// pixel. What the bytes hold is said by the function that made it.
pub struct IconImage {
    pub rgba: Vec<u8>,
    pub width: u32,
    pub height: u32,
}

/// The length of the RGBA buffer for an image of that size, or `None` when
/// it does not fit in `usize`.
pub fn rgba_buffer_len(width: u32, height: u32) -> (len: Option<usize>)
    ensures
        match len {
            Some(n) => n == rgba_len(width, height),
            None => rgba_len(width, height) > usize::MAX,
        },
{
    let w: usize = width as usize;
    let h: usize = height as usize;
    match w.checked_mul(h) {
        Some(pixels) => {
            let four: usize = 4;
            match pixels.checked_mul(four) {
                Some(n) => Some(n),
                None => None,
            }
        },
        None => {
            proof {
                assert(w * h <= w * h * 4) by (nonlinear_arith);
            }
            None
        },
    }
}

/// Whether decoding the icon `png` succeeds, and the image it gives.
pub open spec fn decoded_icon(png: Seq<u8>) -> Option<(Seq<u8>, u32, u32)> {
    match png_header_size(png) {
        None => None,
        Some((w, h)) => if rgba_len(w, h) > usize::MAX {
            None
        } else {
            let (ok, pixels) = png_first_frame(png, zeroed(rgba_len(w, h)));
            if ok {
                Some((pixels, w, h))
            } else {
                None
            }
        },
    }
}

/// Decodes the first frame of `png` into a zeroed buffer of four bytes per
/// pixel of the header's size. The decoded samples come first, in the PNG's
/// own colour layout (RGBA for an 8-bit RGBA image); the rest stays zero.
pub fn decode_icon(png: &[u8]) -> (icon: Option<IconImage>)
    ensures
        match icon {
            Some(image) => decoded_icon(png@) == Some((image.rgba@, image.width, image.height))
                && image.rgba@.len() == rgba_len(image.width, image.height),
            None => decoded_icon(png@) is None,
        },
{
    let size: (u32, u32) = match png_read_size(png) {
        Some(size) => size,
        None => return None,
    };
    let width: u32 = size.0;
    let height: u32 = size.1;
    let len: usize = match rgba_buffer_len(width, height) {
        Some(n) => n,
        None => return None,
    };
    let mut rgba: Vec<u8> = vec![0u8; len];
    assert(rgba@ =~= zeroed(rgba_len(width, height)));
    if png_read_first_frame(png, &mut rgba) {
        Some(IconImage { rgba, width, height })
    } else {
        None
    }
}

/// The RGBA8 pixels, width and height of the PNG image that `bytes`
/// encode, as the `image` crate decodes them, or `None` when it cannot.
pub uninterp spec fn image_rgba8(bytes: Seq<u8>) -> Option<(Seq<u8>, u32, u32)>;

/// Calls `image::load_from_memory_with_format` with `ImageFormat::Png`, then
/// `DynamicImage::to_rgba8`, `ImageBuffer::dimensions` and
/// `ImageBuffer::into_raw`. With the format fixed the built-in PNG decoder
/// is used and no decoding hook is consulted. Trusted: the result is the
/// image named by `image_rgba8`, `None` exactly when loading fails, and the
/// buffer holds four bytes per pixel (the decoder fills a buffer of exactly
/// the image's size, and a conversion allocates one of that size).
#[verifier::external_body]
fn image_load_rgba8(bytes: &[u8]) -> (image: Option<IconImage>)
    ensures
        match image {
            Some(i) => image_rgba8(bytes@) == Some((i.rgba@, i.width, i.height))
                && i.rgba@.len() == rgba_len(i.width, i.height),
            None => image_rgba8(bytes@) is None,
        },
{
    match image::load_from_memory_with_format(bytes, image::ImageFormat::Png) {
        Ok(loaded) => {
            let rgba = loaded.to_rgba8();
            let size: (u32, u32) = rgba.dimensions();
            Some(IconImage { rgba: rgba.into_raw(), width: size.0, height: size.1 })
        },
        Err(_) => None,
    }
}

/// Decodes the window icon, a PNG image, converted to RGBA8: four bytes per
/// pixel.
pub fn decode_window_icon(bytes: &[u8]) -> (icon: Option<IconImage>)
    ensures
        match icon {
            Some(i) => image_rgba8(bytes@) == Some((i.rgba@, i.width, i.height))
                && i.rgba@.len() == rgba_len(i.width, i.height),
            None => image_rgba8(bytes@) is None,
        },
{
    image_load_rgba8(bytes)
}

} // verus!
