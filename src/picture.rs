//! Decoded images as plain RGBA buffers, and the codec calls that decode
//! and resample them.

use vstd::prelude::*;

use crate::error::ImageDataErrors;
use crate::format::{ImageFormat, extension_of, is_format_extension};

verus! {

/// The codec's error, as the decoding wrapper hands it back.
#[verifier::external_type_specification]
#[verifier::external_body]
pub struct ExImageError(image::ImageError);

/// What the codec decodes `bytes` to, read in the format that `extension`
/// names, as width, height and 8-bit RGBA bytes; `None` where it cannot
/// decode them.
pub uninterp spec fn decoded_rgba(bytes: Seq<u8>, extension: Seq<char>) -> Option<
    (u32, u32, Seq<u8>),
>;

/// The RGBA bytes of a `width` by `height` image resampled with a triangle
/// filter to `nwidth` by `nheight`.
pub uninterp spec fn triangle_resized(
    rgba: Seq<u8>,
    width: u32,
    height: u32,
    nwidth: u32,
    nheight: u32,
) -> Seq<u8>;

/// Number of bytes that an RGBA image of the given size occupies.
pub open spec fn rgba_len(width: u32, height: u32) -> int {
    width as int * height as int * 4
}

/// A decoded image: its size and its pixels as 8-bit RGBA bytes, row by row.
#[derive(Debug)]
pub struct Picture {
    pub width: u32,
    pub height: u32,
    pub rgba: Vec<u8>,
}

impl Picture {
    /// The buffer holds exactly four bytes for each pixel.
    pub open spec fn wf(&self) -> bool {
        self.rgba@.len() == rgba_len(self.width, self.height)
    }

    pub open spec fn dims(&self) -> (u32, u32) {
        (self.width, self.height)
    }

    /// Wraps a buffer as a picture, or gives `None` where its length is not
    /// four bytes for each pixel.
    pub fn from_rgba(width: u32, height: u32, rgba: Vec<u8>) -> (r: Option<Picture>)
        ensures
            r is Some <==> rgba@.len() == rgba_len(width, height),
            r matches Some(p) ==> p.width == width && p.height == height && p.rgba@ == rgba@
                && p.wf(),
    {
        assert(width as int * height as int <= 0xffff_ffff_ffff_ffff) by (nonlinear_arith)
            requires
                width <= 0xffff_ffff,
                height <= 0xffff_ffff,
        ;
        let expected: u128 = width as u128 * height as u128 * 4;
        if rgba.len() as u128 == expected {
            Some(Picture { width, height, rgba })
        } else {
            None
        }
    }

    /// Width and height, in pixels.
    pub fn dimensions(&self) -> (r: (u32, u32))
        ensures
            r == self.dims(),
    {
        (self.width, self.height)
    }
}

/// Relies on `image::ImageFormat::from_extension`, which maps every
/// extension that `extension_of` gives to its format, on
/// `image::load_from_memory_with_format`, which decodes the bytes in that
/// format, and on `DynamicImage::to_rgba8`, which converts the result to a
/// fresh buffer of four bytes per pixel. The JPEG decoder is built with its
/// `platform_independent` feature, so that its output does not depend on the
/// CPU it runs on.
#[verifier::external_body]
fn decode_rgba(bytes: &Vec<u8>, extension: &str) -> (r: Result<
    (u32, u32, Vec<u8>),
    image::ImageError,
>)
    requires
        is_format_extension(extension@),
    ensures
        match r {
            Ok(t) => decoded_rgba(bytes@, extension@) == Some((t.0, t.1, t.2@))
                && t.2@.len() == rgba_len(t.0, t.1),
            Err(_) => decoded_rgba(bytes@, extension@) is None,
        },
{
    let format = image::ImageFormat::from_extension(extension).unwrap();
    match image::load_from_memory_with_format(bytes, format) {
        Ok(img) => {
            let rgba = img.to_rgba8();
            Ok((rgba.width(), rgba.height(), rgba.into_vec()))
        },
        Err(e) => Err(e),
    }
}

/// Decodes an image encoded in `format` into a picture.
pub fn decode(bytes: &Vec<u8>, format: ImageFormat) -> (r: Result<Picture, ImageDataErrors>)
    ensures
        match r {
            Ok(p) => decoded_rgba(bytes@, extension_of(format)) == Some(
                (p.width, p.height, p.rgba@),
            ) && p.wf(),
            Err(e) => e == ImageDataErrors::DecodeFailed && decoded_rgba(
                bytes@,
                extension_of(format),
            ) is None,
        },
{
    let extension = format.extension();
    match decode_rgba(bytes, extension) {
        Ok((width, height, rgba)) => Ok(Picture { width, height, rgba }),
        Err(_) => Err(ImageDataErrors::DecodeFailed),
    }
}

/// Decoding is a function of the bytes and the format alone: two pictures
/// decoded from the same bytes in the same format have the same width,
/// height and pixels.
pub proof fn lemma_decode_idempotent(
    bytes: Seq<u8>,
    format: ImageFormat,
    first: Picture,
    second: Picture,
)
    requires
        decoded_rgba(bytes, extension_of(format)) == Some(
            (first.width, first.height, first.rgba@),
        ),
        decoded_rgba(bytes, extension_of(format)) == Some(
            (second.width, second.height, second.rgba@),
        ),
    ensures
        first.width == second.width,
        first.height == second.height,
        first.rgba@ == second.rgba@,
{
}

/// A picture can be resampled to `width` by `height`: the codec's
/// intermediate buffer, of the source's width and the new height, fits in
/// memory.
pub open spec fn resamplable(p: Picture, width: u32, height: u32) -> bool {
    p.width as int * height as int * 4 <= usize::MAX
}

/// Relies on `image::imageops::resize` with `FilterType::Triangle`: it
/// returns a buffer of exactly `nwidth` by `nheight` pixels, and panics only
/// where a buffer's length overflows `usize`. A source without pixels gives
/// an empty sample range, not a panic.
#[verifier::external_body]
fn resize_triangle(
    width: u32,
    height: u32,
    rgba: &Vec<u8>,
    nwidth: u32,
    nheight: u32,
) -> (r: Vec<u8>)
    requires
        rgba@.len() == rgba_len(width, height),
        width as int * nheight as int * 4 <= usize::MAX,
        rgba_len(nwidth, nheight) <= usize::MAX,
    ensures
        r@ == triangle_resized(rgba@, width, height, nwidth, nheight),
        r@.len() == rgba_len(nwidth, nheight),
{
    let source = image::RgbaImage::from_raw(width, height, rgba.clone()).unwrap();
    let filter = image::imageops::FilterType::Triangle;
    image::imageops::resize(&source, nwidth, nheight, filter).into_vec()
}

/// Resamples a picture to exactly `width` by `height` pixels with a
/// triangle filter.
pub fn resize_exact(p: &Picture, width: u32, height: u32) -> (r: Picture)
    requires
        p.wf(),
        resamplable(*p, width, height),
        rgba_len(width, height) <= usize::MAX,
    ensures
        r.width == width,
        r.height == height,
        r.rgba@ == triangle_resized(p.rgba@, p.width, p.height, width, height),
        r.wf(),
{
    let rgba = resize_triangle(p.width, p.height, &p.rgba, width, height);
    Picture { width, height, rgba }
}

} // verus!
