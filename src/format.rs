//! Image encodings.

use vstd::prelude::*;

verus! {

/// The encoding an input image was read from, and the one its output is
/// written in.
#[derive(Clone, Copy, Debug, PartialEq, Eq, Structural)]
pub enum ImageFormat {
    Png,
    Jpeg,
    Gif,
    WebP,
    Pnm,
    Tiff,
    Tga,
    Dds,
    Bmp,
    Ico,
    Hdr,
    OpenExr,
    Farbfeld,
    Avif,
    Qoi,
}

/// The file extension that names each format: the one the codec maps back
/// to it.
pub open spec fn extension_of(format: ImageFormat) -> Seq<char> {
    match format {
        ImageFormat::Png => "png"@,
        ImageFormat::Jpeg => "jpg"@,
        ImageFormat::Gif => "gif"@,
        ImageFormat::WebP => "webp"@,
        ImageFormat::Pnm => "ppm"@,
        ImageFormat::Tiff => "tiff"@,
        ImageFormat::Tga => "tga"@,
        ImageFormat::Dds => "dds"@,
        ImageFormat::Bmp => "bmp"@,
        ImageFormat::Ico => "ico"@,
        ImageFormat::Hdr => "hdr"@,
        ImageFormat::OpenExr => "exr"@,
        ImageFormat::Farbfeld => "ff"@,
        ImageFormat::Avif => "avif"@,
        ImageFormat::Qoi => "qoi"@,
    }
}

/// `ext` is the extension of some format.
pub open spec fn is_format_extension(ext: Seq<char>) -> bool {
    exists|format: ImageFormat| extension_of(format) == ext
}

impl ImageFormat {
    /// The file extension that names this format.
    pub fn extension(&self) -> (r: &'static str)
        ensures
            r@ == extension_of(*self),
    {
        match self {
            ImageFormat::Png => "png",
            ImageFormat::Jpeg => "jpg",
            ImageFormat::Gif => "gif",
            ImageFormat::WebP => "webp",
            ImageFormat::Pnm => "ppm",
            ImageFormat::Tiff => "tiff",
            ImageFormat::Tga => "tga",
            ImageFormat::Dds => "dds",
            ImageFormat::Bmp => "bmp",
            ImageFormat::Ico => "ico",
            ImageFormat::Hdr => "hdr",
            ImageFormat::OpenExr => "exr",
            ImageFormat::Farbfeld => "ff",
            ImageFormat::Avif => "avif",
            ImageFormat::Qoi => "qoi",
        }
    }
}

} // verus!
