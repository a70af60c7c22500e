//! Application-level clipboard values and the sniffing of image payloads.

use vstd::prelude::*;
use vstd::slice::slice_to_vec;

verus! {
/// One clipboard value, as text or as an encoded image.
#[derive(Debug, Clone, PartialEq, Eq)]
pub enum ClipboardData {
    Text(Text),
    Image(Image),
}

/// Text, either plain or marked up.
#[derive(Debug, Clone, PartialEq, Eq)]
pub enum Text {
    Plain(String),
    HTML(String),
}

/// An encoded image, tagged with its container format.
#[derive(Debug, Clone, PartialEq, Eq)]
pub enum Image {
    GIF(Vec<u8>),
    PNG(Vec<u8>),
    JPEG(Vec<u8>),
    BMP(Vec<u8>),
    WEBP(Vec<u8>),
    ICO(Vec<u8>),
    TIFF(Vec<u8>),
}

/// The container formats an [`Image`] can be tagged with.
#[derive(Debug, Clone, Copy, PartialEq, Eq, Structural)]
pub enum ImageFormat {
    Gif,
    Png,
    Jpeg,
    Bmp,
    Webp,
    Ico,
    Tiff,
}

impl Text {
    /// The characters of the text, whichever kind it is.
    pub open spec fn content(&self) -> Seq<char> {
        match self {
            Text::Plain(s) => s@,
            Text::HTML(s) => s@,
        }
    }

    /// The text as an owned string, without its kind.
    pub fn to_string(&self) -> (s: String)
        ensures
            s@ == self.content(),
    {
        match self {
            Text::Plain(s) => s.clone(),
            Text::HTML(s) => s.clone(),
        }
    }
}

impl Image {
    /// The container format of the image.
    pub open spec fn format(&self) -> ImageFormat {
        match self {
            Image::GIF(_) => ImageFormat::Gif,
            Image::PNG(_) => ImageFormat::Png,
            Image::JPEG(_) => ImageFormat::Jpeg,
            Image::BMP(_) => ImageFormat::Bmp,
            Image::WEBP(_) => ImageFormat::Webp,
            Image::ICO(_) => ImageFormat::Ico,
            Image::TIFF(_) => ImageFormat::Tiff,
        }
    }

    /// The encoded bytes of the image.
    pub open spec fn bytes(&self) -> Seq<u8> {
        match self {
            Image::GIF(b) => b@,
            Image::PNG(b) => b@,
            Image::JPEG(b) => b@,
            Image::BMP(b) => b@,
            Image::WEBP(b) => b@,
            Image::ICO(b) => b@,
            Image::TIFF(b) => b@,
        }
    }
}

/// `GIF89a`
pub open spec fn gif_signature() -> Seq<u8> {
    seq![0x47, 0x49, 0x46, 0x38, 0x39, 0x61]
}

/// `\x89PNG\r\n\x1a\n`
pub open spec fn png_signature() -> Seq<u8> {
    seq![0x89, 0x50, 0x4E, 0x47, 0x0D, 0x0A, 0x1A, 0x0A]
}

/// `\xFF\xD8\xFF`
pub open spec fn jpeg_signature() -> Seq<u8> {
    seq![0xFF, 0xD8, 0xFF]
}

/// `RIFF`, which opens a WEBP container.
pub open spec fn riff_signature() -> Seq<u8> {
    seq![0x52, 0x49, 0x46, 0x46]
}

/// `WEBP`, which follows the four length bytes of the RIFF header.
pub open spec fn webp_signature() -> Seq<u8> {
    seq![0x57, 0x45, 0x42, 0x50]
}

/// Whether `bytes` holds `signature` at `offset`.
pub open spec fn holds_at(bytes: Seq<u8>, offset: int, signature: Seq<u8>) -> bool {
    &&& offset + signature.len() <= bytes.len()
    &&& bytes.subrange(offset, offset + signature.len()) == signature
}

/// The image format that the leading bytes of a payload announce, if any.
pub open spec fn sniffed_format(bytes: Seq<u8>) -> Option<ImageFormat> {
    if holds_at(bytes, 0, gif_signature()) {
        Some(ImageFormat::Gif)
    } else if holds_at(bytes, 0, png_signature()) {
        Some(ImageFormat::Png)
    } else if holds_at(bytes, 0, jpeg_signature()) {
        Some(ImageFormat::Jpeg)
    } else if holds_at(bytes, 0, riff_signature()) && holds_at(bytes, 8, webp_signature()) {
        Some(ImageFormat::Webp)
    } else {
        None
    }
}

/// Classifies a payload by its magic bytes, whatever name it was published
/// under, and returns a copy of it tagged with the format found.
pub fn detect_image_type(data: &[u8]) -> (image: Option<Image>)
    ensures
        match sniffed_format(data@) {
            Some(format) => image matches Some(found) && found.format() == format
                && found.bytes() == data@,
            None => image is None,
        },
{
    let n = data.len();
    if n >= 6 && data[0] == 0x47 && data[1] == 0x49 && data[2] == 0x46 && data[3] == 0x38
        && data[4] == 0x39 && data[5] == 0x61 {
        assert(data@.subrange(0, 6) =~= gif_signature());
        return Some(Image::GIF(slice_to_vec(data)));
    }
    if n >= 8 && data[0] == 0x89 && data[1] == 0x50 && data[2] == 0x4E && data[3] == 0x47
        && data[4] == 0x0D && data[5] == 0x0A && data[6] == 0x1A && data[7] == 0x0A {
        assert(data@.subrange(0, 8) =~= png_signature());
        return Some(Image::PNG(slice_to_vec(data)));
    }
    if n >= 3 && data[0] == 0xFF && data[1] == 0xD8 && data[2] == 0xFF {
        assert(data@.subrange(0, 3) =~= jpeg_signature());
        return Some(Image::JPEG(slice_to_vec(data)));
    }
    if n >= 12 && data[0] == 0x52 && data[1] == 0x49 && data[2] == 0x46 && data[3] == 0x46
        && data[8] == 0x57 && data[9] == 0x45 && data[10] == 0x42 && data[11] == 0x50 {
        assert(data@.subrange(0, 4) =~= riff_signature());
        assert(data@.subrange(8, 12) =~= webp_signature());
        return Some(Image::WEBP(slice_to_vec(data)));
    }
    None
}
} // verus!
