//! The fixed catalog of content representations and their negotiation.

use vstd::prelude::*;
use crate::text::{contains_text, texts};

verus! {
/// A content representation from the negotiation catalog.
#[derive(Debug, Clone, Copy, PartialEq, Eq, Structural)]
pub enum MimeType {
    /// image/gif
    ImageGif,
    /// image/png
    ImagePng,
    /// image/bmp
    ImageBmp,
    /// image/ico
    ImageIco,
    /// image/jpeg
    ImageJpeg,
    /// image/tiff
    ImageTiff,
    /// image/webp
    ImageWebp,
    /// text/html
    TexteHtml,
    /// text/uri-list
    TextUriList,
    /// text/plain;charset=utf-8
    TextPlainUtf8,
    /// UTF8_STRING
    Utf8String,
    /// text/plain
    TextPlain,
}

/// The first target, in the order of `targets`, whose name occurs among
/// `offers`; nothing where no target does.
pub open spec fn first_offered(targets: Seq<MimeType>, offers: Seq<Seq<char>>) -> Option<MimeType>
    decreases targets.len(),
{
    if targets.len() == 0 {
        None
    } else if offers.contains(targets[0].name()) {
        Some(targets[0])
    } else {
        first_offered(targets.drop_first(), offers)
    }
}

impl MimeType {
    /// The identifier under which clipboard owners publish this representation.
    pub open spec fn name(self) -> Seq<char> {
        match self {
            MimeType::ImageGif => "image/gif"@,
            MimeType::ImagePng => "image/png"@,
            MimeType::ImageBmp => "image/bmp"@,
            MimeType::ImageIco => "image/ico"@,
            MimeType::ImageJpeg => "image/jpeg"@,
            MimeType::ImageTiff => "image/tiff"@,
            MimeType::ImageWebp => "image/webp"@,
            MimeType::TexteHtml => "text/html"@,
            MimeType::TextUriList => "text/uri-list"@,
            MimeType::TextPlainUtf8 => "text/plain;charset=utf-8"@,
            MimeType::Utf8String => "UTF8_STRING"@,
            MimeType::TextPlain => "text/plain"@,
        }
    }

    /// The targets asked for when the caller names none, most wanted first.
    pub open spec fn default_order() -> Seq<MimeType> {
        seq![
            MimeType::ImageGif,
            MimeType::ImagePng,
            MimeType::ImageJpeg,
            MimeType::ImageWebp,
            MimeType::ImageBmp,
            MimeType::ImageTiff,
            MimeType::ImageIco,
            MimeType::TextUriList,
            MimeType::TextPlainUtf8,
            MimeType::Utf8String,
            MimeType::TextPlain,
        ]
    }

    /// The default targets, most wanted first.
    pub fn default_targets() -> (targets: Vec<MimeType>)
        ensures
            targets@ == Self::default_order(),
    {
        let targets = vec![
            MimeType::ImageGif,
            MimeType::ImagePng,
            MimeType::ImageJpeg,
            MimeType::ImageWebp,
            MimeType::ImageBmp,
            MimeType::ImageTiff,
            MimeType::ImageIco,
            MimeType::TextUriList,
            MimeType::TextPlainUtf8,
            MimeType::Utf8String,
            MimeType::TextPlain,
        ];
        targets
    }

    pub fn as_str(&self) -> (name: &'static str)
        ensures
            name@ == self.name(),
    {
        match self {
            Self::ImageGif => "image/gif",
            Self::ImagePng => "image/png",
            Self::ImageBmp => "image/bmp",
            Self::ImageIco => "image/ico",
            Self::ImageJpeg => "image/jpeg",
            Self::ImageTiff => "image/tiff",
            Self::ImageWebp => "image/webp",
            Self::TexteHtml => "text/html",
            Self::TextUriList => "text/uri-list",
            Self::TextPlainUtf8 => "text/plain;charset=utf-8",
            Self::Utf8String => "UTF8_STRING",
            Self::TextPlain => "text/plain",
        }
    }

    /// Picks the representation to fetch: the first of `targets`, in the
    /// caller's order of preference, that the clipboard owner offers. The order
    /// of `offers` plays no part.
    pub fn select(targets: &[MimeType], offers: &[String]) -> (chosen: Option<MimeType>)
        ensures
            chosen == first_offered(targets@, texts(offers@)),
    {
        let mut t: usize = 0;
        assert(targets@.skip(0) =~= targets@);
        while t < targets.len()
            invariant
                t <= targets@.len(),
                first_offered(targets@, texts(offers@)) == first_offered(
                    targets@.skip(t as int),
                    texts(offers@),
                ),
            decreases targets@.len() - t,
        {
            if contains_text(offers, targets[t].as_str()) {
                return Some(targets[t]);
            }
            assert(targets@.skip(t as int).drop_first() =~= targets@.skip(t + 1));
            t += 1;
        }
        None
    }

    /// Whether the representation is one of the plain-text encodings.
    pub fn is_string(&self) -> (plain: bool)
        ensures
            plain == (*self == MimeType::TextPlainUtf8 || *self == MimeType::Utf8String || *self
                == MimeType::TextPlain),
    {
        matches!(self, Self::TextPlainUtf8 | Self::Utf8String | Self::TextPlain)
    }
}
} // verus!
