//! Container formats as far as the pipeline tells them apart.

use vstd::prelude::*;
use vstd::string::is_ascii;
use vstd::string::is_ascii_spec_bytes;
use vstd::string::StringSliceAdditionalSpecFns;
use vstd::utf8::encode_utf8;
use vstd::utf8::valid_utf8;

verus! {

/// `image::ImageFormat`, carried as a value that is never looked into.
#[verifier::external_type_specification]
#[verifier::external_body]
pub struct ExImageFormat(image::ImageFormat);

/// A format that the pipeline does not tell apart from others, as the
/// codec library names it. Only this library makes such a value, and
/// never of a format that `Format` has a variant for.
#[derive(Clone, Copy)]
pub struct OtherFormat {
    pub(crate) named: image::ImageFormat,
}

/// A container format. The three that can hold an animation are told
/// apart, and so is AVIF, whose encoder works in as many threads as the
/// machine offers and writes what depends on them; every other format is
/// carried as the codec library names it.
#[derive(Clone, Copy)]
pub enum Format {
    WebP,
    Gif,
    Png,
    Avif,
    Other(OtherFormat),
}

/// The format that `image::ImageFormat::from_extension` finds for a file
/// extension, given as the bytes of its text, if any.
pub uninterp spec fn extension_format(extension: Seq<u8>) -> Option<Format>;

/// The media type that `image::ImageFormat::to_mime_type` gives.
pub uninterp spec fn format_mime(format: Format) -> Seq<char>;

/// The first of the extensions that `image::ImageFormat::extensions_str`
/// lists.
pub uninterp spec fn format_extension(format: Format) -> Seq<char>;

/// Calls `std::str::from_utf8`, which hands the bytes back as text where
/// they are valid UTF-8, and refuses them where they are not.
#[verifier::external_body]
pub(crate) fn text_of<'a>(bytes: &'a [u8]) -> (r: Option<&'a str>)
    ensures
        r is Some <==> valid_utf8(bytes@),
        r matches Some(text) ==> text.spec_bytes() == bytes@,
{
    std::str::from_utf8(bytes).ok()
}

/// Calls `image::ImageFormat::from_extension`, which compares the lowered
/// extension with a fixed table. The contract names the outcome and
/// repeats the table's entries for the formats that can hold an
/// animation.
#[verifier::external_body]
pub(crate) fn from_extension(extension: &str) -> (r: Option<Format>)
    ensures
        r == extension_format(extension.spec_bytes()),
        extension@ == "webp"@ ==> r == Some(Format::WebP),
        extension@ == "gif"@ ==> r == Some(Format::Gif),
        extension@ == "png"@ || extension@ == "apng"@ ==> r == Some(Format::Png),
{
    match image::ImageFormat::from_extension(extension) {
        Some(image::ImageFormat::WebP) => Some(Format::WebP),
        Some(image::ImageFormat::Gif) => Some(Format::Gif),
        Some(image::ImageFormat::Png) => Some(Format::Png),
        Some(image::ImageFormat::Avif) => Some(Format::Avif),
        Some(named) => Some(Format::Other(OtherFormat { named })),
        None => None,
    }
}

/// Calls `image::ImageFormat::to_mime_type`, a fixed table. The contract
/// names the outcome and repeats the table's entries for the formats that
/// can hold an animation.
#[verifier::external_body]
pub(crate) fn mime_type(format: Format) -> (r: String)
    ensures
        r@ == format_mime(format),
        format is WebP ==> r@ == "image/webp"@,
        format is Gif ==> r@ == "image/gif"@,
        format is Png ==> r@ == "image/png"@,
{
    match format {
        Format::WebP => image::ImageFormat::WebP,
        Format::Gif => image::ImageFormat::Gif,
        Format::Png => image::ImageFormat::Png,
        Format::Avif => image::ImageFormat::Avif,
        Format::Other(other) => other.named,
    }.to_mime_type().to_string()
}

/// Calls `image::ImageFormat::extensions_str`, a fixed table of lists none
/// of which is empty, and takes the first entry. The contract names it
/// and repeats the table's first entries for the formats that can hold an
/// animation.
#[verifier::external_body]
pub(crate) fn preferred_extension(format: Format) -> (r: String)
    ensures
        r@ == format_extension(format),
        format is WebP ==> r@ == "webp"@,
        format is Gif ==> r@ == "gif"@,
        format is Png ==> r@ == "png"@,
{
    match format {
        Format::WebP => image::ImageFormat::WebP,
        Format::Gif => image::ImageFormat::Gif,
        Format::Png => image::ImageFormat::Png,
        Format::Avif => image::ImageFormat::Avif,
        Format::Other(other) => other.named,
    }.extensions_str()[0].to_string()
}

/// The bytes `webp`, the extension of a WebP file.
pub open spec fn webp_extension() -> Seq<u8> {
    seq![0x77u8, 0x65u8, 0x62u8, 0x70u8]
}

/// The text `webp` is the bytes `webp`.
pub proof fn lemma_webp_extension()
    ensures
        encode_utf8("webp"@) == webp_extension(),
{
    reveal_strlit("webp");
    let s = "webp";
    assert(is_ascii(s));
    is_ascii_spec_bytes(s);
    assert(s.spec_bytes() =~= webp_extension());
}

impl Format {
    /// The media type of the format.
    pub fn media_type(&self) -> (r: String)
        ensures
            r@ == format_mime(*self),
            *self is WebP ==> r@ == "image/webp"@,
            *self is Gif ==> r@ == "image/gif"@,
            *self is Png ==> r@ == "image/png"@,
    {
        mime_type(*self)
    }
}

} // verus!
