//! Which uploaded images the board accepts: JPEG, PNG and WebP files that
//! also decode as the format their first bytes announce.
use vstd::prelude::*;

verus! {

/// The formats that the board tells apart; every other format is `Other`.
#[derive(Clone, Copy, Debug, PartialEq, Eq, Structural)]
pub enum ImageKind {
    Png,
    Jpeg,
    WebP,
    Other,
}

/// `b` starts with the eight-byte PNG signature.
pub open spec fn png_signature(b: Seq<u8>) -> bool {
    &&& b.len() >= 8
    &&& b[0] == 0x89u8 && b[1] == 0x50u8 && b[2] == 0x4eu8 && b[3] == 0x47u8
    &&& b[4] == 0x0du8 && b[5] == 0x0au8 && b[6] == 0x1au8 && b[7] == 0x0au8
}

/// `b` starts with the JPEG start-of-image marker `FF D8 FF`.
pub open spec fn jpeg_signature(b: Seq<u8>) -> bool {
    b.len() >= 3 && b[0] == 0xffu8 && b[1] == 0xd8u8 && b[2] == 0xffu8
}

/// `b` is a RIFF container of type `WEBP`: `RIFF`, four size bytes, `WEBP`.
pub open spec fn webp_signature(b: Seq<u8>) -> bool {
    &&& b.len() >= 12
    &&& b[0] == 0x52u8 && b[1] == 0x49u8 && b[2] == 0x46u8 && b[3] == 0x46u8
    &&& b[8] == 0x57u8 && b[9] == 0x45u8 && b[10] == 0x42u8 && b[11] == 0x50u8
}

/// The `image` crate decodes `bytes` without error as the given format.
pub uninterp spec fn image_decodes(bytes: Seq<u8>, kind: ImageKind) -> bool;

/// The media type of an accepted format.
pub open spec fn mime_of(kind: ImageKind) -> Seq<char> {
    match kind {
        ImageKind::Png => "image/png"@,
        ImageKind::Jpeg => "image/jpeg"@,
        ImageKind::WebP => "image/webp"@,
        ImageKind::Other => Seq::empty(),
    }
}

/// The view of an optional media type.
pub open spec fn mime_view(m: Option<&str>) -> Option<Seq<char>> {
    match m {
        Some(s) => Some(s@),
        None => None,
    }
}

/// The format that the first bytes announce, among those the board accepts.
pub open spec fn announced_kind(b: Seq<u8>) -> ImageKind {
    if png_signature(b) {
        ImageKind::Png
    } else if jpeg_signature(b) {
        ImageKind::Jpeg
    } else if webp_signature(b) {
        ImageKind::WebP
    } else {
        ImageKind::Other
    }
}

/// What the board accepts of an upload: the media type of the announced
/// format when the bytes also decode as that format, and nothing otherwise.
pub open spec fn detected_mime_of(b: Seq<u8>) -> Option<Seq<char>> {
    let kind = announced_kind(b);
    if kind != ImageKind::Other && image_decodes(b, kind) {
        Some(mime_of(kind))
    } else {
        None
    }
}

/// Guesses the format from the leading magic bytes with `image::guess_format`.
/// Trusted: the crate's signature table puts PNG, JPEG, the two GIF
/// signatures and then WebP first, so the result is PNG, JPEG or WebP exactly
/// when the bytes start with that format's signature; which other format, or
/// none, is reported otherwise is not stated.
#[verifier::external_body]
fn guess_image_kind(bytes: &[u8]) -> (kind: Option<ImageKind>)
    ensures
        (kind == Some(ImageKind::Png)) == png_signature(bytes@),
        (kind == Some(ImageKind::Jpeg)) == jpeg_signature(bytes@),
        (kind == Some(ImageKind::WebP)) == webp_signature(bytes@),
{
    match image::guess_format(bytes) {
        Ok(image::ImageFormat::Png) => Some(ImageKind::Png),
        Ok(image::ImageFormat::Jpeg) => Some(ImageKind::Jpeg),
        Ok(image::ImageFormat::WebP) => Some(ImageKind::WebP),
        Ok(_) => Some(ImageKind::Other),
        Err(_) => None,
    }
}

/// Decodes the whole image with `image::load_from_memory_with_format`.
/// Trusted: the result says whether the decoder of that format accepted the
/// bytes, and depends on the bytes and the format alone.
#[verifier::external_body]
fn decodes_as(bytes: &[u8], kind: ImageKind) -> (ok: bool)
    requires
        kind != ImageKind::Other,
    ensures
        ok == image_decodes(bytes@, kind),
{
    let format = match kind {
        ImageKind::Png => image::ImageFormat::Png,
        ImageKind::Jpeg => image::ImageFormat::Jpeg,
        _ => image::ImageFormat::WebP,
    };
    image::load_from_memory_with_format(bytes, format).is_ok()
}

/// The media type to record for a format that the bytes announced, given
/// whether the bytes decoded as that format.
pub fn mime_for(kind: ImageKind, decodes: bool) -> (mime: Option<&'static str>)
    ensures
        mime_view(mime) == (if kind != ImageKind::Other && decodes {
            Some(mime_of(kind))
        } else {
            None
        }),
{
    if !decodes {
        return None;
    }
    match kind {
        ImageKind::Png => Some("image/png"),
        ImageKind::Jpeg => Some("image/jpeg"),
        ImageKind::WebP => Some("image/webp"),
        ImageKind::Other => None,
    }
}

/// The media type of an uploaded image, when it is a JPEG, PNG or WebP file
/// that decodes as the format its first bytes announce.
pub fn detected_image_mime(bytes: &[u8]) -> (mime: Option<&'static str>)
    ensures
        mime_view(mime) == detected_mime_of(bytes@),
{
    let guess = guess_image_kind(bytes);
    let kind = match guess {
        Some(ImageKind::Png) => ImageKind::Png,
        Some(ImageKind::Jpeg) => ImageKind::Jpeg,
        Some(ImageKind::WebP) => ImageKind::WebP,
        _ => {
            return None;
        },
    };
    let ok = decodes_as(bytes, kind);
    mime_for(kind, ok)
}

/// Each of the three formats is accepted outright: bytes that begin with the
/// JPEG marker `FF D8 FF` and decode as JPEG are recorded as `image/jpeg`,
/// bytes that begin with the PNG signature and decode as PNG as `image/png`,
/// and a RIFF `WEBP` container that decodes as WebP as `image/webp`.
pub proof fn law_formats_accepted(b: Seq<u8>)
    ensures
        (b.len() >= 3 && b[0] == 0xffu8 && b[1] == 0xd8u8 && b[2] == 0xffu8 && image_decodes(
            b,
            ImageKind::Jpeg,
        )) ==> detected_mime_of(b) == Some("image/jpeg"@),
        (b.len() >= 8 && b[0] == 0x89u8 && b[1] == 0x50u8 && b[2] == 0x4eu8 && b[3] == 0x47u8
            && b[4] == 0x0du8 && b[5] == 0x0au8 && b[6] == 0x1au8 && b[7] == 0x0au8
            && image_decodes(b, ImageKind::Png)) ==> detected_mime_of(b) == Some("image/png"@),
        (b.len() >= 12 && b[0] == 0x52u8 && b[1] == 0x49u8 && b[2] == 0x46u8 && b[3] == 0x46u8
            && b[8] == 0x57u8 && b[9] == 0x45u8 && b[10] == 0x42u8 && b[11] == 0x50u8
            && image_decodes(b, ImageKind::WebP)) ==> detected_mime_of(b) == Some("image/webp"@),
{
}

/// An accepted upload always carries one of the three media types, and the
/// bytes decode as that format.
pub proof fn law_accepted_images(b: Seq<u8>)
    ensures
        detected_mime_of(b) is Some ==> {
            let kind = announced_kind(b);
            &&& kind != ImageKind::Other
            &&& image_decodes(b, kind)
            &&& detected_mime_of(b) == Some(mime_of(kind))
        },
        !png_signature(b) && !jpeg_signature(b) && !webp_signature(b) ==> detected_mime_of(b)
            is None,
{
}

} // verus!
