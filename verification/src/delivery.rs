//! What the delivery endpoint serves: which file extensions belong to each
//! media kind, and the content type announced for a file.

use vstd::prelude::*;
use crate::models::MediaType;
use crate::text::str_eq;

verus! {

/// The content type served for a file extension; anything unknown is
/// served as a plain octet stream.
pub open spec fn spec_content_type(ext: Seq<char>) -> Seq<char> {
    if ext == "aac"@ {
        "audio/aac"@
    } else if ext == "jpg"@ || ext == "jpeg"@ {
        "image/jpeg"@
    } else if ext == "mp3"@ {
        "audio/mpeg"@
    } else if ext == "mp4"@ {
        "video/mp4"@
    } else if ext == "oga"@ {
        "audio/ogg"@
    } else if ext == "ogv"@ {
        "video/ogg"@
    } else if ext == "opus"@ {
        "audio/opus"@
    } else if ext == "png"@ {
        "image/png"@
    } else if ext == "wav"@ {
        "audio/wave"@
    } else if ext == "weba"@ {
        "audio/webm"@
    } else if ext == "webm"@ {
        "video/webm"@
    } else if ext == "webp"@ {
        "image/webp"@
    } else {
        "application/octet-stream"@
    }
}

pub fn get_content_type(extension: &str) -> (r: String)
    ensures
        r@ == spec_content_type(extension@),
{
    if str_eq(extension, "aac") {
        "audio/aac".to_owned()
    } else if str_eq(extension, "jpg") || str_eq(extension, "jpeg") {
        "image/jpeg".to_owned()
    } else if str_eq(extension, "mp3") {
        "audio/mpeg".to_owned()
    } else if str_eq(extension, "mp4") {
        "video/mp4".to_owned()
    } else if str_eq(extension, "oga") {
        "audio/ogg".to_owned()
    } else if str_eq(extension, "ogv") {
        "video/ogg".to_owned()
    } else if str_eq(extension, "opus") {
        "audio/opus".to_owned()
    } else if str_eq(extension, "png") {
        "image/png".to_owned()
    } else if str_eq(extension, "wav") {
        "audio/wave".to_owned()
    } else if str_eq(extension, "weba") {
        "audio/webm".to_owned()
    } else if str_eq(extension, "webm") {
        "video/webm".to_owned()
    } else if str_eq(extension, "webp") {
        "image/webp".to_owned()
    } else {
        "application/octet-stream".to_owned()
    }
}

/// The extensions a video delivery picks up.
pub open spec fn spec_is_video_extension(ext: Seq<char>) -> bool {
    ext == "3gp"@ || ext == "flv"@ || ext == "mp4"@ || ext == "webm"@
}

pub fn is_video_extension(ext: &str) -> (r: bool)
    ensures
        r == spec_is_video_extension(ext@),
{
    str_eq(ext, "3gp") || str_eq(ext, "flv") || str_eq(ext, "mp4") || str_eq(ext, "webm")
}

/// The extensions an audio delivery picks up.
pub open spec fn spec_is_audio_extension(ext: Seq<char>) -> bool {
    ext == "aac"@ || ext == "flac"@ || ext == "mp3"@ || ext == "m4a"@ || ext == "opus"@ || ext
        == "vorbis"@ || ext == "ogg"@ || ext == "wav"@
}

pub fn is_audio_extension(ext: &str) -> (r: bool)
    ensures
        r == spec_is_audio_extension(ext@),
{
    str_eq(ext, "aac") || str_eq(ext, "flac") || str_eq(ext, "mp3") || str_eq(ext, "m4a") || str_eq(
        ext,
        "opus",
    ) || str_eq(ext, "vorbis") || str_eq(ext, "ogg") || str_eq(ext, "wav")
}

/// The extensions an image delivery picks up.
pub open spec fn spec_is_image_extension(ext: Seq<char>) -> bool {
    ext == "jpg"@ || ext == "jpeg"@ || ext == "png"@ || ext == "webp"@
}

pub fn is_image_extension(ext: &str) -> (r: bool)
    ensures
        r == spec_is_image_extension(ext@),
{
    str_eq(ext, "jpg") || str_eq(ext, "jpeg") || str_eq(ext, "png") || str_eq(ext, "webp")
}

/// Whether a file with this extension belongs to a delivery of the given
/// media kind.
pub fn is_delivery_extension(media_type: MediaType, ext: &str) -> (r: bool)
    ensures
        media_type == MediaType::Video ==> r == spec_is_video_extension(ext@),
        media_type == MediaType::Audio ==> r == spec_is_audio_extension(ext@),
{
    match media_type {
        MediaType::Video => is_video_extension(ext),
        MediaType::Audio => is_audio_extension(ext),
    }
}

} // verus!
