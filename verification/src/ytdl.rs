//! Interpretation of the media-fetch backend's output: the command lines it
//! is driven with and the reading of its metadata document.
//!
//! The backend writes an info document in JSON. Parsing the document is
//! serde_json's work, behind trusted declarations; what a parsed document
//! holds is named by `json_fields`, and everything built on top of it — the
//! reading of the collection, the decimal parsing of counted fields — is
//! verified here.

use vstd::prelude::*;
use crate::error::Error;
use crate::models::AudioFormat;
use crate::models::MediaType;
use crate::service::DownloadResponse;
use crate::service::FetchCollection;
use crate::service::ResponseStatus;
use crate::text::parse_usize;
use crate::text::parsed_usize;

verus! {

/// Declares serde_json's document type so values of it can be passed
/// around; the library never looks inside one except through the trusted
/// readers below.
#[verifier::external_type_specification]
#[verifier::external_body]
pub struct ExValue(serde_json::Value);

/// What a parsed document holds: each top-level field whose value is not
/// null, mapped to that value's rendered text (for a string field the text
/// keeps its quotes, as serde_json prints it). Only the trusted readers
/// below give this name a value.
pub uninterp spec fn json_fields(v: serde_json::Value) -> Map<Seq<char>, Seq<char>>;

/// Whether the text parses as one JSON document. Parsing is a function of
/// the text alone; only `parse_json_document` gives this name a value.
pub uninterp spec fn json_parses(text: Seq<char>) -> bool;

/// The fields of the document the text parses to: `json_fields` of the
/// parsed value, named over the text alone. Only `parse_json_document`
/// applies it.
pub uninterp spec fn doc_fields(text: Seq<char>) -> Map<Seq<char>, Seq<char>>;

/// Relies on serde_json::from_str: parses one JSON document. Whether the
/// parse succeeds, and what the parsed document holds, depend on the text
/// alone — `json_parses` and `doc_fields` name them. A failure is mapped
/// to the library's json error.
#[verifier::external_body]
fn parse_json_document(text: &str) -> (r: Result<serde_json::Value, Error>)
    ensures
        (r is Ok) == json_parses(text@),
        r matches Ok(v) ==> json_fields(v) == doc_fields(text@),
        r matches Err(e) ==> e == Error::JsonError,
{
    match serde_json::from_str(text) {
        Ok(v) => Ok(v),
        Err(_) => Err(Error::JsonError),
    }
}

/// Relies on serde_json's Value::get and Value::is_null, and on Value's
/// Display for the rendered text: the text of the named top-level field,
/// absent when the field is missing or null, exactly as `json_fields`
/// holds it.
#[verifier::external_body]
fn json_field_text(v: &serde_json::Value, key: &str) -> (r: Option<String>)
    ensures
        (r is Some) == json_fields(*v).contains_key(key@),
        r matches Some(t) ==> t@ == json_fields(*v)[key@],
{
    match v.get(key) {
        Some(field) if !field.is_null() => Some(field.to_string()),
        _ => None,
    }
}

/// The text of one field of a parsed document, absent when the document
/// does not hold it.
pub open spec fn field_text(v: serde_json::Value, key: Seq<char>) -> Option<Seq<char>> {
    if json_fields(v).contains_key(key) {
        Some(json_fields(v)[key])
    } else {
        None
    }
}

/// The number a counted field yields: its text parsed as a decimal.
pub open spec fn field_count(v: serde_json::Value, key: Seq<char>) -> Option<usize> {
    match field_text(v, key) {
        Some(t) => parsed_usize(t),
        None => None,
    }
}

/// An optional string, viewed as an optional character sequence.
pub open spec fn option_view(o: Option<String>) -> Option<Seq<char>> {
    match o {
        Some(s) => Some(s@),
        None => None,
    }
}

/// Reads the metadata collection out of a parsed info document: the text
/// fields as their rendered text, the duration and view count as decimal
/// numbers. A field the document does not hold stays absent — never zero,
/// never an error — and so does a counted field whose text is no decimal.
pub fn collection_of_document(v: &serde_json::Value) -> (c: FetchCollection)
    ensures
        option_view(c.title) == field_text(*v, "title"@),
        option_view(c.description) == field_text(*v, "description"@),
        c.duration == field_count(*v, "duration"@),
        option_view(c.channel) == field_text(*v, "channel"@),
        c.views == field_count(*v, "view_count"@),
        option_view(c.uploader) == field_text(*v, "uploader"@),
{
    let mut collection = FetchCollection::builder();
    if let Some(title) = json_field_text(v, "title") {
        collection.title(title);
    }
    if let Some(description) = json_field_text(v, "description") {
        collection.description(description);
    }
    if let Some(duration) = json_field_text(v, "duration") {
        if let Some(value) = parse_usize(duration.as_str()) {
            collection.duration(value);
        }
    }
    if let Some(channel) = json_field_text(v, "channel") {
        collection.channel(channel);
    }
    if let Some(views) = json_field_text(v, "view_count") {
        if let Some(value) = parse_usize(views.as_str()) {
            collection.views(value);
        }
    }
    if let Some(uploader) = json_field_text(v, "uploader") {
        collection.uploader(uploader);
    }
    collection
}

/// The text of one field of the document a text parses to, absent when
/// the document does not hold it.
pub open spec fn text_field(text: Seq<char>, key: Seq<char>) -> Option<Seq<char>> {
    if doc_fields(text).contains_key(key) {
        Some(doc_fields(text)[key])
    } else {
        None
    }
}

/// The number a counted field of the parsed text yields.
pub open spec fn text_count(text: Seq<char>, key: Seq<char>) -> Option<usize> {
    match text_field(text, key) {
        Some(t) => parsed_usize(t),
        None => None,
    }
}

/// Parses a backend's info document and reads the collection from it: the
/// reading succeeds exactly when the text parses, a failure is the json
/// error, and a successful reading fixes every field of the collection
/// from the text's fields, as `collection_of_document` fixes them from the
/// parsed value.
pub fn collect_from_document_text(text: &str) -> (r: Result<FetchCollection, Error>)
    ensures
        (r is Ok) == json_parses(text@),
        r matches Err(e) ==> e == Error::JsonError,
        r matches Ok(c) ==> {
            &&& option_view(c.title) == text_field(text@, "title"@)
            &&& option_view(c.description) == text_field(text@, "description"@)
            &&& c.duration == text_count(text@, "duration"@)
            &&& option_view(c.channel) == text_field(text@, "channel"@)
            &&& c.views == text_count(text@, "view_count"@)
            &&& option_view(c.uploader) == text_field(text@, "uploader"@)
        },
{
    match parse_json_document(text) {
        Ok(v) => Ok(collection_of_document(&v)),
        Err(e) => Err(e),
    }
}

/// The extra arguments a metadata collection run hands the backend: write
/// the info document and the thumbnail, skip the download, and fix the
/// output name.
pub open spec fn spec_collect_args() -> Seq<Seq<char>> {
    seq![
        "--write-info-json"@,
        "--write-thumbnail"@,
        "--skip-download"@,
        "--output"@,
        "0.%(ext)s"@,
    ]
}

pub fn collect_args() -> (r: Vec<String>)
    ensures
        r@.map_values(|a: String| a@) == spec_collect_args(),
{
    let mut args: Vec<String> = Vec::new();
    args.push("--write-info-json".to_owned());
    args.push("--write-thumbnail".to_owned());
    args.push("--skip-download".to_owned());
    args.push("--output".to_owned());
    args.push("0.%(ext)s".to_owned());
    proof {
        assert(args@.map_values(|a: String| a@) =~= spec_collect_args());
    }
    args
}

/// The extra arguments a download run hands the backend: extract audio
/// when audio was asked for, pass the chosen audio format on, stay off
/// playlists, report progress line by line.
pub open spec fn spec_download_args(media_type: MediaType, audio_format: Option<AudioFormat>) -> Seq<
    Seq<char>,
> {
    (if media_type == MediaType::Audio {
        seq!["--extract-audio"@]
    } else {
        Seq::empty()
    }) + (match audio_format {
        Some(f) => seq!["--audio-format"@, f.spec_name()],
        None => Seq::empty(),
    }) + seq!["--no-playlist"@, "--newline"@]
}

pub fn download_args(media_type: MediaType, audio_format: Option<AudioFormat>) -> (r: Vec<String>)
    ensures
        r@.map_values(|a: String| a@) == spec_download_args(media_type, audio_format),
{
    let mut args: Vec<String> = Vec::new();
    if media_type == MediaType::Audio {
        args.push("--extract-audio".to_owned());
    }
    if let Some(f) = audio_format {
        args.push("--audio-format".to_owned());
        args.push(f.to_string());
    }
    args.push("--no-playlist".to_owned());
    args.push("--newline".to_owned());
    proof {
        assert(args@.map_values(|a: String| a@) =~= spec_download_args(media_type, audio_format));
    }
    args
}

/// What one finished backend run reports: completion with the working
/// directory when waiting on the command succeeded, failure with no path
/// otherwise.
pub fn download_outcome(waited_ok: bool, working_directory: Option<String>) -> (r:
    DownloadResponse)
    ensures
        waited_ok ==> r.status == ResponseStatus::Complete && r.path == working_directory,
        !waited_ok ==> r.status == ResponseStatus::Failed && r.path is None,
{
    if waited_ok {
        DownloadResponse::new(ResponseStatus::Complete, working_directory)
    } else {
        DownloadResponse::new(ResponseStatus::Failed, None)
    }
}

} // verus!
