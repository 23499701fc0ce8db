//! Reading the backend's info document, and the decimal parsing under it.

use nekobox_core::error::Error;
use nekobox_core::text::parse_usize;
use nekobox_core::text::usize_to_string;
use nekobox_core::ytdl::collect_args;
use nekobox_core::ytdl::collect_from_document_text;
use nekobox_core::ytdl::collection_of_document;
use nekobox_core::ytdl::download_args;
use nekobox_core::ytdl::download_outcome;
use nekobox_core::models::AudioFormat;
use nekobox_core::models::MediaType;
use nekobox_core::service::ResponseStatus;

fn document(text: &str) -> serde_json::Value {
    serde_json::from_str(text).unwrap()
}

#[test]
fn missing_duration_stays_absent() {
    let doc = document("{\"title\": \"A tune\"}");
    let collection = collection_of_document(&doc);
    // The backend sent no duration: the field is absent, not zero.
    assert!(collection.duration.is_none());
    assert!(collection.views.is_none());
    // Text fields keep the rendered JSON text, quotes and all.
    assert_eq!(collection.title.as_deref(), Some("\"A tune\""));
}

#[test]
fn numeric_fields_are_parsed() {
    let doc = document("{\"duration\": 63, \"view_count\": 1024, \"uploader\": \"someone\"}");
    let collection = collection_of_document(&doc);
    assert_eq!(collection.duration, Some(63));
    assert_eq!(collection.views, Some(1024));
    assert_eq!(collection.uploader.as_deref(), Some("\"someone\""));
    assert!(collection.title.is_none());
    assert!(collection.channel.is_none());
}

#[test]
fn null_and_fractional_fields_stay_absent() {
    let doc = document("{\"title\": null, \"duration\": 4.5}");
    let collection = collection_of_document(&doc);
    assert!(collection.title.is_none());
    // A fractional duration is no decimal count: absent, not truncated.
    assert!(collection.duration.is_none());
}

#[test]
fn document_text_is_parsed_or_refused() {
    let collection =
        collect_from_document_text("{\"channel\": \"c\", \"description\": \"d\"}").unwrap();
    assert_eq!(collection.channel.as_deref(), Some("\"c\""));
    assert_eq!(collection.description.as_deref(), Some("\"d\""));
    let refused = collect_from_document_text("this is no json");
    assert!(matches!(refused, Err(Error::JsonError)));
}

#[test]
fn decimal_parsing_exact_cases() {
    assert_eq!(parse_usize("42"), Some(42));
    assert_eq!(parse_usize("0"), Some(0));
    assert_eq!(parse_usize("007"), Some(7));
    assert_eq!(parse_usize("+7"), Some(7));
    assert_eq!(parse_usize(""), None);
    assert_eq!(parse_usize("+"), None);
    assert_eq!(parse_usize("-3"), None);
    assert_eq!(parse_usize("4.5"), None);
    assert_eq!(parse_usize("12a"), None);
    assert_eq!(parse_usize("18446744073709551615"), Some(usize::MAX));
    assert_eq!(parse_usize("18446744073709551616"), None);
    assert_eq!(parse_usize("99999999999999999999999999"), None);
}

#[test]
fn numbers_print_and_parse_back() {
    assert_eq!(usize_to_string(0), "0");
    assert_eq!(usize_to_string(7), "7");
    assert_eq!(usize_to_string(10200), "10200");
    assert_eq!(usize_to_string(usize::MAX), "18446744073709551615");
    for v in [0usize, 1, 9, 10, 4096, 123456789] {
        assert_eq!(parse_usize(&usize_to_string(v)), Some(v));
    }
}

#[test]
fn download_outcomes_by_wait_result() {
    let done = download_outcome(true, Some("cache/abc".to_string()));
    assert!(done.status == ResponseStatus::Complete);
    assert_eq!(done.path.as_deref(), Some("cache/abc"));
    let failed = download_outcome(false, Some("cache/abc".to_string()));
    assert!(failed.status == ResponseStatus::Failed);
    assert!(failed.path.is_none());
}

#[test]
fn collect_run_arguments() {
    assert_eq!(
        collect_args(),
        vec![
            "--write-info-json".to_string(),
            "--write-thumbnail".to_string(),
            "--skip-download".to_string(),
            "--output".to_string(),
            "0.%(ext)s".to_string(),
        ]
    );
}

#[test]
fn download_run_arguments() {
    assert_eq!(
        download_args(MediaType::Video, None),
        vec!["--no-playlist".to_string(), "--newline".to_string()]
    );
    assert_eq!(
        download_args(MediaType::Audio, Some(AudioFormat::Flac)),
        vec![
            "--extract-audio".to_string(),
            "--audio-format".to_string(),
            "flac".to_string(),
            "--no-playlist".to_string(),
            "--newline".to_string(),
        ]
    );
}
