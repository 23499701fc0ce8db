//! The plain data models: name mappings, validation, task records.

use nekobox_core::auth::Claims;
use nekobox_core::auth::bearer_token;
use nekobox_core::models::AudioFormat;
use nekobox_core::models::AuthLoginRequest;
use nekobox_core::models::AuthLoginResponse;
use nekobox_core::models::AuthRegisterRequest;
use nekobox_core::models::Format;
use nekobox_core::models::MediaType;
use nekobox_core::models::TaskCreateRequest;
use nekobox_core::models::TaskRequest;
use nekobox_core::models::TaskResponse;
use nekobox_core::models::TaskStatus;
use nekobox_core::models::generate_random_status_id;

#[test]
fn media_type_names() {
    assert_eq!(MediaType::Video.to_string(), "video");
    assert_eq!(MediaType::Audio.to_string(), "audio");
    assert!(MediaType::from("video") == MediaType::Video);
    assert!(MediaType::from("audio") == MediaType::Audio);
    // Anything unknown counts as video.
    assert!(MediaType::from("podcast") == MediaType::Video);
}

#[test]
fn format_names() {
    assert_eq!(Format::Aac.to_string(), "aac");
    assert_eq!(Format::Flv.to_string(), "flv");
    assert_eq!(Format::M4a.to_string(), "m4a");
    assert_eq!(Format::Mp3.to_string(), "mp3");
    assert_eq!(Format::Mp4.to_string(), "mp4");
    assert_eq!(Format::Ogg.to_string(), "ogg");
    assert_eq!(Format::Wav.to_string(), "wav");
    assert_eq!(Format::Webm.to_string(), "webm");
    assert!(Format::from("webm") == Format::Webm);
    // Anything unknown counts as mp3.
    assert!(Format::from("tape") == Format::Mp3);
}

#[test]
fn audio_format_names() {
    assert_eq!(AudioFormat::Best.to_string(), "best");
    assert_eq!(AudioFormat::Aac.to_string(), "aac");
    assert_eq!(AudioFormat::Flac.to_string(), "flac");
    assert_eq!(AudioFormat::Mp3.to_string(), "mp3");
    assert_eq!(AudioFormat::M4a.to_string(), "m4a");
    assert_eq!(AudioFormat::Opus.to_string(), "opus");
    assert_eq!(AudioFormat::Vorbis.to_string(), "vorbis");
    assert_eq!(AudioFormat::Wav.to_string(), "wav");
    assert!(AudioFormat::from("opus") == AudioFormat::Opus);
    // Anything unknown counts as best.
    assert!(AudioFormat::from("shellac") == AudioFormat::Best);
}

#[test]
fn create_request_validates_its_url() {
    let good = TaskCreateRequest {
        url: "https://example.com/watch?v=1".to_string(),
        media_type: MediaType::Video,
        audio_format: None,
    };
    assert!(good.validate());
    let bad = TaskCreateRequest {
        url: "not a url".to_string(),
        media_type: MediaType::Video,
        audio_format: None,
    };
    assert!(!bad.validate());
}

#[test]
fn task_request_validates_its_identifier_length() {
    assert!(TaskRequest::new("abcdefgh12345678".to_string()).validate());
    assert!(!TaskRequest::new("short".to_string()).validate());
    assert!(!TaskRequest::new("abcdefgh123456789".to_string()).validate());
}

#[test]
fn register_request_validates_email_and_confirmation() {
    let good = AuthRegisterRequest::new(
        "someone".to_string(),
        "someone@example.com".to_string(),
        "SECRET-REDACTED".to_string(),
        "SECRET-REDACTED".to_string(),
    );
    assert!(good.validate());
    let mismatched = AuthRegisterRequest::new(
        "someone".to_string(),
        "someone@example.com".to_string(),
        "one password".to_string(),
        "another password".to_string(),
    );
    assert!(!mismatched.validate());
    let bad_email = AuthRegisterRequest::new(
        "someone".to_string(),
        "no at sign here".to_string(),
        "SECRET-REDACTED".to_string(),
        "SECRET-REDACTED".to_string(),
    );
    assert!(!bad_email.validate());
}

#[test]
fn task_response_states() {
    let pending = TaskResponse::pending("abcdefgh12345678".to_string(), 3);
    assert_eq!(pending.status_id, "abcdefgh12345678");
    assert_eq!(pending.user_id, 3);
    assert!(pending.status == TaskStatus::Pending);
    assert!(pending.message.is_none());
    assert_eq!(pending.percentage, 0);

    let complete =
        TaskResponse::complete("abcdefgh12345678".to_string(), 3, Some("done".to_string()));
    assert!(complete.status == TaskStatus::Complete);
    assert_eq!(complete.message.as_deref(), Some("done"));
    assert_eq!(complete.percentage, 100);

    let error = TaskResponse::error("abcdefgh12345678".to_string(), 3, None);
    assert!(error.status == TaskStatus::Error);
    assert_eq!(error.percentage, 0);
}

#[test]
fn random_status_ids_are_sixteen_alphanumerics() {
    for _ in 0..16 {
        let id = generate_random_status_id();
        assert_eq!(id.chars().count(), 16);
        assert!(id.chars().all(|c| c.is_ascii_alphanumeric()));
        assert!(TaskRequest::new(id).validate());
    }
}

#[test]
fn auth_payloads_carry_their_fields() {
    let login = AuthLoginRequest::new("someone".to_string(), "pw".to_string());
    assert_eq!(login.username, "someone");
    assert_eq!(login.password, "pw");
    let granted = AuthLoginResponse::new("token-text".to_string(), 99);
    assert_eq!(granted.token, "token-text");
    assert_eq!(granted.expires, 99);
    let claims = Claims::new(5, "a@example.com".to_string(), "someone".to_string(), 123);
    assert_eq!(claims.id, 5);
    assert_eq!(claims.email, "a@example.com");
    assert_eq!(claims.username, "someone");
    assert_eq!(claims.exp, 123);
}

#[test]
fn bearer_tokens_are_read_after_the_scheme() {
    assert_eq!(bearer_token("Bearer abc.def").as_deref(), Some("abc.def"));
    assert_eq!(bearer_token("Bearer ").as_deref(), Some(""));
    assert!(bearer_token("short").is_none());
}
