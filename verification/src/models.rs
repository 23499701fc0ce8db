//! Plain data models exchanged with the surrounding service: media kinds,
//! task requests and responses, and the authentication payloads.

use vstd::prelude::*;
use crate::text::str_eq;
use rand::Rng;

verus! {

/// The kind of media a task asks for.
#[derive(Clone, Copy, Debug, PartialEq, Eq, Structural)]
pub enum MediaType {
    Video,
    Audio,
}

impl MediaType {
    /// The lower-case name of the media kind.
    pub open spec fn spec_name(self) -> Seq<char> {
        match self {
            MediaType::Video => "video"@,
            MediaType::Audio => "audio"@,
        }
    }

    /// The media kind named by a string; anything unknown counts as video.
    pub open spec fn spec_from(s: Seq<char>) -> MediaType {
        if s == "audio"@ {
            MediaType::Audio
        } else {
            MediaType::Video
        }
    }

    pub fn to_string(&self) -> (r: String)
        ensures
            r@ == self.spec_name(),
    {
        match self {
            MediaType::Video => "video".to_owned(),
            MediaType::Audio => "audio".to_owned(),
        }
    }
}

impl From<&str> for MediaType {
    fn from(value: &str) -> (r: MediaType)
        ensures
            r == MediaType::spec_from(value@),
    {
        if str_eq(value, "audio") {
            MediaType::Audio
        } else {
            MediaType::Video
        }
    }
}

impl vstd::std_specs::convert::FromSpecImpl<&str> for MediaType {
    open spec fn obeys_from_spec() -> bool {
        true
    }

    open spec fn from_spec(v: &str) -> MediaType {
        MediaType::spec_from(v@)
    }
}

/// A container format the delivery layer recognises.
#[derive(Clone, Copy, Debug, PartialEq, Eq, Structural)]
pub enum Format {
    Aac,
    Flv,
    M4a,
    Mp3,
    Mp4,
    Ogg,
    Wav,
    Webm,
}

impl Format {
    /// The lower-case name of the format.
    pub open spec fn spec_name(self) -> Seq<char> {
        match self {
            Format::Aac => "aac"@,
            Format::Flv => "flv"@,
            Format::M4a => "m4a"@,
            Format::Mp3 => "mp3"@,
            Format::Mp4 => "mp4"@,
            Format::Ogg => "ogg"@,
            Format::Wav => "wav"@,
            Format::Webm => "webm"@,
        }
    }

    /// The format named by a string; anything unknown counts as mp3.
    pub open spec fn spec_from(s: Seq<char>) -> Format {
        if s == "aac"@ {
            Format::Aac
        } else if s == "flv"@ {
            Format::Flv
        } else if s == "m4a"@ {
            Format::M4a
        } else if s == "mp4"@ {
            Format::Mp4
        } else if s == "ogg"@ {
            Format::Ogg
        } else if s == "wav"@ {
            Format::Wav
        } else if s == "webm"@ {
            Format::Webm
        } else {
            Format::Mp3
        }
    }

    pub fn to_string(&self) -> (r: String)
        ensures
            r@ == self.spec_name(),
    {
        match self {
            Format::Aac => "aac".to_owned(),
            Format::Flv => "flv".to_owned(),
            Format::M4a => "m4a".to_owned(),
            Format::Mp3 => "mp3".to_owned(),
            Format::Mp4 => "mp4".to_owned(),
            Format::Ogg => "ogg".to_owned(),
            Format::Wav => "wav".to_owned(),
            Format::Webm => "webm".to_owned(),
        }
    }
}

impl From<&str> for Format {
    fn from(value: &str) -> (r: Format)
        ensures
            r == Format::spec_from(value@),
    {
        if str_eq(value, "aac") {
            Format::Aac
        } else if str_eq(value, "flv") {
            Format::Flv
        } else if str_eq(value, "m4a") {
            Format::M4a
        } else if str_eq(value, "mp4") {
            Format::Mp4
        } else if str_eq(value, "ogg") {
            Format::Ogg
        } else if str_eq(value, "wav") {
            Format::Wav
        } else if str_eq(value, "webm") {
            Format::Webm
        } else {
            Format::Mp3
        }
    }
}

impl vstd::std_specs::convert::FromSpecImpl<&str> for Format {
    open spec fn obeys_from_spec() -> bool {
        true
    }

    open spec fn from_spec(v: &str) -> Format {
        Format::spec_from(v@)
    }
}

/// The audio encoding a caller may ask the backend to produce.
#[derive(Clone, Copy, Debug, PartialEq, Eq, Structural)]
pub enum AudioFormat {
    Best,
    Aac,
    Flac,
    Mp3,
    M4a,
    Opus,
    Vorbis,
    Wav,
}

impl AudioFormat {
    /// The lower-case name of the audio format.
    pub open spec fn spec_name(self) -> Seq<char> {
        match self {
            AudioFormat::Best => "best"@,
            AudioFormat::Aac => "aac"@,
            AudioFormat::Flac => "flac"@,
            AudioFormat::Mp3 => "mp3"@,
            AudioFormat::M4a => "m4a"@,
            AudioFormat::Opus => "opus"@,
            AudioFormat::Vorbis => "vorbis"@,
            AudioFormat::Wav => "wav"@,
        }
    }

    /// The audio format named by a string; anything unknown counts as best.
    pub open spec fn spec_from(s: Seq<char>) -> AudioFormat {
        if s == "aac"@ {
            AudioFormat::Aac
        } else if s == "flac"@ {
            AudioFormat::Flac
        } else if s == "mp3"@ {
            AudioFormat::Mp3
        } else if s == "m4a"@ {
            AudioFormat::M4a
        } else if s == "opus"@ {
            AudioFormat::Opus
        } else if s == "vorbis"@ {
            AudioFormat::Vorbis
        } else if s == "wav"@ {
            AudioFormat::Wav
        } else {
            AudioFormat::Best
        }
    }

    pub fn to_string(&self) -> (r: String)
        ensures
            r@ == self.spec_name(),
    {
        match self {
            AudioFormat::Best => "best".to_owned(),
            AudioFormat::Aac => "aac".to_owned(),
            AudioFormat::Flac => "flac".to_owned(),
            AudioFormat::Mp3 => "mp3".to_owned(),
            AudioFormat::M4a => "m4a".to_owned(),
            AudioFormat::Opus => "opus".to_owned(),
            AudioFormat::Vorbis => "vorbis".to_owned(),
            AudioFormat::Wav => "wav".to_owned(),
        }
    }
}

impl From<&str> for AudioFormat {
    fn from(value: &str) -> (r: AudioFormat)
        ensures
            r == AudioFormat::spec_from(value@),
    {
        if str_eq(value, "aac") {
            AudioFormat::Aac
        } else if str_eq(value, "flac") {
            AudioFormat::Flac
        } else if str_eq(value, "mp3") {
            AudioFormat::Mp3
        } else if str_eq(value, "m4a") {
            AudioFormat::M4a
        } else if str_eq(value, "opus") {
            AudioFormat::Opus
        } else if str_eq(value, "vorbis") {
            AudioFormat::Vorbis
        } else if str_eq(value, "wav") {
            AudioFormat::Wav
        } else {
            AudioFormat::Best
        }
    }
}

impl vstd::std_specs::convert::FromSpecImpl<&str> for AudioFormat {
    open spec fn obeys_from_spec() -> bool {
        true
    }

    open spec fn from_spec(v: &str) -> AudioFormat {
        AudioFormat::spec_from(v@)
    }
}

/// Whether a URL in the sense of the WHATWG URL standard can be parsed
/// from the string. Only `check_url` gives this name a value.
pub uninterp spec fn url_is_valid(s: Seq<char>) -> bool;

/// Relies on validator::validate_url, which reports whether url::Url::parse
/// accepts the string; the answer depends on the string alone.
#[verifier::external_body]
fn check_url(value: &str) -> (r: bool)
    ensures
        r == url_is_valid(value@),
{
    validator::validate_url(value)
}

/// Whether the string is an e-mail address in the sense of the HTML5 form
/// validation rules. Only `check_email` gives this name a value.
pub uninterp spec fn email_is_valid(s: Seq<char>) -> bool;

/// Relies on validator::validate_email, which checks the HTML5 user and
/// domain grammar; the answer depends on the string alone.
#[verifier::external_body]
fn check_email(value: &str) -> (r: bool)
    ensures
        r == email_is_valid(value@),
{
    validator::validate_email(value)
}

/// An ASCII letter or digit.
pub open spec fn is_ascii_alphanumeric(c: char) -> bool {
    (('0' as u32) <= (c as u32) && (c as u32) <= ('9' as u32)) || (('a' as u32) <= (c as u32)
        && (c as u32) <= ('z' as u32)) || (('A' as u32) <= (c as u32) && (c as u32) <= (
    'Z' as u32))
}

/// Relies on rand's thread_rng with the Alphanumeric distribution: every
/// sampled byte is an ASCII letter or digit, and exactly `len` of them are
/// taken. The result is random, so nothing beyond that is stated.
#[verifier::external_body]
fn sample_alphanumeric(len: usize) -> (r: String)
    ensures
        r@.len() == len,
        forall|i: int| 0 <= i < r@.len() ==> is_ascii_alphanumeric(#[trigger] r@[i]),
{
    rand::thread_rng().sample_iter(&rand::distributions::Alphanumeric).take(len).map(
        char::from,
    ).collect()
}

/// The number of characters a task status identifier must have.
pub const STATUS_ID_LEN: usize = 16;

/// Draws a fresh random status identifier: sixteen ASCII letters or digits.
pub fn generate_random_status_id() -> (r: String)
    ensures
        r@.len() == STATUS_ID_LEN,
        forall|i: int| 0 <= i < r@.len() ==> is_ascii_alphanumeric(#[trigger] r@[i]),
{
    sample_alphanumeric(STATUS_ID_LEN)
}

/// A request to create a fetch task for one URL.
pub struct TaskCreateRequest {
    pub url: String,
    pub media_type: MediaType,
    pub audio_format: Option<AudioFormat>,
}

impl TaskCreateRequest {
    /// A create request is valid when its URL parses.
    pub fn validate(&self) -> (r: bool)
        ensures
            r == url_is_valid(self.url@),
    {
        check_url(self.url.as_str())
    }
}

/// Where a task stands: still queued or running, done, or failed.
#[derive(Clone, Copy, Debug, PartialEq, Eq, Structural)]
pub enum TaskStatus {
    Pending,
    Complete,
    Error,
}

/// A reference to a task by its status identifier.
#[derive(Clone)]
pub struct TaskRequest {
    pub status_id: String,
}

impl TaskRequest {
    pub fn new(status_id: String) -> (r: Self)
        ensures
            r.status_id@ == status_id@,
    {
        TaskRequest { status_id }
    }

    /// A task reference is valid when its identifier has exactly the
    /// status identifier length.
    pub fn validate(&self) -> (r: bool)
        ensures
            r == (self.status_id@.len() == STATUS_ID_LEN),
    {
        self.status_id.as_str().unicode_len() == STATUS_ID_LEN
    }
}

/// The task record the status store keeps: who owns the task, where it
/// stands, and how far along it is. `percentage` counts hundredths of
/// completion, from 0 (nothing done) to 100 (done).
#[derive(Clone)]
pub struct TaskResponse {
    pub status_id: String,
    pub user_id: usize,
    pub status: TaskStatus,
    pub message: Option<String>,
    pub percentage: u8,
}

impl TaskResponse {
    /// A record is well formed when its completion never passes the whole.
    pub open spec fn wf(self) -> bool {
        self.percentage <= 100
    }

    pub fn new(
        status_id: String,
        user_id: usize,
        status: TaskStatus,
        message: Option<String>,
        percentage: u8,
    ) -> (r: Self)
        requires
            percentage <= 100,
        ensures
            r.wf(),
            r.status_id@ == status_id@,
            r.user_id == user_id,
            r.status == status,
            r.message == message,
            r.percentage == percentage,
    {
        TaskResponse { status_id, user_id, status, message, percentage }
    }

    /// A freshly created task: pending, no message, nothing done yet.
    pub fn pending(status_id: String, user_id: usize) -> (r: Self)
        ensures
            r.wf(),
            r.status_id@ == status_id@,
            r.user_id == user_id,
            r.status == TaskStatus::Pending,
            r.message is None,
            r.percentage == 0,
    {
        Self::new(status_id, user_id, TaskStatus::Pending, None, 0)
    }

    /// A finished task: complete, fully done, with an optional message.
    pub fn complete(status_id: String, user_id: usize, message: Option<String>) -> (r: Self)
        ensures
            r.wf(),
            r.status_id@ == status_id@,
            r.user_id == user_id,
            r.status == TaskStatus::Complete,
            r.message == message,
            r.percentage == 100,
    {
        Self::new(status_id, user_id, TaskStatus::Complete, message, 100)
    }

    /// A failed task: in error, nothing delivered, with an optional message.
    pub fn error(status_id: String, user_id: usize, message: Option<String>) -> (r: Self)
        ensures
            r.wf(),
            r.status_id@ == status_id@,
            r.user_id == user_id,
            r.status == TaskStatus::Error,
            r.message == message,
            r.percentage == 0,
    {
        Self::new(status_id, user_id, TaskStatus::Error, message, 0)
    }
}

/// Credentials presented at login.
pub struct AuthLoginRequest {
    pub username: String,
    pub password: String,
}

impl AuthLoginRequest {
    pub fn new(username: String, password: String) -> (r: Self)
        ensures
            r.username@ == username@,
            r.password@ == password@,
    {
        AuthLoginRequest { username, password }
    }
}

/// A granted token and when it expires.
pub struct AuthLoginResponse {
    pub token: String,
    pub expires: usize,
}

impl AuthLoginResponse {
    pub fn new(token: String, expires: usize) -> (r: Self)
        ensures
            r.token@ == token@,
            r.expires == expires,
    {
        AuthLoginResponse { token, expires }
    }
}

/// The data a new account is registered with.
pub struct AuthRegisterRequest {
    pub username: String,
    pub email: String,
    pub password: String,
    pub password_confirm: String,
}

impl AuthRegisterRequest {
    pub fn new(
        username: String,
        email: String,
        password: String,
        password_confirm: String,
    ) -> (r: Self)
        ensures
            r.username@ == username@,
            r.email@ == email@,
            r.password@ == password@,
            r.password_confirm@ == password_confirm@,
    {
        AuthRegisterRequest { username, email, password, password_confirm }
    }

    /// A registration is valid when the e-mail address is well formed and
    /// the two password fields agree.
    pub fn validate(&self) -> (r: bool)
        ensures
            r == (email_is_valid(self.email@) && self.password@ == self.password_confirm@),
    {
        let email_ok = check_email(self.email.as_str());
        email_ok && self.password == self.password_confirm
    }
}

/// The body an HTTP error answer carries.
pub struct ErrorResponse {
    pub response: u16,
    pub error: String,
    pub message: Option<String>,
}

} // verus!
