//! Verified core of a media-fetch service.
//!
//! The crate centres on three pieces: a FIFO job queue scheduler with a
//! concurrency bound and optional dispatch throttling (`queue`), a job
//! adapter that runs one fetch and reports its lifecycle to observers
//! (`service`), and the interpretation of the fetch backend's command
//! lines and metadata document (`ytdl`). Around them stand the plain data
//! the surrounding service exchanges — task and authentication models
//! (`models`, `auth`), configuration (`environment`), store records and
//! URLs (`database`), delivery mappings (`delivery`), errors (`error`) —
//! and small text helpers (`text`) with further backend capabilities
//! (`traits`).

pub mod auth;
pub mod database;
pub mod delivery;
pub mod environment;
pub mod error;
pub mod models;
pub mod queue;
pub mod service;
pub mod text;
pub mod traits;
pub mod ytdl;
