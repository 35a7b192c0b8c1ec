//! The Kopuz daemon's decision logic: the field lists it publishes, the
//! service registry, the settings surface, the downloader, artwork, presence
//! and the playback engines' state machines.

pub mod config;
pub mod config_service;
pub mod android_exo;
pub mod artwork;
pub mod error;
pub mod frontend;
pub mod jobs;
pub mod library;
pub mod player_task;
pub mod presence;
pub mod schema;
pub mod services;
pub mod source_service;
pub mod sources;
pub mod spotify;
pub mod text;
pub mod url_download;
pub mod wire;
