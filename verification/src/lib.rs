pub mod ai;
pub mod binaries;
pub mod capture;
pub mod commands;
pub mod config;
pub mod encoding;
pub mod jobs;
pub mod media;
pub mod paths;
pub mod platform;
pub mod recorder;
pub mod session_control;
pub mod session_metadata;
pub mod source_audio;
pub mod storage;
pub mod text;
pub mod transcription;
