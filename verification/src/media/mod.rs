pub mod audio;
pub mod backends;
pub mod chunked_video;
pub mod encode;
pub mod metadata;
pub mod readiness;
pub mod sidecar;
pub mod sidecar_selection;
pub mod thumbnail;
pub mod wav;
