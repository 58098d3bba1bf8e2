pub mod macos;
pub mod windows;
pub mod linux;
