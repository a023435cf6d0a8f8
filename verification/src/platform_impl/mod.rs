//! What each windowing backend needs computed before its native calls: the
//! pixel data in the backend's format and the parameters of its requests.

pub mod linux;
pub mod macos;
pub mod wayland;
pub mod web;
pub mod windows;
pub mod windows_build;
pub mod x11;
