//! Custom mouse cursor images: validation of RGBA pixel data, the pixel
//! transcoding each windowing backend needs, and the cache and selection
//! state that decide which cursor a window shows.

pub mod cursor;
pub mod pixel;
pub mod platform_impl;
pub mod selection;
pub mod text;
