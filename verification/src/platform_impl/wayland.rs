//! Wayland: the cursor image as the compositor reads it from shared memory,
//! and what the shared-memory pool and buffer that hold it are made with.

use crate::cursor::{BadCursor, CustomCursor, RgbaImage};
use crate::pixel::{rgba_to_bgra, swap_red_blue};
use vstd::prelude::*;
use wayland_client::protocol::wl_shm::Format;

verus! {

/// `wayland_client::protocol::wl_shm::Format`, the pixel formats of the
/// shared-memory protocol. It is an enumeration without fields, and all of
/// its variants are known here.
#[verifier::external_type_specification]
pub struct ExFormat(Format);

/// A cursor image for Wayland: the pixel bytes in BGRA order (the 32-bit
/// ARGB format as a little-endian machine stores it), and dimensions and
/// hotspot as the protocol's signed integers.
#[derive(Debug)]
pub struct WaylandCustomCursor {
    pub bgra_bytes: Vec<u8>,
    pub w: i32,
    pub h: i32,
    pub hot_x: i32,
    pub hot_y: i32,
}

impl WaylandCustomCursor {
    /// Four bytes for each of `w * h` pixels, and a hotspot inside the image.
    pub open spec fn wf(&self) -> bool {
        &&& 0 <= self.hot_x < self.w
        &&& 0 <= self.hot_y < self.h
        &&& self.bgra_bytes@.len() == self.w * self.h * 4
    }

    /// This is the Wayland form of `image`: same dimensions and hotspot, and
    /// the pixel bytes with red and blue exchanged.
    pub open spec fn encodes(&self, image: RgbaImage) -> bool {
        &&& self.w == image.width
        &&& self.h == image.height
        &&& self.hot_x == image.hotspot_x
        &&& self.hot_y == image.hotspot_y
        &&& self.bgra_bytes@ == swap_red_blue(image.rgba)
    }

    /// Reorders the cursor's pixels to BGRA and converts its dimensions.
    /// Fails with `OtherError` exactly when a dimension does not fit the
    /// protocol's signed integers.
    pub fn from_cursor(cursor: CustomCursor) -> (res: Result<WaylandCustomCursor, BadCursor>)
        ensures
            res is Ok <==> cursor@.width <= i32::MAX && cursor@.height <= i32::MAX,
            res matches Ok(wayland) ==> wayland.encodes(cursor@) && wayland.wf(),
            res matches Err(e) ==> e == BadCursor::OtherError,
    {
        let width = cursor.width();
        let height = cursor.height();
        let hotspot_x = cursor.hotspot_x();
        let hotspot_y = cursor.hotspot_y();
        if width > i32::MAX as u32 || height > i32::MAX as u32 {
            return Err(BadCursor::OtherError);
        }
        let mut bgra_bytes = cursor.into_rgba();
        rgba_to_bgra(&mut bgra_bytes);
        Ok(
            WaylandCustomCursor {
                bgra_bytes,
                w: width as i32,
                h: height as i32,
                hot_x: hotspot_x as i32,
                hot_y: hotspot_y as i32,
            },
        )
    }
}

/// What a cursor's shared memory is made with: the length of the file,
/// the size of the pool over it, the offset, stride and pixel format of the
/// one buffer in that pool, and the dimensions and hotspot of the cursor.
/// The file holds the cursor's pixel bytes and nothing else.
#[derive(Debug, Clone, Copy, PartialEq, Eq)]
pub struct CustomCursorData {
    pub file_len: u64,
    pub pool_size: i32,
    pub offset: i32,
    pub stride: i32,
    pub format: Format,
    pub w: i32,
    pub h: i32,
    pub hot_x: i32,
    pub hot_y: i32,
}

impl CustomCursorData {
    /// The data for `cursor`: file and pool are exactly as long as the
    /// pixel bytes, and the buffer starts at the beginning of the pool with
    /// four bytes per pixel in each row, in the 32-bit ARGB format.
    pub open spec fn of(cursor: WaylandCustomCursor) -> CustomCursorData {
        CustomCursorData {
            file_len: cursor.bgra_bytes@.len() as u64,
            pool_size: cursor.bgra_bytes@.len() as i32,
            offset: 0,
            stride: (cursor.w * 4) as i32,
            format: Format::Argb8888,
            w: cursor.w,
            h: cursor.h,
            hot_x: cursor.hot_x,
            hot_y: cursor.hot_y,
        }
    }

    /// The buffer lies inside the pool.
    pub open spec fn buffer_fits(self) -> bool {
        &&& 0 <= self.offset
        &&& 0 <= self.w
        &&& 0 <= self.h
        &&& self.stride == self.w * 4
        &&& self.offset + self.stride * self.h <= self.pool_size
    }

    /// Computes what the shared memory of a cursor is made with. Fails with
    /// `OtherError` exactly when the cursor is not well formed or its bytes
    /// are more than a pool's signed size can express.
    pub fn new(cursor: &WaylandCustomCursor) -> (res: Result<CustomCursorData, BadCursor>)
        ensures
            res is Ok <==> cursor.wf() && cursor.bgra_bytes@.len() <= i32::MAX,
            res matches Ok(data) ==> data == CustomCursorData::of(*cursor) && data.buffer_fits()
                && data.file_len == cursor.bgra_bytes@.len() && data.pool_size
                == cursor.bgra_bytes@.len() && data.stride == cursor.w * 4,
            res matches Err(e) ==> e == BadCursor::OtherError,
    {
        let len: usize = cursor.bgra_bytes.len();
        if len > i32::MAX as usize {
            return Err(BadCursor::OtherError);
        }
        if cursor.hot_x < 0 || cursor.hot_x >= cursor.w || cursor.hot_y < 0 || cursor.hot_y
            >= cursor.h {
            return Err(BadCursor::OtherError);
        }
        assert(0 <= cursor.w * cursor.h <= 0x7fff_ffff * 0x7fff_ffff) by (nonlinear_arith)
            requires
                0 <= cursor.w <= 0x7fff_ffff,
                0 <= cursor.h <= 0x7fff_ffff,
        ;
        let pixels: i64 = (cursor.w as i64) * (cursor.h as i64);
        if len % 4 != 0 || pixels != (len / 4) as i64 {
            return Err(BadCursor::OtherError);
        }
        assert(cursor.w * cursor.h >= cursor.w && (cursor.w * 4) * cursor.h == cursor.w * cursor.h
            * 4) by (nonlinear_arith)
            requires
                0 <= cursor.w,
                1 <= cursor.h,
        ;
        Ok(
            CustomCursorData {
                file_len: len as u64,
                pool_size: len as i32,
                offset: 0,
                stride: cursor.w * 4,
                format: Format::Argb8888,
                w: cursor.w,
                h: cursor.h,
                hot_x: cursor.hot_x,
                hot_y: cursor.hot_y,
            },
        )
    }
}

} // verus!
