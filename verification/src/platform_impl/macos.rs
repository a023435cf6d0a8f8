//! AppKit: the contents of a bitmap image representation.

use crate::cursor::{BadCursor, CustomCursor, RgbaImage};
use vstd::prelude::*;

verus! {

/// What goes into a 32 bits-per-pixel RGBA bitmap representation and the
/// cursor made from it: the dimensions and the length of a row as signed
/// 64-bit integers, which is what the API's integers are on every machine
/// that has the API, the hotspot, and the bytes of the backing buffer.
#[derive(Debug)]
pub struct MacosBitmap {
    pub pixels_wide: i64,
    pub pixels_high: i64,
    pub bytes_per_row: i64,
    pub hotspot_x: u32,
    pub hotspot_y: u32,
    pub bitmap_data: Vec<u8>,
}

impl MacosBitmap {
    /// This is the bitmap of `image`: same dimensions and hotspot, rows of
    /// four bytes per pixel, and the pixel bytes as they are, in RGBA order.
    pub open spec fn encodes(self, image: RgbaImage) -> bool {
        &&& self.pixels_wide == image.width
        &&& self.pixels_high == image.height
        &&& self.bytes_per_row == image.width * 4
        &&& self.hotspot_x == image.hotspot_x
        &&& self.hotspot_y == image.hotspot_y
        &&& self.bitmap_data@ == image.rgba
    }

    /// Converts the cursor's dimensions and keeps its pixels unchanged.
    /// This succeeds for every cursor.
    pub fn from_cursor(cursor: CustomCursor) -> (res: Result<MacosBitmap, BadCursor>)
        ensures
            res matches Ok(bitmap) && bitmap.encodes(cursor@) && bitmap.bitmap_data@.len()
                == bitmap.bytes_per_row * bitmap.pixels_high,
    {
        let width = cursor.width();
        let height = cursor.height();
        let hotspot_x = cursor.hotspot_x();
        let hotspot_y = cursor.hotspot_y();
        let bitmap_data = cursor.into_rgba();
        assert((width * 4) * height == width * height * 4) by (nonlinear_arith);
        Ok(
            MacosBitmap {
                pixels_wide: width as i64,
                pixels_high: height as i64,
                bytes_per_row: (width as i64) * 4,
                hotspot_x,
                hotspot_y,
                bitmap_data,
            },
        )
    }
}

} // verus!
