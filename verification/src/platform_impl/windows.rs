//! Win32: the mask and color bitmaps of a cursor or an icon.

use crate::cursor::{pixel_data_error, validate_pixel_data, BadCursor, CustomCursor, RgbaImage};
use crate::pixel::{rgba_to_bgra, swap_red_blue, Pixel};
use vstd::prelude::*;
use windows_sys::Win32::UI::WindowsAndMessaging::ICONINFO;

verus! {

/// `windows_sys::Win32::UI::WindowsAndMessaging::ICONINFO`, the native
/// icon-info structure: whether it describes an icon or a cursor, the
/// hotspot, and the handles of the mask and color bitmaps. Its fields are
/// public integers, and all of them are known here.
#[verifier::external_type_specification]
pub struct ExIconInfo(ICONINFO);

/// The bytes that one row of a cursor's 1-bit mask takes: one bit per
/// pixel, rounded up to whole bytes.
pub open spec fn mask_row_bytes(width: int) -> int {
    (width + 7) / 8
}

/// The bytes of a cursor's whole 1-bit mask.
pub open spec fn mask_len(width: int, height: int) -> int {
    mask_row_bytes(width) * height
}

/// The bytes of one scan line of the mask as the native bitmap call reads
/// it: a row of the mask, padded to whole 16-bit words.
pub open spec fn mask_scanline_bytes(width: int) -> int {
    2 * ((width + 15) / 16)
}

/// The bytes of all scan lines of the mask.
pub open spec fn mask_scanlines_len(width: int, height: int) -> int {
    mask_scanline_bytes(width) * height
}

/// A mask of `len` bytes with every bit set.
pub open spec fn full_mask(len: int) -> Seq<u8> {
    Seq::new(len as nat, |i: int| 0xffu8)
}

/// A row of the mask holds a bit for every pixel of the row and has no
/// byte to spare. A scan line holds the row, is a whole number of 16-bit
/// words, and is longer than the row by one byte at most.
pub proof fn lemma_mask_row_covers_width(width: int)
    requires
        0 <= width,
    ensures
        width <= mask_row_bytes(width) * 8 < width + 8,
        mask_row_bytes(width) <= mask_scanline_bytes(width) <= mask_row_bytes(width) + 1,
        mask_scanline_bytes(width) % 2 == 0,
{
}

/// The scan lines hold the mask row by row: a byte of a row of the mask is
/// the byte at the same place in the scan line of that row.
pub proof fn lemma_scanlines_hold_mask(width: int, height: int, row: int, byte: int)
    requires
        0 <= width,
        0 <= row < height,
        0 <= byte < mask_row_bytes(width),
    ensures
        0 <= row * mask_row_bytes(width) + byte < mask_len(width, height),
        0 <= row * mask_scanline_bytes(width) + byte < mask_scanlines_len(width, height),
        full_mask(mask_scanlines_len(width, height))[row * mask_scanline_bytes(width) + byte]
            == full_mask(mask_len(width, height))[row * mask_row_bytes(width) + byte],
{
    lemma_mask_row_covers_width(width);
    lemma_row_index_in_range(mask_row_bytes(width), height, row, byte);
    lemma_row_index_in_range(mask_scanline_bytes(width), height, row, byte);
}

/// The place of a byte in a row lies inside a buffer of whole rows.
proof fn lemma_row_index_in_range(row_bytes: int, rows: int, row: int, byte: int)
    requires
        0 <= row < rows,
        0 <= byte < row_bytes,
    ensures
        0 <= row * row_bytes + byte < row_bytes * rows,
{
    assert(0 <= row * row_bytes && row * row_bytes + row_bytes <= row_bytes * rows)
        by (nonlinear_arith)
        requires
            0 <= row < rows,
            0 <= row_bytes,
    ;
}

/// Neither the mask of a valid image nor its scan lines are longer than
/// its pixel data.
pub proof fn lemma_mask_len_bounded(width: int, height: int)
    requires
        1 <= width,
        0 <= height,
    ensures
        0 <= mask_len(width, height) <= mask_scanlines_len(width, height) <= width * height * 4,
{
    assert(0 <= mask_row_bytes(width) * height <= mask_scanline_bytes(width) * height <= (4
        * width) * height) by (nonlinear_arith)
        requires
            0 <= mask_row_bytes(width) <= mask_scanline_bytes(width) <= 4 * width,
            0 <= height,
    ;
    assert((4 * width) * height == width * height * 4) by (nonlinear_arith);
}

/// What goes into the native bitmaps and the icon-info structure of a
/// cursor: dimensions as the API's signed integers, the hotspot, a 1-bit
/// mask with all bits set, the same mask as the scan lines that the native
/// bitmap call reads, and the color bitmap's bits in BGRA order.
#[derive(Debug)]
pub struct WinCursorBitmaps {
    pub width: i32,
    pub height: i32,
    pub hotspot_x: u32,
    pub hotspot_y: u32,
    /// Rows of the width rounded up to whole bytes.
    pub mask_bits: Vec<u8>,
    /// The rows of `mask_bits`, each padded to whole 16-bit words.
    pub mask_scanlines: Vec<u8>,
    pub color_bits: Vec<u8>,
}

impl WinCursorBitmaps {
    /// These are the bitmaps of `image`: same dimensions and hotspot, a
    /// full mask of the length the dimensions call for, its scan lines, and
    /// the pixel bytes with red and blue exchanged.
    pub open spec fn encodes(self, image: RgbaImage) -> bool {
        &&& self.width == image.width
        &&& self.height == image.height
        &&& self.hotspot_x == image.hotspot_x
        &&& self.hotspot_y == image.hotspot_y
        &&& self.mask_bits@ == full_mask(mask_len(image.width as int, image.height as int))
        &&& self.mask_scanlines@ == full_mask(
            mask_scanlines_len(image.width as int, image.height as int),
        )
        &&& self.color_bits@ == swap_red_blue(image.rgba)
    }

    /// The image can be handed to the native API: its dimensions fit signed
    /// 32-bit integers and the length of its pixel data fits an unsigned one.
    pub open spec fn representable(image: RgbaImage) -> bool {
        &&& image.width <= i32::MAX
        &&& image.height <= i32::MAX
        &&& image.rgba.len() <= u32::MAX
    }

    /// Combines the hotspot with the handles of the two bitmaps, once they
    /// have been created, into the description of a cursor (not an icon).
    pub fn icon_info(&self, hbm_mask: isize, hbm_color: isize) -> (info: ICONINFO)
        ensures
            info.fIcon == 0,
            info.xHotspot == self.hotspot_x,
            info.yHotspot == self.hotspot_y,
            info.hbmMask == hbm_mask,
            info.hbmColor == hbm_color,
    {
        ICONINFO {
            fIcon: 0,
            xHotspot: self.hotspot_x,
            yHotspot: self.hotspot_y,
            hbmMask: hbm_mask,
            hbmColor: hbm_color,
        }
    }

    /// Reorders the cursor's pixels to BGRA and builds its mask. Fails with
    /// `OtherError` exactly when the image is not representable.
    pub fn from_cursor(cursor: CustomCursor) -> (res: Result<WinCursorBitmaps, BadCursor>)
        ensures
            res is Ok <==> Self::representable(cursor@),
            res matches Ok(bitmaps) ==> bitmaps.encodes(cursor@) && bitmaps.mask_bits@.len()
                == ((cursor@.width + 7) / 8) * cursor@.height && bitmaps.mask_scanlines@.len() == (2
                * ((cursor@.width + 15) / 16)) * cursor@.height,
            res matches Err(e) ==> e == BadCursor::OtherError,
    {
        let width = cursor.width();
        let height = cursor.height();
        let hotspot_x = cursor.hotspot_x();
        let hotspot_y = cursor.hotspot_y();
        if width > i32::MAX as u32 || height > i32::MAX as u32 || cursor.rgba().len()
            > u32::MAX as usize {
            return Err(BadCursor::OtherError);
        }
        let row_bytes: u32 = (width + 7) / 8;
        let scanline_bytes: u32 = 2 * ((width + 15) / 16);
        proof {
            lemma_mask_len_bounded(width as int, height as int);
        }
        let mask_bits: Vec<u8> = vec![0xffu8; (row_bytes as usize) * (height as usize)];
        let mask_scanlines: Vec<u8> = vec![0xffu8; (scanline_bytes as usize) * (height as usize)];
        assert(mask_bits@ =~= full_mask(mask_len(width as int, height as int)));
        assert(mask_scanlines@ =~= full_mask(mask_scanlines_len(width as int, height as int)));
        let mut color_bits = cursor.into_rgba();
        rgba_to_bgra(&mut color_bits);
        Ok(
            WinCursorBitmaps {
                width: width as i32,
                height: height as i32,
                hotspot_x,
                hotspot_y,
                mask_bits,
                mask_scanlines,
                color_bits,
            },
        )
    }
}

/// The byte of an icon's AND mask for a pixel with alpha `a`: `a - 255`,
/// wrapping around.
pub open spec fn inverted_alpha(a: u8) -> u8 {
    if a == 255 {
        0
    } else {
        (a + 1) as u8
    }
}

/// One AND-mask byte per whole RGBA pixel of `rgba`.
pub open spec fn icon_and_mask(rgba: Seq<u8>) -> Seq<u8> {
    Seq::new(rgba.len() / 4, |i: int| inverted_alpha(rgba[4 * i + 3]))
}

/// Prepares the pixel data of an icon: reorders `rgba` to BGRA in place and
/// returns the AND mask made from its alpha channel. Bytes after the last
/// whole pixel are left alone.
pub fn into_icon_bitmaps(rgba: &mut Vec<u8>) -> (and_mask: Vec<u8>)
    ensures
        final(rgba)@ == swap_red_blue(old(rgba)@),
        and_mask@ == icon_and_mask(old(rgba)@),
{
    let pixel_count: usize = rgba.len() / 4;
    let mut and_mask: Vec<u8> = Vec::with_capacity(pixel_count);
    let mut i: usize = 0;
    while i < pixel_count
        invariant
            i <= pixel_count,
            pixel_count == old(rgba)@.len() / 4,
            old(rgba)@.len() <= usize::MAX,
            rgba@.len() == old(rgba)@.len(),
            and_mask@.len() == i,
            forall|j: int| 0 <= j < i ==> and_mask@[j] == icon_and_mask(old(rgba)@)[j],
            forall|j: int| 0 <= j < 4 * i ==> rgba@[j] == swap_red_blue(old(rgba)@)[j],
            forall|j: int| 4 * i <= j < rgba@.len() ==> rgba@[j] == old(rgba)@[j],
        decreases pixel_count - i,
    {
        let mut pixel = Pixel {
            r: rgba[4 * i],
            g: rgba[4 * i + 1],
            b: rgba[4 * i + 2],
            a: rgba[4 * i + 3],
        };
        and_mask.push(pixel.a.wrapping_sub(u8::MAX));
        pixel.convert_to_bgra();
        rgba.set(4 * i, pixel.r);
        rgba.set(4 * i + 2, pixel.b);
        i = i + 1;
    }
    and_mask
}

/// What goes into the native call that creates an icon: dimensions as the
/// API's signed integers, the AND mask, and the XOR bits in BGRA order.
#[derive(Debug)]
pub struct WinIconBitmaps {
    pub width: i32,
    pub height: i32,
    pub and_mask: Vec<u8>,
    pub color_bits: Vec<u8>,
}

impl WinIconBitmaps {
    /// The rule that pixel data of an icon breaks, if any: the rules of a
    /// cursor's pixel data without the one on the hotspot, and that the
    /// dimensions fit the API's signed integers.
    pub open spec fn icon_error(len: nat, width: u32, height: u32) -> Option<BadCursor> {
        match pixel_data_error(len, width, height) {
            Some(e) => Some(e),
            None => if width > i32::MAX || height > i32::MAX {
                Some(BadCursor::OtherError)
            } else {
                None
            },
        }
    }

    /// Validates the pixel data of an icon and prepares its bitmaps: the
    /// AND mask from the alpha channel, and the pixels reordered to BGRA.
    pub fn from_rgba(rgba: Vec<u8>, width: u32, height: u32) -> (res: Result<
        WinIconBitmaps,
        BadCursor,
    >)
        ensures
            match Self::icon_error(rgba@.len(), width, height) {
                Some(e) => res == Err::<WinIconBitmaps, BadCursor>(e),
                None => res matches Ok(bitmaps) && bitmaps.width == width && bitmaps.height
                    == height && bitmaps.and_mask@ == icon_and_mask(rgba@) && bitmaps.color_bits@
                    == swap_red_blue(rgba@) && bitmaps.and_mask@.len() == width * height,
            },
    {
        let mut color_bits = rgba;
        match validate_pixel_data(color_bits.as_slice(), width, height) {
            Err(e) => {
                return Err(e);
            },
            Ok(()) => {},
        }
        if width > i32::MAX as u32 || height > i32::MAX as u32 {
            return Err(BadCursor::OtherError);
        }
        let and_mask = into_icon_bitmaps(&mut color_bits);
        Ok(WinIconBitmaps { width: width as i32, height: height as i32, and_mask, color_bits })
    }
}

} // verus!
