//! The backend-independent part: the error model, the validator and the
//! validated cursor image that every backend encoder starts from.

use crate::text::{decimal, push_decimal};
use vstd::prelude::*;
use vstd::string::*;

verus! {

/// Bytes per pixel of a 32 bits-per-pixel RGBA buffer.
pub const PIXEL_SIZE: usize = 4;

/// `std::io::Error`. Operating-system errors are carried through
/// unchanged; nothing is known about what is inside one.
#[verifier::external_type_specification]
#[verifier::external_body]
pub struct ExIoError(std::io::Error);

/// An error produced when a cursor is built from invalid arguments, or when
/// the platform fails to create it.
#[derive(Debug)]
pub enum BadCursor {
    /// The length of the `rgba` argument isn't divisible by 4, so it can't be
    /// interpreted as 32bpp RGBA pixels.
    ByteCountNotDivisibleBy4 { byte_count: usize },
    /// The number of pixels (`rgba.len() / 4`) isn't equal to `width * height`.
    DimensionsVsPixelCount { width: u32, height: u32, width_x_height: u64, pixel_count: usize },
    /// The hotspot is outside the image bounds.
    HotspotOutOfBounds { width: u32, height: u32, hotspot_x: u32, hotspot_y: u32 },
    /// Underlying OS functionality failed to create the image.
    OsError(std::io::Error),
    /// A backend could not encode the image for a reason not covered above.
    OtherError,
}

/// The text that the `Debug` implementation of `std::io::Error` gives for
/// an operating-system error. What it says depends on the platform, so
/// nothing is claimed about it.
#[verifier::external_body]
fn os_error_text(error: &std::io::Error) -> (text: String) {
    format!("{error:?}")
}

/// The message for a byte count that is not divisible by 4.
pub open spec fn byte_count_message(byte_count: usize) -> Seq<char> {
    "The length of the `rgba` argument ("@ + decimal(byte_count as nat)
        + ") isn't divisible by 4, making it impossible to interpret as 32bpp RGBA pixels."@
}

/// The message for dimensions that do not match the pixel count.
pub open spec fn dimensions_message(
    width: u32,
    height: u32,
    width_x_height: u64,
    pixel_count: usize,
) -> Seq<char> {
    "The specified dimensions ("@ + decimal(width as nat) + "x"@ + decimal(height as nat)
        + ") don't match the number of pixels supplied by the `rgba` argument ("@ + decimal(
        pixel_count as nat,
    ) + "). For those dimensions, the expected pixel count is "@ + decimal(width_x_height as nat)
        + "."@
}

/// The message for a hotspot outside the image.
pub open spec fn hotspot_message(width: u32, height: u32, hotspot_x: u32, hotspot_y: u32) -> Seq<
    char,
> {
    "The specified hotspot ("@ + decimal(hotspot_x as nat) + ", "@ + decimal(hotspot_y as nat)
        + ") is outside the image bounds ("@ + decimal(width as nat) + "x"@ + decimal(
        height as nat,
    ) + ")."@
}

impl BadCursor {
    /// Describes the error for a human reader.
    pub fn message(&self) -> (text: String)
        ensures
            match *self {
                BadCursor::ByteCountNotDivisibleBy4 { byte_count } => text@ == byte_count_message(
                    byte_count,
                ),
                BadCursor::DimensionsVsPixelCount {
                    width,
                    height,
                    width_x_height,
                    pixel_count,
                } => text@ == dimensions_message(width, height, width_x_height, pixel_count),
                BadCursor::HotspotOutOfBounds { width, height, hotspot_x, hotspot_y } => text@
                    == hotspot_message(width, height, hotspot_x, hotspot_y),
                BadCursor::OsError(_) => exists|detail: Seq<char>|
                    text@ == "OS error when instantiating the image: "@ + detail,
                BadCursor::OtherError => text@ == "Other error"@,
            },
    {
        let mut text = String::new();
        match self {
            BadCursor::ByteCountNotDivisibleBy4 { byte_count } => {
                text.append("The length of the `rgba` argument (");
                push_decimal(&mut text, *byte_count as u64);
                text.append(
                    ") isn't divisible by 4, making it impossible to interpret as 32bpp RGBA pixels.",
                );
            },
            BadCursor::DimensionsVsPixelCount { width, height, width_x_height, pixel_count } => {
                text.append("The specified dimensions (");
                push_decimal(&mut text, *width as u64);
                text.append("x");
                push_decimal(&mut text, *height as u64);
                text.append(
                    ") don't match the number of pixels supplied by the `rgba` argument (",
                );
                push_decimal(&mut text, *pixel_count as u64);
                text.append("). For those dimensions, the expected pixel count is ");
                push_decimal(&mut text, *width_x_height);
                text.append(".");
                assert(text@ =~= dimensions_message(
                    *width,
                    *height,
                    *width_x_height,
                    *pixel_count,
                ));
            },
            BadCursor::HotspotOutOfBounds { width, height, hotspot_x, hotspot_y } => {
                text.append("The specified hotspot (");
                push_decimal(&mut text, *hotspot_x as u64);
                text.append(", ");
                push_decimal(&mut text, *hotspot_y as u64);
                text.append(") is outside the image bounds (");
                push_decimal(&mut text, *width as u64);
                text.append("x");
                push_decimal(&mut text, *height as u64);
                text.append(").");
            },
            BadCursor::OsError(error) => {
                text.append("OS error when instantiating the image: ");
                let detail = os_error_text(error);
                text.append(detail.as_str());
            },
            BadCursor::OtherError => {
                text.append("Other error");
            },
        }
        text
    }
}

/// The rule on pixel data that a buffer of `len` bytes with the given
/// dimensions breaks, if any: first that its length is divisible by 4, then
/// that it holds `width * height` pixels.
pub open spec fn pixel_data_error(len: nat, width: u32, height: u32) -> Option<BadCursor> {
    if len % 4 != 0 {
        Some(BadCursor::ByteCountNotDivisibleBy4 { byte_count: len as usize })
    } else if len / 4 != width * height {
        Some(
            BadCursor::DimensionsVsPixelCount {
                width,
                height,
                width_x_height: (width * height) as u64,
                pixel_count: (len / 4) as usize,
            },
        )
    } else {
        None
    }
}

/// The first rule that a buffer of `len` bytes with the given dimensions and
/// hotspot breaks, if any. The rules are checked in a fixed order: byte
/// count, then pixel count against the dimensions, then the hotspot.
pub open spec fn cursor_error(
    len: nat,
    width: u32,
    height: u32,
    hotspot_x: u32,
    hotspot_y: u32,
) -> Option<BadCursor> {
    match pixel_data_error(len, width, height) {
        Some(e) => Some(e),
        None => if hotspot_x >= width || hotspot_y >= height {
            Some(BadCursor::HotspotOutOfBounds { width, height, hotspot_x, hotspot_y })
        } else {
            None
        },
    }
}

/// A buffer of `len` bytes is a valid cursor image of the given dimensions
/// and hotspot: four bytes for each of `width * height` pixels, and a hotspot
/// that lies inside the image.
pub open spec fn valid_cursor(
    len: nat,
    width: u32,
    height: u32,
    hotspot_x: u32,
    hotspot_y: u32,
) -> bool {
    &&& len == width * height * 4
    &&& hotspot_x < width
    &&& hotspot_y < height
}

/// A buffer breaks no rule exactly when it is a valid cursor image.
pub proof fn lemma_no_error_iff_valid(
    len: nat,
    width: u32,
    height: u32,
    hotspot_x: u32,
    hotspot_y: u32,
)
    ensures
        cursor_error(len, width, height, hotspot_x, hotspot_y) is None <==> valid_cursor(
            len,
            width,
            height,
            hotspot_x,
            hotspot_y,
        ),
{
}

/// The product of two `u32` values fits in a `u64`.
pub proof fn lemma_dimensions_fit(width: u32, height: u32)
    ensures
        0 <= width * height <= u64::MAX,
{
    assert(0 <= width * height <= 0xffff_ffff * 0xffff_ffff) by (nonlinear_arith)
        requires
            0 <= width <= 0xffff_ffff,
            0 <= height <= 0xffff_ffff,
    ;
}

/// Checks that `rgba` holds whole pixels, and as many as the dimensions
/// call for.
pub fn validate_pixel_data(rgba: &[u8], width: u32, height: u32) -> (res: Result<(), BadCursor>)
    ensures
        res == match pixel_data_error(rgba@.len(), width, height) {
            Some(e) => Err::<(), BadCursor>(e),
            None => Ok(()),
        },
        res is Ok <==> rgba@.len() == width * height * 4,
{
    proof {
        lemma_dimensions_fit(width, height);
    }
    if rgba.len() % PIXEL_SIZE != 0 {
        return Err(BadCursor::ByteCountNotDivisibleBy4 { byte_count: rgba.len() });
    }
    let pixel_count: usize = rgba.len() / PIXEL_SIZE;
    let width_x_height: u64 = (width as u64) * (height as u64);
    if pixel_count as u64 != width_x_height {
        return Err(
            BadCursor::DimensionsVsPixelCount { width, height, width_x_height, pixel_count },
        );
    }
    Ok(())
}

/// Checks byte count, pixel count and hotspot, in that order, and reports the
/// first rule that is broken.
pub fn validate_rgba_cursor(
    rgba: &[u8],
    width: u32,
    height: u32,
    hotspot_x: u32,
    hotspot_y: u32,
) -> (res: Result<(), BadCursor>)
    ensures
        res is Ok <==> valid_cursor(rgba@.len(), width, height, hotspot_x, hotspot_y),
        rgba@.len() % 4 != 0 ==> res == Err::<(), BadCursor>(
            BadCursor::ByteCountNotDivisibleBy4 { byte_count: rgba@.len() as usize },
        ),
        rgba@.len() % 4 == 0 && rgba@.len() / 4 != width * height ==> res == Err::<(), BadCursor>(
            BadCursor::DimensionsVsPixelCount {
                width,
                height,
                width_x_height: (width * height) as u64,
                pixel_count: (rgba@.len() / 4) as usize,
            },
        ),
        rgba@.len() == width * height * 4 && (hotspot_x >= width || hotspot_y >= height) ==> res
            == Err::<(), BadCursor>(
            BadCursor::HotspotOutOfBounds { width, height, hotspot_x, hotspot_y },
        ),
        res == match cursor_error(rgba@.len(), width, height, hotspot_x, hotspot_y) {
            Some(e) => Err::<(), BadCursor>(e),
            None => Ok(()),
        },
{
    match validate_pixel_data(rgba, width, height) {
        Err(e) => {
            return Err(e);
        },
        Ok(()) => {},
    }
    if hotspot_x >= width || hotspot_y >= height {
        return Err(BadCursor::HotspotOutOfBounds { width, height, hotspot_x, hotspot_y });
    }
    Ok(())
}

/// What a cursor image is made of: its pixel bytes in RGBA order, its
/// dimensions and its hotspot.
pub ghost struct RgbaImage {
    pub rgba: Seq<u8>,
    pub width: u32,
    pub height: u32,
    pub hotspot_x: u32,
    pub hotspot_y: u32,
}

impl RgbaImage {
    /// The image has four bytes per pixel and its hotspot lies inside it.
    pub open spec fn valid(self) -> bool {
        valid_cursor(self.rgba.len(), self.width, self.height, self.hotspot_x, self.hotspot_y)
    }
}

/// A cursor image that has passed validation. Every value of this type is a
/// valid image, so the backend encoders can rely on it without checking again.
#[derive(Debug)]
pub struct CustomCursor {
    rgba: Vec<u8>,
    width: u32,
    height: u32,
    hotspot_x: u32,
    hotspot_y: u32,
}

impl View for CustomCursor {
    type V = RgbaImage;

    closed spec fn view(&self) -> RgbaImage {
        RgbaImage {
            rgba: self.rgba@,
            width: self.width,
            height: self.height,
            hotspot_x: self.hotspot_x,
            hotspot_y: self.hotspot_y,
        }
    }
}

impl CustomCursor {
    #[verifier::type_invariant]
    spec fn well_formed(self) -> bool {
        self@.valid()
    }

    /// Validates the arguments and, if they describe an image, keeps them.
    /// Otherwise reports the first rule that is broken.
    pub fn from_rgba(
        rgba: Vec<u8>,
        width: u32,
        height: u32,
        hotspot_x: u32,
        hotspot_y: u32,
    ) -> (res: Result<Self, BadCursor>)
        ensures
            res is Ok <==> valid_cursor(rgba@.len(), width, height, hotspot_x, hotspot_y),
            match cursor_error(rgba@.len(), width, height, hotspot_x, hotspot_y) {
                Some(e) => res == Err::<Self, BadCursor>(e),
                None => res is Ok && res->Ok_0@ == (RgbaImage {
                    rgba: rgba@,
                    width,
                    height,
                    hotspot_x,
                    hotspot_y,
                }),
            },
    {
        match validate_rgba_cursor(rgba.as_slice(), width, height, hotspot_x, hotspot_y) {
            Err(e) => Err(e),
            Ok(()) => Ok(CustomCursor { rgba, width, height, hotspot_x, hotspot_y }),
        }
    }
}

impl CustomCursor {
    /// The pixel bytes, in RGBA order.
    pub fn rgba(&self) -> (bytes: &Vec<u8>)
        ensures
            bytes@ == self@.rgba,
            self@.valid(),
    {
        proof {
            use_type_invariant(self);
        }
        &self.rgba
    }

    /// The pixel bytes, in RGBA order, without the rest of the cursor.
    pub fn into_rgba(self) -> (bytes: Vec<u8>)
        ensures
            bytes@ == self@.rgba,
            self@.valid(),
    {
        proof {
            use_type_invariant(&self);
        }
        self.rgba
    }

    /// The width of the image in pixels.
    pub fn width(&self) -> (width: u32)
        ensures
            width == self@.width,
            self@.valid(),
    {
        proof {
            use_type_invariant(self);
        }
        self.width
    }

    /// The height of the image in pixels.
    pub fn height(&self) -> (height: u32)
        ensures
            height == self@.height,
            self@.valid(),
    {
        proof {
            use_type_invariant(self);
        }
        self.height
    }

    /// The column of the pixel that tracks the pointer position.
    pub fn hotspot_x(&self) -> (hotspot_x: u32)
        ensures
            hotspot_x == self@.hotspot_x,
            self@.valid(),
    {
        proof {
            use_type_invariant(self);
        }
        self.hotspot_x
    }

    /// The row of the pixel that tracks the pointer position.
    pub fn hotspot_y(&self) -> (hotspot_y: u32)
        ensures
            hotspot_y == self@.hotspot_y,
            self@.valid(),
    {
        proof {
            use_type_invariant(self);
        }
        self.hotspot_y
    }
}

impl Clone for CustomCursor {
    /// A copy that describes the same image.
    fn clone(&self) -> (res: Self)
        ensures
            res@ == self@,
    {
        proof {
            use_type_invariant(self);
        }
        let rgba = self.rgba.clone();
        CustomCursor {
            rgba,
            width: self.width,
            height: self.height,
            hotspot_x: self.hotspot_x,
            hotspot_y: self.hotspot_y,
        }
    }
}

/// The cursor of a platform without custom cursors: the arguments are
/// validated and nothing is kept.
#[derive(Debug, Clone, Copy)]
pub struct NoCustomCursor;

impl NoCustomCursor {
    /// Validates the arguments as `CustomCursor::from_rgba` does.
    pub fn from_rgba(
        rgba: Vec<u8>,
        width: u32,
        height: u32,
        hotspot_x: u32,
        hotspot_y: u32,
    ) -> (res: Result<Self, BadCursor>)
        ensures
            res is Ok <==> valid_cursor(rgba@.len(), width, height, hotspot_x, hotspot_y),
            match cursor_error(rgba@.len(), width, height, hotspot_x, hotspot_y) {
                Some(e) => res == Err::<Self, BadCursor>(e),
                None => res == Ok::<Self, BadCursor>(NoCustomCursor),
            },
    {
        match validate_rgba_cursor(rgba.as_slice(), width, height, hotspot_x, hotspot_y) {
            Err(e) => Err(e),
            Ok(()) => Ok(NoCustomCursor),
        }
    }
}

} // verus!
