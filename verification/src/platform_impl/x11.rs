//! X11: the contents of an Xcursor image.

use crate::cursor::{BadCursor, CustomCursor, RgbaImage};
use crate::pixel::{argb_words, pack_argb, rgba_to_bgra, swap_red_blue};
use cursor_icon::CursorIcon;
use vstd::prelude::*;

verus! {

/// The fields of a native Xcursor image: its dimensions as the C library
/// takes them, its hotspot, its delay and one ARGB word per pixel.
#[derive(Debug)]
pub struct XcursorImage {
    pub width: i32,
    pub height: i32,
    pub xhot: u32,
    pub yhot: u32,
    pub delay: u32,
    pub pixels: Vec<u32>,
}

impl XcursorImage {
    /// This is the Xcursor image of `image`: same dimensions and hotspot, no
    /// delay, and each pixel as one ARGB word.
    pub open spec fn encodes(self, image: RgbaImage) -> bool {
        &&& self.width == image.width
        &&& self.height == image.height
        &&& self.xhot == image.hotspot_x
        &&& self.yhot == image.hotspot_y
        &&& self.delay == 0
        &&& self.pixels@ == argb_words(swap_red_blue(image.rgba))
    }

    /// Encodes a cursor as an Xcursor image. Fails with `OtherError` exactly
    /// when a dimension does not fit the C library's signed integers.
    pub fn from_cursor(cursor: &CustomCursor) -> (res: Result<XcursorImage, BadCursor>)
        ensures
            res is Ok <==> cursor@.width <= i32::MAX && cursor@.height <= i32::MAX,
            res matches Ok(image) ==> image.encodes(cursor@) && image.pixels@.len() == image.width
                * image.height,
            res matches Err(e) ==> e == BadCursor::OtherError,
    {
        let width = cursor.width();
        let height = cursor.height();
        if width > i32::MAX as u32 || height > i32::MAX as u32 {
            return Err(BadCursor::OtherError);
        }
        let mut bgra = cursor.rgba().clone();
        rgba_to_bgra(&mut bgra);
        let pixels = pack_argb(bgra.as_slice());
        Ok(
            XcursorImage {
                width: width as i32,
                height: height as i32,
                xhot: cursor.hotspot_x(),
                yhot: cursor.hotspot_y(),
                delay: 0,
                pixels,
            },
        )
    }
}

/// A named shape, or `None` for the empty cursor that hides the pointer.
pub type Shape = Option<CursorIcon>;

/// The name that `CursorIcon::name` gives for a shape: the name of the
/// shape in the CSS standard, under which cursor themes hold its image.
pub uninterp spec fn shape_name(icon: CursorIcon) -> Seq<char>;

/// `cursor_icon::CursorIcon::name`: it returns a fixed name for each shape,
/// which is all that is claimed of it here.
pub assume_specification[ CursorIcon::name ](icon: &CursorIcon) -> (name: &'static str)
    ensures
        name@ == shape_name(*icon),
;

/// Where the native cursor of a shape comes from.
#[derive(Debug, Clone, Copy)]
pub enum ShapeSource {
    /// An empty one-pixel cursor has to be made.
    Empty,
    /// The cursor theme has it under this name.
    Named(&'static str),
}

/// Decides how the native cursor of a shape is obtained: a named shape is
/// loaded from the cursor theme under its name, and no shape at all is an
/// empty cursor.
pub fn shape_source(shape: Shape) -> (source: ShapeSource)
    ensures
        match shape {
            None => source is Empty,
            Some(icon) => source matches ShapeSource::Named(name) && name@ == shape_name(icon),
        },
{
    match shape {
        None => ShapeSource::Empty,
        Some(icon) => ShapeSource::Named(icon.name()),
    }
}

/// Whether two shapes are the same.
fn same_shape(a: &Shape, b: &Shape) -> (res: bool)
    ensures
        res == (*a == *b),
{
    match (a, b) {
        (Some(x), Some(y)) => *x == *y,
        (None, None) => true,
        _ => false,
    }
}

/// Some entry of `entries` has the shape `shape`.
spec fn has_shape(entries: Seq<(Shape, u64)>, shape: Shape) -> bool {
    exists|i: int| 0 <= i < entries.len() && (#[trigger] entries[i]).0 == shape
}

/// The position of an entry of `entries` with the shape `shape`.
spec fn position_of(entries: Seq<(Shape, u64)>, shape: Shape) -> int {
    choose|i: int| 0 <= i < entries.len() && (#[trigger] entries[i]).0 == shape
}

/// No two entries of `entries` have the same shape.
spec fn distinct_shapes(entries: Seq<(Shape, u64)>) -> bool {
    forall|i: int, j: int|
        0 <= i < j < entries.len() ==> (#[trigger] entries[i]).0 != (#[trigger] entries[j]).0
}

/// The native cursors of the built-in shapes that a display connection has
/// loaded so far. A shape is loaded when it is first used and kept from
/// then on; nothing is ever taken out.
#[derive(Debug)]
pub struct ShapeCache {
    entries: Vec<(Shape, u64)>,
}

impl View for ShapeCache {
    type V = Map<Shape, u64>;

    closed spec fn view(&self) -> Map<Shape, u64> {
        Map::new(
            |shape: Shape| has_shape(self.entries@, shape),
            |shape: Shape| self.entries@[position_of(self.entries@, shape)].1,
        )
    }
}

impl ShapeCache {
    /// No shape has two cursors. Every cache that this module hands out
    /// is well formed.
    pub closed spec fn wf(&self) -> bool {
        distinct_shapes(self.entries@)
    }

    /// A cache without cursors.
    pub fn new() -> (cache: Self)
        ensures
            cache.wf(),
            cache@ == Map::<Shape, u64>::empty(),
    {
        let cache = ShapeCache { entries: Vec::new() };
        cache
    }

    /// The cursor loaded for `shape`, if it has been loaded.
    pub fn get(&self, shape: Shape) -> (cursor: Option<u64>)
        requires
            self.wf(),
        ensures
            cursor == if self@.contains_key(shape) {
                Some(self@[shape])
            } else {
                None
            },
    {
        let mut i: usize = 0;
        while i < self.entries.len()
            invariant
                i <= self.entries@.len(),
                distinct_shapes(self.entries@),
                forall|j: int| 0 <= j < i ==> (#[trigger] self.entries@[j]).0 != shape,
            decreases self.entries@.len() - i,
        {
            if same_shape(&self.entries[i].0, &shape) {
                return Some(self.entries[i].1);
            }
            i = i + 1;
        }
        None
    }

    /// The cursor to use for `shape`: the one already loaded for it, or
    /// else `loaded`, which is kept for the next time.
    pub fn or_insert(&mut self, shape: Shape, loaded: u64) -> (cursor: u64)
        requires
            old(self).wf(),
        ensures
            final(self).wf(),
            old(self)@.contains_key(shape) ==> final(self)@ == old(self)@ && cursor == old(
                self,
            )@[shape],
            !old(self)@.contains_key(shape) ==> final(self)@ == old(self)@.insert(shape, loaded)
                && cursor == loaded,
    {
        match self.get(shape) {
            Some(cursor) => cursor,
            None => {
                let ghost before = self.entries@;
                self.entries.push((shape, loaded));
                proof {
                    let after = self.entries@;
                    assert(after[before.len() as int].0 == shape);
                    assert forall|k: Shape| has_shape(after, k) <==> (k == shape || has_shape(
                        before,
                        k,
                    )) by {
                        if has_shape(before, k) {
                            assert(after[position_of(before, k)].0 == k);
                        }
                    }
                }
                loaded
            },
        }
    }
}

} // verus!
