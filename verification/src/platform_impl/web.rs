//! Web: the CSS `cursor` value that shows an image.

use crate::text::{decimal, push_decimal};
use vstd::prelude::*;
use vstd::string::*;

verus! {

/// A custom cursor on the web: the value to assign to the CSS `cursor`
/// property. It is plain text; no native resource stands behind it.
#[derive(Debug)]
pub struct WebCustomCursor {
    pub inner: String,
}

/// The CSS `cursor` value that shows the image at `data_url` with the given
/// hotspot, and falls back to the automatic cursor.
pub open spec fn css_cursor_value(data_url: Seq<char>, hotspot_x: u32, hotspot_y: u32) -> Seq<
    char,
> {
    "url("@ + data_url + ") "@ + decimal(hotspot_x as nat) + " "@ + decimal(hotspot_y as nat)
        + ", auto"@
}

impl WebCustomCursor {
    /// The cursor for an image that has been serialized to `data_url`.
    pub fn from_data_url(data_url: &str, hotspot_x: u32, hotspot_y: u32) -> (cursor: Self)
        ensures
            cursor.inner@ == css_cursor_value(data_url@, hotspot_x, hotspot_y),
    {
        let mut inner = String::new();
        inner.append("url(");
        inner.append(data_url);
        inner.append(") ");
        push_decimal(&mut inner, hotspot_x as u64);
        inner.append(" ");
        push_decimal(&mut inner, hotspot_y as u64);
        inner.append(", auto");
        WebCustomCursor { inner }
    }
}

impl Clone for WebCustomCursor {
    /// A copy with the same text.
    fn clone(&self) -> (res: Self)
        ensures
            res.inner@ == self.inner@,
    {
        WebCustomCursor { inner: self.inner.clone() }
    }
}

} // verus!
