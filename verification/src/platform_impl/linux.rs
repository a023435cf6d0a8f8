//! Linux: one cursor for both windowing systems, since it is not known in
//! advance which of them the event loop will use.

use crate::cursor::{BadCursor, CustomCursor};
use crate::platform_impl::wayland::WaylandCustomCursor;
use std::sync::Arc;
use vstd::prelude::*;

verus! {

/// `Arc::clone`: it returns another handle to the same shared value, so
/// what the new handle points to is what the old one points to.
#[verifier::external_body]
fn share<T>(shared: &Arc<T>) -> (handle: Arc<T>)
    ensures
        handle == *shared,
{
    Arc::clone(shared)
}

/// A custom cursor on Linux: its Wayland form, and its X11 resource where
/// X11 is available. `X` is the type of the X11 resource. Both are shared
/// between the copies of a cursor.
#[derive(Debug)]
pub struct LinuxCustomCursor<X> {
    pub wayland: Arc<WaylandCustomCursor>,
    /// `None` where X11 is not available.
    pub x11: Option<Arc<X>>,
}

impl<X> Clone for LinuxCustomCursor<X> {
    /// A copy that shares both forms with this cursor.
    fn clone(&self) -> (res: Self)
        ensures
            res == *self,
    {
        let x11 = match &self.x11 {
            Some(resource) => Some(share(resource)),
            None => None,
        };
        LinuxCustomCursor { wayland: share(&self.wayland), x11 }
    }
}

/// What the attempt to create the X11 resource of a cursor gave.
#[derive(Debug)]
pub enum X11Attempt<X> {
    /// The resource was created.
    Created(X),
    /// X11 is not available, so no attempt could be made.
    Unavailable,
    /// X11 is available, but a native allocation failed with this error.
    Failed(std::io::Error),
}

impl<X> LinuxCustomCursor<X> {
    /// Puts together the cursor from its validated image and from what the
    /// attempt to create its X11 resource gave. That X11 is not available
    /// is no failure: the cursor is then without an X11 resource. A native
    /// allocation that failed is reported as `OsError` with its error.
    /// Otherwise it fails with `OtherError` exactly when a dimension does
    /// not fit Wayland's signed integers.
    pub fn from_cursor(cursor: CustomCursor, x11: X11Attempt<X>) -> (res: Result<Self, BadCursor>)
        ensures
            match x11 {
                X11Attempt::Failed(error) => res == Err::<Self, BadCursor>(
                    BadCursor::OsError(error),
                ),
                X11Attempt::Created(resource) => {
                    &&& res is Ok <==> cursor@.width <= i32::MAX && cursor@.height <= i32::MAX
                    &&& res matches Ok(linux) ==> linux.wayland.encodes(cursor@)
                        && linux.wayland.wf() && linux.x11 == Some(Arc::new(resource))
                    &&& res matches Err(e) ==> e == BadCursor::OtherError
                },
                X11Attempt::Unavailable => {
                    &&& res is Ok <==> cursor@.width <= i32::MAX && cursor@.height <= i32::MAX
                    &&& res matches Ok(linux) ==> linux.wayland.encodes(cursor@)
                        && linux.wayland.wf() && linux.x11 is None
                    &&& res matches Err(e) ==> e == BadCursor::OtherError
                },
            },
    {
        let x11 = match x11 {
            X11Attempt::Failed(error) => {
                return Err(BadCursor::OsError(error));
            },
            X11Attempt::Created(resource) => Some(Arc::new(resource)),
            X11Attempt::Unavailable => None,
        };
        let wayland = match WaylandCustomCursor::from_cursor(cursor) {
            Ok(wayland) => wayland,
            Err(e) => {
                return Err(e);
            },
        };
        Ok(LinuxCustomCursor { wayland: Arc::new(wayland), x11 })
    }
}

} // verus!
