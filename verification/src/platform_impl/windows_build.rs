//! Win32: the order of the native calls that turn a cursor's bitmaps into a
//! cursor handle, and what is released on the way. The calls themselves are
//! made by the caller; this module decides, from what each call returned,
//! which call comes next, so that every object that was acquired is released
//! again whether the cursor could be made or not.

use crate::cursor::BadCursor;
use vstd::prelude::*;

verus! {

/// Where the construction of a cursor stands. Each state names the
/// handles that are held in it.
#[derive(Debug)]
pub enum CursorBuild {
    /// Nothing has been created yet.
    Start,
    /// The mask bitmap exists.
    MaskCreated { hbm_mask: isize },
    /// The screen's device context has been acquired as well.
    DcAcquired { hbm_mask: isize, hdc: isize },
    /// The color bitmap exists as well.
    ColorCreated { hbm_mask: isize, hdc: isize, hbm_color: isize },
    /// The color bitmap has its bits.
    BitsSet { hbm_mask: isize, hdc: isize, hbm_color: isize },
    /// The device context has been given back.
    DcReleased { hbm_mask: isize, hbm_color: isize },
    /// The cursor has been asked for; both bitmaps are still held.
    IconRequested { hbm_mask: isize, hbm_color: isize, outcome: Result<isize, std::io::Error> },
    /// The color bitmap could not be created; mask and device context are
    /// still held.
    ColorFailed { hbm_mask: isize, hdc: isize, error: std::io::Error },
    /// Only the mask bitmap is still held; the outcome is settled.
    MaskLeft { hbm_mask: isize, outcome: Result<isize, std::io::Error> },
    /// Nothing is held any more.
    Finished { outcome: Result<isize, std::io::Error> },
}

/// The native objects that a construction may hold.
pub ghost enum NativeObject {
    MaskBitmap,
    DeviceContext,
    ColorBitmap,
}

/// A native call for the caller to make.
#[derive(Debug, Clone, Copy, PartialEq, Eq, Structural)]
pub enum NativeCall {
    /// Create the 1-bit mask bitmap from the mask bits.
    CreateMaskBitmap,
    /// Acquire the device context of the screen.
    GetDc,
    /// Create a color bitmap compatible with the device context.
    CreateColorBitmap { hdc: isize },
    /// Copy the BGRA bits into the color bitmap.
    SetBitmapBits { hbm_color: isize },
    /// Give the device context back.
    ReleaseDc { hdc: isize },
    /// Create the cursor from mask, color bitmap and hotspot.
    CreateIconIndirect { hbm_mask: isize, hbm_color: isize },
    /// Delete a bitmap.
    DeleteObject { handle: isize },
    /// No call is left: take the result.
    Finish,
}

impl CursorBuild {
    /// The objects held in this state.
    pub open spec fn held(self) -> Set<NativeObject> {
        match self {
            CursorBuild::Start => set![],
            CursorBuild::MaskCreated { .. } => set![NativeObject::MaskBitmap],
            CursorBuild::DcAcquired { .. } => set![
                NativeObject::MaskBitmap,
                NativeObject::DeviceContext,
            ],
            CursorBuild::ColorCreated { .. } => set![
                NativeObject::MaskBitmap,
                NativeObject::DeviceContext,
                NativeObject::ColorBitmap,
            ],
            CursorBuild::BitsSet { .. } => set![
                NativeObject::MaskBitmap,
                NativeObject::DeviceContext,
                NativeObject::ColorBitmap,
            ],
            CursorBuild::DcReleased { .. } => set![
                NativeObject::MaskBitmap,
                NativeObject::ColorBitmap,
            ],
            CursorBuild::IconRequested { .. } => set![
                NativeObject::MaskBitmap,
                NativeObject::ColorBitmap,
            ],
            CursorBuild::ColorFailed { .. } => set![
                NativeObject::MaskBitmap,
                NativeObject::DeviceContext,
            ],
            CursorBuild::MaskLeft { .. } => set![NativeObject::MaskBitmap],
            CursorBuild::Finished { .. } => set![],
        }
    }

    /// The handle under which an object is held in this state.
    pub open spec fn handle_of(self, object: NativeObject) -> isize {
        match (self, object) {
            (CursorBuild::MaskCreated { hbm_mask }, NativeObject::MaskBitmap) => hbm_mask,
            (CursorBuild::DcAcquired { hbm_mask, .. }, NativeObject::MaskBitmap) => hbm_mask,
            (CursorBuild::DcAcquired { hdc, .. }, NativeObject::DeviceContext) => hdc,
            (CursorBuild::ColorCreated { hbm_mask, .. }, NativeObject::MaskBitmap) => hbm_mask,
            (CursorBuild::ColorCreated { hdc, .. }, NativeObject::DeviceContext) => hdc,
            (CursorBuild::ColorCreated { hbm_color, .. }, NativeObject::ColorBitmap) => hbm_color,
            (CursorBuild::BitsSet { hbm_mask, .. }, NativeObject::MaskBitmap) => hbm_mask,
            (CursorBuild::BitsSet { hdc, .. }, NativeObject::DeviceContext) => hdc,
            (CursorBuild::BitsSet { hbm_color, .. }, NativeObject::ColorBitmap) => hbm_color,
            (CursorBuild::DcReleased { hbm_mask, .. }, NativeObject::MaskBitmap) => hbm_mask,
            (CursorBuild::DcReleased { hbm_color, .. }, NativeObject::ColorBitmap) => hbm_color,
            (CursorBuild::IconRequested { hbm_mask, .. }, NativeObject::MaskBitmap) => hbm_mask,
            (CursorBuild::IconRequested { hbm_color, .. }, NativeObject::ColorBitmap) => hbm_color,
            (CursorBuild::ColorFailed { hbm_mask, .. }, NativeObject::MaskBitmap) => hbm_mask,
            (CursorBuild::ColorFailed { hdc, .. }, NativeObject::DeviceContext) => hdc,
            (CursorBuild::MaskLeft { hbm_mask, .. }, NativeObject::MaskBitmap) => hbm_mask,
            _ => 0,
        }
    }

    /// The call to make in this state.
    pub open spec fn call(self) -> NativeCall {
        match self {
            CursorBuild::Start => NativeCall::CreateMaskBitmap,
            CursorBuild::MaskCreated { .. } => NativeCall::GetDc,
            CursorBuild::DcAcquired { hdc, .. } => NativeCall::CreateColorBitmap { hdc },
            CursorBuild::ColorCreated { hbm_color, .. } => NativeCall::SetBitmapBits { hbm_color },
            CursorBuild::BitsSet { hdc, .. } => NativeCall::ReleaseDc { hdc },
            CursorBuild::DcReleased { hbm_mask, hbm_color } => NativeCall::CreateIconIndirect {
                hbm_mask,
                hbm_color,
            },
            CursorBuild::IconRequested { hbm_color, .. } => NativeCall::DeleteObject {
                handle: hbm_color,
            },
            CursorBuild::ColorFailed { hdc, .. } => NativeCall::ReleaseDc { hdc },
            CursorBuild::MaskLeft { hbm_mask, .. } => NativeCall::DeleteObject { handle: hbm_mask },
            CursorBuild::Finished { .. } => NativeCall::Finish,
        }
    }

    /// The object that the call of this state acquires if it succeeds.
    pub open spec fn acquires(self) -> Option<NativeObject> {
        match self {
            CursorBuild::Start => Some(NativeObject::MaskBitmap),
            CursorBuild::MaskCreated { .. } => Some(NativeObject::DeviceContext),
            CursorBuild::DcAcquired { .. } => Some(NativeObject::ColorBitmap),
            _ => None,
        }
    }

    /// The object that the call of this state releases.
    pub open spec fn releases(self) -> Option<NativeObject> {
        match self {
            CursorBuild::BitsSet { .. } => Some(NativeObject::DeviceContext),
            CursorBuild::ColorFailed { .. } => Some(NativeObject::DeviceContext),
            CursorBuild::IconRequested { .. } => Some(NativeObject::ColorBitmap),
            CursorBuild::MaskLeft { .. } => Some(NativeObject::MaskBitmap),
            _ => None,
        }
    }

    /// The state after the call of this state has returned `returned`, with
    /// `os_error` being the last error of the operating system at that
    /// moment. A call that creates or acquires something has failed when it
    /// returned 0; what the other calls return is not looked at.
    pub open spec fn after(self, returned: isize, os_error: std::io::Error) -> CursorBuild {
        match self {
            CursorBuild::Start => if returned == 0 {
                CursorBuild::Finished { outcome: Err(os_error) }
            } else {
                CursorBuild::MaskCreated { hbm_mask: returned }
            },
            CursorBuild::MaskCreated { hbm_mask } => if returned == 0 {
                CursorBuild::MaskLeft { hbm_mask, outcome: Err(os_error) }
            } else {
                CursorBuild::DcAcquired { hbm_mask, hdc: returned }
            },
            CursorBuild::DcAcquired { hbm_mask, hdc } => if returned == 0 {
                CursorBuild::ColorFailed { hbm_mask, hdc, error: os_error }
            } else {
                CursorBuild::ColorCreated { hbm_mask, hdc, hbm_color: returned }
            },
            CursorBuild::ColorCreated { hbm_mask, hdc, hbm_color } => CursorBuild::BitsSet {
                hbm_mask,
                hdc,
                hbm_color,
            },
            CursorBuild::BitsSet { hbm_mask, hdc, hbm_color } => CursorBuild::DcReleased {
                hbm_mask,
                hbm_color,
            },
            CursorBuild::DcReleased { hbm_mask, hbm_color } => CursorBuild::IconRequested {
                hbm_mask,
                hbm_color,
                outcome: if returned == 0 {
                    Err(os_error)
                } else {
                    Ok(returned)
                },
            },
            CursorBuild::IconRequested { hbm_mask, hbm_color, outcome } => CursorBuild::MaskLeft {
                hbm_mask,
                outcome,
            },
            CursorBuild::ColorFailed { hbm_mask, hdc, error } => CursorBuild::MaskLeft {
                hbm_mask,
                outcome: Err(error),
            },
            CursorBuild::MaskLeft { hbm_mask, outcome } => CursorBuild::Finished { outcome },
            CursorBuild::Finished { outcome } => CursorBuild::Finished { outcome },
        }
    }

    /// The number of calls that are still to be made, at most.
    pub open spec fn calls_left(self) -> nat {
        match self {
            CursorBuild::Start => 8,
            CursorBuild::MaskCreated { .. } => 7,
            CursorBuild::DcAcquired { .. } => 6,
            CursorBuild::ColorCreated { .. } => 5,
            CursorBuild::BitsSet { .. } => 4,
            CursorBuild::DcReleased { .. } => 3,
            CursorBuild::IconRequested { .. } => 2,
            CursorBuild::ColorFailed { .. } => 2,
            CursorBuild::MaskLeft { .. } => 1,
            CursorBuild::Finished { .. } => 0,
        }
    }

    /// A construction that has made no call yet.
    pub fn new() -> (build: Self)
        ensures
            build == CursorBuild::Start,
    {
        CursorBuild::Start
    }

    /// The call to make next.
    pub fn next_call(&self) -> (call: NativeCall)
        ensures
            call == self.call(),
    {
        match self {
            CursorBuild::Start => NativeCall::CreateMaskBitmap,
            CursorBuild::MaskCreated { .. } => NativeCall::GetDc,
            CursorBuild::DcAcquired { hdc, .. } => NativeCall::CreateColorBitmap { hdc: *hdc },
            CursorBuild::ColorCreated { hbm_color, .. } => NativeCall::SetBitmapBits {
                hbm_color: *hbm_color,
            },
            CursorBuild::BitsSet { hdc, .. } => NativeCall::ReleaseDc { hdc: *hdc },
            CursorBuild::DcReleased { hbm_mask, hbm_color } => NativeCall::CreateIconIndirect {
                hbm_mask: *hbm_mask,
                hbm_color: *hbm_color,
            },
            CursorBuild::IconRequested { hbm_color, .. } => NativeCall::DeleteObject {
                handle: *hbm_color,
            },
            CursorBuild::ColorFailed { hdc, .. } => NativeCall::ReleaseDc { hdc: *hdc },
            CursorBuild::MaskLeft { hbm_mask, .. } => NativeCall::DeleteObject {
                handle: *hbm_mask,
            },
            CursorBuild::Finished { .. } => NativeCall::Finish,
        }
    }

    /// Takes what the call of this state returned, and the operating
    /// system's last error at that moment, and moves on.
    pub fn advance(self, returned: isize, os_error: std::io::Error) -> (next: Self)
        ensures
            next == self.after(returned, os_error),
    {
        match self {
            CursorBuild::Start => if returned == 0 {
                CursorBuild::Finished { outcome: Err(os_error) }
            } else {
                CursorBuild::MaskCreated { hbm_mask: returned }
            },
            CursorBuild::MaskCreated { hbm_mask } => if returned == 0 {
                CursorBuild::MaskLeft { hbm_mask, outcome: Err(os_error) }
            } else {
                CursorBuild::DcAcquired { hbm_mask, hdc: returned }
            },
            CursorBuild::DcAcquired { hbm_mask, hdc } => if returned == 0 {
                CursorBuild::ColorFailed { hbm_mask, hdc, error: os_error }
            } else {
                CursorBuild::ColorCreated { hbm_mask, hdc, hbm_color: returned }
            },
            CursorBuild::ColorCreated { hbm_mask, hdc, hbm_color } => CursorBuild::BitsSet {
                hbm_mask,
                hdc,
                hbm_color,
            },
            CursorBuild::BitsSet { hbm_mask, hdc, hbm_color } => CursorBuild::DcReleased {
                hbm_mask,
                hbm_color,
            },
            CursorBuild::DcReleased { hbm_mask, hbm_color } => {
                let outcome = if returned == 0 {
                    Err(os_error)
                } else {
                    Ok(returned)
                };
                CursorBuild::IconRequested { hbm_mask, hbm_color, outcome }
            },
            CursorBuild::IconRequested { hbm_mask, hbm_color, outcome } => CursorBuild::MaskLeft {
                hbm_mask,
                outcome,
            },
            CursorBuild::ColorFailed { hbm_mask, hdc, error } => CursorBuild::MaskLeft {
                hbm_mask,
                outcome: Err(error),
            },
            CursorBuild::MaskLeft { hbm_mask, outcome } => CursorBuild::Finished { outcome },
            CursorBuild::Finished { outcome } => CursorBuild::Finished { outcome },
        }
    }

    /// The result of a finished construction: the cursor's handle, or the
    /// error of the call that failed. `None` while calls are left.
    pub fn into_result(self) -> (res: Option<Result<isize, BadCursor>>)
        ensures
            res == match self {
                CursorBuild::Finished { outcome: Ok(handle) } => Some(
                    Ok::<isize, BadCursor>(handle),
                ),
                CursorBuild::Finished { outcome: Err(error) } => Some(
                    Err::<isize, BadCursor>(BadCursor::OsError(error)),
                ),
                _ => None,
            },
    {
        match self {
            CursorBuild::Finished { outcome: Ok(handle) } => Some(Ok(handle)),
            CursorBuild::Finished { outcome: Err(error) } => Some(Err(BadCursor::OsError(error))),
            _ => None,
        }
    }
}

impl CursorBuild {
    /// The state after the calls from this state on have returned what
    /// `answers` holds, one after the other.
    pub open spec fn after_all(self, answers: Seq<(isize, std::io::Error)>) -> CursorBuild
        decreases answers.len(),
    {
        if answers.len() == 0 {
            self
        } else {
            self.after(answers[0].0, answers[0].1).after_all(answers.drop_first())
        }
    }
}

/// Whatever the calls return, the construction is finished after as many
/// calls as it has left, and then holds nothing.
pub proof fn lemma_build_finishes(build: CursorBuild, answers: Seq<(isize, std::io::Error)>)
    requires
        answers.len() >= build.calls_left(),
    ensures
        build.after_all(answers).call() == NativeCall::Finish,
        build.after_all(answers).held() == Set::<NativeObject>::empty(),
    decreases answers.len(),
{
    if answers.len() == 0 {
        lemma_build_terminates(build, 0, arbitrary());
        lemma_build_releases_what_it_holds(build, 0, arbitrary());
    } else {
        let next = build.after(answers[0].0, answers[0].1);
        lemma_build_terminates(build, answers[0].0, answers[0].1);
        lemma_build_finishes(next, answers.drop_first());
    }
}

/// Every call brings the construction closer to its end, and a finished
/// construction stays as it is.
pub proof fn lemma_build_terminates(build: CursorBuild, returned: isize, os_error: std::io::Error)
    ensures
        build.calls_left() > 0 ==> build.after(returned, os_error).calls_left()
            < build.calls_left(),
        build.calls_left() == 0 <==> build.call() == NativeCall::Finish,
        build.call() == NativeCall::Finish ==> build.after(returned, os_error) == build,
{
}

/// Nothing leaks and nothing is released twice. A call that creates or
/// acquires an object adds it to what is held exactly when it succeeds; a
/// call that releases an object names the handle under which it is held and
/// takes it out of what is held; no other call changes what is held; and a
/// finished construction holds nothing.
pub proof fn lemma_build_releases_what_it_holds(
    build: CursorBuild,
    returned: isize,
    os_error: std::io::Error,
)
    ensures
        build.call() == NativeCall::Finish ==> build.held() == Set::<NativeObject>::empty(),
        build.acquires() matches Some(object) ==> !build.held().contains(object) && build.after(
            returned,
            os_error,
        ).held() == if returned == 0 {
            build.held()
        } else {
            build.held().insert(object)
        },
        build.acquires() matches Some(object) ==> returned != 0 ==> build.after(
            returned,
            os_error,
        ).handle_of(object) == returned,
        build.releases() matches Some(object) ==> build.held().contains(object) && build.after(
            returned,
            os_error,
        ).held() == build.held().remove(object) && (build.call() == NativeCall::ReleaseDc {
            hdc: build.handle_of(object),
        } || build.call() == NativeCall::DeleteObject { handle: build.handle_of(object) }),
        build.acquires() is None && build.releases() is None ==> build.after(
            returned,
            os_error,
        ).held() == build.held(),
        forall|object: NativeObject|
            build.held().contains(object) && build.after(returned, os_error).held().contains(
                object,
            ) ==> build.after(returned, os_error).handle_of(object) == build.handle_of(object),
{
    if let Some(object) = build.acquires() {
        assert(build.after(returned, os_error).held() =~= if returned == 0 {
            build.held()
        } else {
            build.held().insert(object)
        });
    }
}

/// The cursor is made exactly when every call that creates or acquires
/// something succeeds, and a failure is reported with the error of the call
/// that failed: a construction that has an error keeps it to the end.
pub proof fn lemma_build_outcome(build: CursorBuild, returned: isize, os_error: std::io::Error)
    ensures
        build.acquires() is Some && returned == 0 ==> build.after(returned, os_error).failure()
            == Some(os_error),
        build.failure() matches Some(error) ==> build.after(returned, os_error).failure() == Some(
            error,
        ),
        build is DcReleased ==> build.after(returned, os_error).failure() == if returned == 0 {
            Some(os_error)
        } else {
            None
        },
        build is DcReleased && returned != 0 ==> build.after(returned, os_error).cursor() == Some(
            returned,
        ),
        build.cursor() matches Some(handle) ==> build.after(returned, os_error).cursor() == Some(
            handle,
        ),
        !(build is DcReleased) && build.cursor() is None ==> build.after(
            returned,
            os_error,
        ).cursor() is None,
{
}

impl CursorBuild {
    /// The error of the call that failed, once one has.
    pub open spec fn failure(self) -> Option<std::io::Error> {
        match self {
            CursorBuild::IconRequested { outcome: Err(error), .. } => Some(error),
            CursorBuild::ColorFailed { error, .. } => Some(error),
            CursorBuild::MaskLeft { outcome: Err(error), .. } => Some(error),
            CursorBuild::Finished { outcome: Err(error) } => Some(error),
            _ => None,
        }
    }

    /// The handle of the cursor, once it has been made.
    pub open spec fn cursor(self) -> Option<isize> {
        match self {
            CursorBuild::IconRequested { outcome: Ok(handle), .. } => Some(handle),
            CursorBuild::MaskLeft { outcome: Ok(handle), .. } => Some(handle),
            CursorBuild::Finished { outcome: Ok(handle) } => Some(handle),
            _ => None,
        }
    }
}

} // verus!
