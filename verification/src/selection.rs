//! The cursor cache of a connection and the selection state of a window:
//! which resource stands behind which key, what a window has selected, and
//! which pointer shape it therefore has to show.

use cursor_icon::CursorIcon;
use std::collections::HashMap;
use vstd::prelude::*;
use vstd::std_specs::cmp::PartialEqSpecImpl;

verus! {

broadcast use vstd::std_specs::hash::group_hash_axioms;

/// `cursor_icon::CursorIcon`, the named built-in cursor shapes. It is an
/// enumeration without fields, and all of its variants are known here.
#[verifier::external_type_specification]
pub struct ExCursorIcon(CursorIcon);

/// `CursorIcon::default`, derived: it returns the variant that the
/// enumeration marks as its default, `CursorIcon::Default`.
pub assume_specification[ <CursorIcon as Default>::default ]() -> (icon: CursorIcon)
    ensures
        icon == CursorIcon::Default,
;

/// `CursorIcon::eq`, derived for an enumeration without fields: it returns
/// `true` exactly when the two shapes are the same variant.
pub assume_specification[ <CursorIcon as PartialEq>::eq ](a: &CursorIcon, b: &CursorIcon) -> (res:
    bool)
    ensures
        res == (*a == *b),
;

/// What a window has selected as its cursor: a named built-in shape, or
/// the custom cursor registered under a key.
#[derive(Debug, Clone, Copy)]
pub enum SelectedCursor {
    BuiltIn(CursorIcon),
    Custom(u64),
}

impl Default for SelectedCursor {
    /// A window starts with the default built-in shape.
    fn default() -> (selected: Self)
        ensures
            selected == SelectedCursor::BuiltIn(CursorIcon::Default),
    {
        SelectedCursor::BuiltIn(CursorIcon::default())
    }
}

impl PartialEq for SelectedCursor {
    /// Two selections are equal when they name the same shape or the same key.
    fn eq(&self, other: &Self) -> (res: bool) {
        match (self, other) {
            (SelectedCursor::BuiltIn(a), SelectedCursor::BuiltIn(b)) => *a == *b,
            (SelectedCursor::Custom(a), SelectedCursor::Custom(b)) => *a == *b,
            _ => false,
        }
    }
}

impl PartialEqSpecImpl for SelectedCursor {
    open spec fn obeys_eq_spec() -> bool {
        true
    }

    open spec fn eq_spec(&self, other: &Self) -> bool {
        *self == *other
    }
}

impl Eq for SelectedCursor {

}

/// The pointer shape that a window shows: a built-in shape, or the
/// resource of a custom cursor.
pub ghost enum Shown<R> {
    BuiltIn(CursorIcon),
    Custom(R),
}

impl SelectedCursor {
    /// A selected key has a resource in `cache`. A built-in shape needs none.
    pub open spec fn consistent_with<R>(self, cache: Map<u64, R>) -> bool {
        self matches SelectedCursor::Custom(key) ==> cache.contains_key(key)
    }

    /// The shape that a window with this selection shows, given the cache.
    /// A selected key without a resource shows nothing of its own.
    pub open spec fn shown<R>(self, cache: Map<u64, R>) -> Option<Shown<R>> {
        match self {
            SelectedCursor::BuiltIn(shape) => Some(Shown::BuiltIn(shape)),
            SelectedCursor::Custom(key) => if cache.contains_key(key) {
                Some(Shown::Custom(cache[key]))
            } else {
                None
            },
        }
    }

    /// Whether the custom cursor registered under `key` is selected.
    pub fn shows(&self, key: u64) -> (res: bool)
        ensures
            res <==> *self == SelectedCursor::Custom(key),
    {
        match self {
            SelectedCursor::Custom(selected) => *selected == key,
            SelectedCursor::BuiltIn(_) => false,
        }
    }

    /// Selects a built-in shape. This always succeeds.
    pub fn select_builtin(&mut self, shape: CursorIcon)
        ensures
            *final(self) == SelectedCursor::BuiltIn(shape),
    {
        *self = SelectedCursor::BuiltIn(shape);
    }
}

/// What a window has to do to its pointer: nothing, show a built-in
/// shape, or show the resource of a custom cursor.
#[derive(Debug)]
pub enum CursorAction<'a, R> {
    Keep,
    ShowBuiltIn(CursorIcon),
    ShowCustom(&'a R),
}

impl<'a, R> CursorAction<'a, R> {
    /// The shape that the pointer has once the action is carried out, if
    /// the action changes it.
    pub open spec fn shows(self) -> Option<Shown<R>> {
        match self {
            CursorAction::Keep => None,
            CursorAction::ShowBuiltIn(shape) => Some(Shown::BuiltIn(shape)),
            CursorAction::ShowCustom(resource) => Some(Shown::Custom(*resource)),
        }
    }
}

/// The custom cursors of a connection: one resource under each registered key.
pub struct CursorCache<R> {
    resources: HashMap<u64, R>,
}

impl<R> View for CursorCache<R> {
    type V = Map<u64, R>;

    closed spec fn view(&self) -> Map<u64, R> {
        self.resources@
    }
}

impl<R> CursorCache<R> {
    /// A cache without entries.
    pub fn new() -> (cache: Self)
        ensures
            cache@ == Map::<u64, R>::empty(),
    {
        CursorCache { resources: HashMap::new() }
    }

    /// Puts `resource` under `key` and hands back the resource that was
    /// there before, if any. A window that shows `key` has to be given the
    /// new resource before the old one is released.
    pub fn register(&mut self, key: u64, resource: R) -> (previous: Option<R>)
        ensures
            final(self)@ == old(self)@.insert(key, resource),
            previous == if old(self)@.contains_key(key) {
                Some(old(self)@[key])
            } else {
                None
            },
    {
        self.resources.insert(key, resource)
    }

    /// Registers `resource` under `key` for a window with the selection
    /// `selected`, and says what the window has to do: where it shows
    /// `key`, it has to show the new resource, and only after that may the
    /// resource that is handed back be released. The window's selection is
    /// not touched, so it never falls back to a built-in shape.
    pub fn register_shown(&mut self, selected: &SelectedCursor, key: u64, resource: R) -> (res: (
        CursorAction<'_, R>,
        Option<R>,
    ))
        ensures
            final(self)@ == old(self)@.insert(key, resource),
            res.0 == if *selected == SelectedCursor::Custom(key) {
                CursorAction::ShowCustom(&resource)
            } else {
                CursorAction::Keep
            },
            res.1 == if old(self)@.contains_key(key) {
                Some(old(self)@[key])
            } else {
                None
            },
    {
        let previous = self.resources.insert(key, resource);
        let action = if selected.shows(key) {
            match self.resources.get(&key) {
                Some(registered) => CursorAction::ShowCustom(registered),
                None => CursorAction::Keep,
            }
        } else {
            CursorAction::Keep
        };
        (action, previous)
    }

    /// Registers `resource` under `key` for a connection whose windows have
    /// the selections `selections`, and lists the windows, by their places
    /// in `selections`, that show `key`. Those windows have to show the new
    /// resource, and only after that may the resource that is handed back
    /// be released. No selection is touched.
    pub fn register_for_windows(
        &mut self,
        selections: &Vec<SelectedCursor>,
        key: u64,
        resource: R,
    ) -> (res: (Vec<usize>, Option<R>))
        ensures
            final(self)@ == old(self)@.insert(key, resource),
            res.0@ == windows_showing(selections@, key),
            res.1 == if old(self)@.contains_key(key) {
                Some(old(self)@[key])
            } else {
                None
            },
    {
        let previous = self.resources.insert(key, resource);
        let mut windows: Vec<usize> = Vec::new();
        let mut i: usize = 0;
        while i < selections.len()
            invariant
                i <= selections@.len(),
                windows@ == windows_showing(selections@.take(i as int), key),
            decreases selections@.len() - i,
        {
            assert(selections@.take(i + 1).drop_last() =~= selections@.take(i as int));
            if selections[i].shows(key) {
                windows.push(i);
            }
            i = i + 1;
        }
        assert(selections@.take(i as int) =~= selections@);
        (windows, previous)
    }

    /// The resource registered under `key`, if any.
    pub fn get(&self, key: u64) -> (resource: Option<&R>)
        ensures
            resource == if self@.contains_key(key) {
                Some(&self@[key])
            } else {
                None
            },
    {
        self.resources.get(&key)
    }

    /// Selects the custom cursor registered under `key`. Where nothing is
    /// registered under it, the selection stays as it is and the pointer
    /// is kept.
    pub fn select_custom(&self, selected: &mut SelectedCursor, key: u64) -> (action: CursorAction<
        '_,
        R,
    >)
        ensures
            self@.contains_key(key) ==> *final(selected) == SelectedCursor::Custom(key) && action
                == CursorAction::ShowCustom(&self@[key]),
            !self@.contains_key(key) ==> *final(selected) == *old(selected) && action
                == CursorAction::<R>::Keep,
            old(selected).consistent_with(self@) ==> final(selected).consistent_with(self@),
    {
        match self.resources.get(&key) {
            Some(resource) => {
                *selected = SelectedCursor::Custom(key);
                CursorAction::ShowCustom(resource)
            },
            None => CursorAction::Keep,
        }
    }

    /// What a window has to do to show its selection, as when the pointer
    /// enters it again or when a cursor was registered under the key it shows.
    pub fn reapply(&self, selected: &SelectedCursor) -> (action: CursorAction<'_, R>)
        ensures
            action.shows() == selected.shown(self@),
            action is Keep <==> !selected.consistent_with(self@),
    {
        match selected {
            SelectedCursor::BuiltIn(shape) => CursorAction::ShowBuiltIn(*shape),
            SelectedCursor::Custom(key) => match self.resources.get(key) {
                Some(resource) => CursorAction::ShowCustom(resource),
                None => CursorAction::Keep,
            },
        }
    }
}

/// The places in `selections` of the windows that show `key`, in rising
/// order.
pub open spec fn windows_showing(selections: Seq<SelectedCursor>, key: u64) -> Seq<usize>
    decreases selections.len(),
{
    if selections.len() == 0 {
        Seq::empty()
    } else {
        let before = windows_showing(selections.drop_last(), key);
        if selections.last() == SelectedCursor::Custom(key) {
            before.push((selections.len() - 1) as usize)
        } else {
            before
        }
    }
}

/// The windows listed are exactly those that show the key, each once and
/// in rising order.
pub proof fn lemma_windows_showing(selections: Seq<SelectedCursor>, key: u64)
    requires
        selections.len() <= usize::MAX,
    ensures
        forall|i: int|
            0 <= i < windows_showing(selections, key).len() ==> {
                let window = #[trigger] windows_showing(selections, key)[i];
                window < selections.len() && selections[window as int] == SelectedCursor::Custom(
                    key,
                )
            },
        forall|i: int, j: int|
            0 <= i < j < windows_showing(selections, key).len() ==> windows_showing(
                selections,
                key,
            )[i] < windows_showing(selections, key)[j],
        forall|window: int|
            0 <= window < selections.len() && #[trigger] selections[window]
                == SelectedCursor::Custom(key) ==> windows_showing(selections, key).contains(
                window as usize,
            ),
    decreases selections.len(),
{
    if selections.len() > 0 {
        let shorter = selections.drop_last();
        let before = windows_showing(shorter, key);
        let all = windows_showing(selections, key);
        lemma_windows_showing(shorter, key);
        assert forall|window: int|
            0 <= window < selections.len() && #[trigger] selections[window]
                == SelectedCursor::Custom(key) implies all.contains(window as usize) by {
            if window < shorter.len() {
                assert(shorter[window] == selections[window]);
                let i = choose|i: int| 0 <= i < before.len() && before[i] == window as usize;
                assert(all[i] == window as usize);
            } else {
                assert(all[all.len() - 1] == window as usize);
            }
        }
    }
}

/// Registering the same resource under the same key a second time changes
/// nothing: the cache is as after the first time, and so is what any
/// window shows.
pub proof fn lemma_register_idempotent<R>(
    cache: Map<u64, R>,
    key: u64,
    resource: R,
    selected: SelectedCursor,
)
    ensures
        cache.insert(key, resource).insert(key, resource) == cache.insert(key, resource),
        selected.shown(cache.insert(key, resource).insert(key, resource)) == selected.shown(
            cache.insert(key, resource),
        ),
{
}

/// Registering a resource under the key that a window has selected makes
/// the window show the new resource. Its selection stays a custom one all
/// along: at no point does it show a built-in shape.
pub proof fn lemma_register_replaces_shown<R>(
    cache: Map<u64, R>,
    key: u64,
    resource: R,
    selected: SelectedCursor,
)
    requires
        selected == SelectedCursor::Custom(key),
    ensures
        selected.shown(cache.insert(key, resource)) == Some(Shown::Custom(resource)),
        selected.consistent_with(cache.insert(key, resource)),
{
}

/// Registration never takes a key away, so a selection that had its
/// resource before still has one after, and a window that shows another
/// key or a built-in shape shows what it showed before.
pub proof fn lemma_register_keeps_selections<R>(
    cache: Map<u64, R>,
    key: u64,
    resource: R,
    selected: SelectedCursor,
)
    requires
        selected.consistent_with(cache),
    ensures
        selected.consistent_with(cache.insert(key, resource)),
        selected != SelectedCursor::Custom(key) ==> selected.shown(cache.insert(key, resource))
            == selected.shown(cache),
{
}

} // verus!
