use cursor_icon::CursorIcon;
use custom_cursor::platform_impl::x11::{shape_source, ShapeCache, ShapeSource};
use custom_cursor::selection::{CursorAction, CursorCache, SelectedCursor};

#[test]
fn window_starts_with_the_default_shape() {
    assert_eq!(SelectedCursor::default(), SelectedCursor::BuiltIn(CursorIcon::Default));
    assert_ne!(SelectedCursor::default(), SelectedCursor::BuiltIn(CursorIcon::Help));
}

#[test]
fn selections_are_equal_by_shape_or_by_key() {
    assert_eq!(SelectedCursor::BuiltIn(CursorIcon::Wait), SelectedCursor::BuiltIn(CursorIcon::Wait));
    assert_ne!(SelectedCursor::BuiltIn(CursorIcon::Wait), SelectedCursor::BuiltIn(CursorIcon::Text));
    assert_eq!(SelectedCursor::Custom(3), SelectedCursor::Custom(3));
    assert_ne!(SelectedCursor::Custom(3), SelectedCursor::Custom(4));
    assert_ne!(SelectedCursor::Custom(0), SelectedCursor::BuiltIn(CursorIcon::Default));
    assert_ne!(SelectedCursor::BuiltIn(CursorIcon::Default), SelectedCursor::Custom(0));
}

#[test]
fn new_cache_has_no_cursor() {
    let cache: CursorCache<String> = CursorCache::new();
    assert!(cache.get(0).is_none());
    assert!(cache.get(u64::MAX).is_none());
}

#[test]
fn registered_cursor_is_found_under_its_key() {
    let mut cache: CursorCache<String> = CursorCache::new();
    assert!(cache.register(7, "cross".to_string()).is_none());
    assert_eq!(cache.get(7), Some(&"cross".to_string()));
    assert!(cache.get(8).is_none());
}

#[test]
fn registering_again_hands_back_the_previous_resource() {
    let mut cache: CursorCache<String> = CursorCache::new();
    assert!(cache.register(0, "first".to_string()).is_none());
    assert_eq!(cache.register(0, "second".to_string()), Some("first".to_string()));
    assert_eq!(cache.get(0), Some(&"second".to_string()));
    assert!(cache.register(1, "other".to_string()).is_none());
    assert_eq!(cache.get(0), Some(&"second".to_string()));
    assert_eq!(cache.get(1), Some(&"other".to_string()));
}

#[test]
fn registering_the_same_pair_twice_is_as_registering_it_once() {
    let mut once: CursorCache<u32> = CursorCache::new();
    once.register(1, 10);
    once.register(2, 20);
    let mut twice: CursorCache<u32> = CursorCache::new();
    twice.register(1, 10);
    twice.register(2, 20);
    assert_eq!(twice.register(2, 20), Some(20));
    for key in 0..5 {
        assert_eq!(once.get(key), twice.get(key));
    }
    let selected = SelectedCursor::Custom(2);
    match (once.reapply(&selected), twice.reapply(&selected)) {
        (CursorAction::ShowCustom(a), CursorAction::ShowCustom(b)) => assert_eq!(a, b),
        other => panic!("unexpected actions {:?}", other),
    }
}

#[test]
fn selecting_a_registered_key_shows_its_resource() {
    let mut cache: CursorCache<u32> = CursorCache::new();
    cache.register(5, 50);
    let mut selected = SelectedCursor::default();
    match cache.select_custom(&mut selected, 5) {
        CursorAction::ShowCustom(resource) => assert_eq!(*resource, 50),
        other => panic!("unexpected action {:?}", other),
    }
    assert_eq!(selected, SelectedCursor::Custom(5));
    assert!(selected.shows(5));
    assert!(!selected.shows(6));
}

#[test]
fn selecting_an_unregistered_key_changes_nothing() {
    let mut cache: CursorCache<u32> = CursorCache::new();
    cache.register(5, 50);
    let mut selected = SelectedCursor::BuiltIn(CursorIcon::Crosshair);
    assert!(matches!(cache.select_custom(&mut selected, 6), CursorAction::Keep));
    assert_eq!(selected, SelectedCursor::BuiltIn(CursorIcon::Crosshair));
    let mut selected = SelectedCursor::Custom(5);
    assert!(matches!(cache.select_custom(&mut selected, 6), CursorAction::Keep));
    assert_eq!(selected, SelectedCursor::Custom(5));
}

#[test]
fn selecting_a_built_in_shape_always_succeeds() {
    let mut selected = SelectedCursor::Custom(5);
    selected.select_builtin(CursorIcon::Grab);
    assert_eq!(selected, SelectedCursor::BuiltIn(CursorIcon::Grab));
    assert!(!selected.shows(5));
    let cache: CursorCache<u32> = CursorCache::new();
    assert!(matches!(cache.reapply(&selected), CursorAction::ShowBuiltIn(CursorIcon::Grab)));
}

#[test]
fn registering_under_the_selected_key_shows_the_new_resource() {
    let mut cache: CursorCache<String> = CursorCache::new();
    cache.register(0, "old".to_string());
    let mut selected = SelectedCursor::default();
    cache.select_custom(&mut selected, 0);
    let previous = cache.register(0, "new".to_string());
    // The selection is still the custom one, and what it shows is the new resource.
    assert!(selected.shows(0));
    match cache.reapply(&selected) {
        CursorAction::ShowCustom(resource) => assert_eq!(resource, "new"),
        other => panic!("unexpected action {:?}", other),
    }
    // Only now is the old resource let go.
    assert_eq!(previous, Some("old".to_string()));
}

#[test]
fn registering_under_another_key_leaves_the_shown_cursor() {
    let mut cache: CursorCache<u32> = CursorCache::new();
    cache.register(0, 100);
    let mut selected = SelectedCursor::default();
    cache.select_custom(&mut selected, 0);
    cache.register(1, 200);
    assert!(!selected.shows(1));
    match cache.reapply(&selected) {
        CursorAction::ShowCustom(resource) => assert_eq!(*resource, 100),
        other => panic!("unexpected action {:?}", other),
    }
}

#[test]
fn selection_without_a_resource_keeps_the_pointer() {
    let cache: CursorCache<u32> = CursorCache::new();
    assert!(matches!(cache.reapply(&SelectedCursor::Custom(9)), CursorAction::Keep));
}

#[test]
fn shape_is_loaded_once_and_kept() {
    let mut cache = ShapeCache::new();
    assert_eq!(cache.get(Some(CursorIcon::Default)), None);
    assert_eq!(cache.get(None), None);
    assert_eq!(cache.or_insert(Some(CursorIcon::Default), 11), 11);
    assert_eq!(cache.get(Some(CursorIcon::Default)), Some(11));
    // A second cursor for the same shape is not taken.
    assert_eq!(cache.or_insert(Some(CursorIcon::Default), 12), 11);
    assert_eq!(cache.get(Some(CursorIcon::Default)), Some(11));
}

#[test]
fn shapes_are_told_apart() {
    let mut cache = ShapeCache::new();
    assert_eq!(cache.or_insert(Some(CursorIcon::Text), 1), 1);
    assert_eq!(cache.or_insert(Some(CursorIcon::Wait), 2), 2);
    assert_eq!(cache.or_insert(None, 3), 3);
    assert_eq!(cache.get(Some(CursorIcon::Text)), Some(1));
    assert_eq!(cache.get(Some(CursorIcon::Wait)), Some(2));
    assert_eq!(cache.get(None), Some(3));
    assert_eq!(cache.get(Some(CursorIcon::Help)), None);
    assert_eq!(cache.or_insert(None, 4), 3);
    assert_eq!(cache.or_insert(Some(CursorIcon::Wait), 5), 2);
}

#[test]
fn named_shape_is_loaded_under_its_name() {
    assert!(matches!(shape_source(Some(CursorIcon::Help)), ShapeSource::Named("help")));
    assert!(matches!(shape_source(Some(CursorIcon::Default)), ShapeSource::Named("default")));
    assert!(matches!(shape_source(Some(CursorIcon::NotAllowed)), ShapeSource::Named("not-allowed")));
    assert!(matches!(shape_source(Some(CursorIcon::ZoomIn)), ShapeSource::Named("zoom-in")));
}

#[test]
fn no_shape_is_an_empty_cursor() {
    assert!(matches!(shape_source(None), ShapeSource::Empty));
}

#[test]
fn registering_for_a_window_that_shows_the_key_shows_the_new_resource() {
    let mut cache: CursorCache<String> = CursorCache::new();
    cache.register(0, "old".to_string());
    let mut selected = SelectedCursor::default();
    cache.select_custom(&mut selected, 0);
    match cache.register_shown(&selected, 0, "new".to_string()) {
        (CursorAction::ShowCustom(resource), Some(previous)) => {
            assert_eq!(resource, "new");
            assert_eq!(previous, "old");
        },
        other => panic!("unexpected outcome {:?}", other),
    }
    assert_eq!(selected, SelectedCursor::Custom(0));
    assert_eq!(cache.get(0), Some(&"new".to_string()));
}

#[test]
fn registering_for_a_window_that_shows_something_else_keeps_its_pointer() {
    let mut cache: CursorCache<u32> = CursorCache::new();
    let selected = SelectedCursor::BuiltIn(CursorIcon::Text);
    assert!(matches!(cache.register_shown(&selected, 0, 1), (CursorAction::Keep, None)));
    let selected = SelectedCursor::Custom(1);
    assert!(matches!(cache.register_shown(&selected, 0, 2), (CursorAction::Keep, Some(1))));
    assert_eq!(cache.get(0), Some(&2));
}

#[test]
fn registering_for_a_connection_lists_the_windows_that_show_the_key() {
    let mut cache: CursorCache<String> = CursorCache::new();
    cache.register(3, "old".to_string());
    let selections = vec![
        SelectedCursor::Custom(3),
        SelectedCursor::BuiltIn(CursorIcon::Default),
        SelectedCursor::Custom(4),
        SelectedCursor::Custom(3),
    ];
    let (showing, previous) = cache.register_for_windows(&selections, 3, "new".to_string());
    assert_eq!(showing, vec![0, 3]);
    assert_eq!(previous, Some("old".to_string()));
    for place in showing {
        match cache.reapply(&selections[place]) {
            CursorAction::ShowCustom(resource) => assert_eq!(resource, "new"),
            other => panic!("unexpected action {:?}", other),
        }
    }
}

#[test]
fn registering_for_a_connection_without_such_windows_lists_none() {
    let mut cache: CursorCache<u32> = CursorCache::new();
    let (showing, previous) = cache.register_for_windows(&Vec::new(), 1, 10);
    assert!(showing.is_empty());
    assert_eq!(previous, None);
    let selections = vec![SelectedCursor::Custom(2), SelectedCursor::BuiltIn(CursorIcon::Text)];
    let (showing, previous) = cache.register_for_windows(&selections, 1, 11);
    assert!(showing.is_empty());
    assert_eq!(previous, Some(10));
    assert_eq!(cache.get(1), Some(&11));
}
