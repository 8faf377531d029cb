use wayle::dropdown::{
    DropdownHooks, is_registered, margins_for, popover_position, position_class,
    require_service, toggle_for, toggle_for_widget, ClosedEffects, DropdownMargins, Location,
    NamedCache, PopoverPosition, ToggleAction,
};

#[test]
fn toggling() {
    assert_eq!(toggle_for(true, true), ToggleAction::Close);
    assert_eq!(toggle_for(true, false), ToggleAction::Reparent);
    assert_eq!(toggle_for(false, true), ToggleAction::Open);
    assert_eq!(toggle_for_widget(true, true), ToggleAction::Close);
    assert_eq!(toggle_for_widget(true, false), ToggleAction::Open);
    assert_eq!(toggle_for_widget(false, false), ToggleAction::Open);
}

#[test]
fn placement() {
    assert_eq!(popover_position(false, true, false, false), PopoverPosition::Bottom);
    assert_eq!(popover_position(true, true, true, false), PopoverPosition::Top);
    assert_eq!(popover_position(true, false, true, false), PopoverPosition::Right);
    assert_eq!(popover_position(true, false, false, true), PopoverPosition::Left);
    assert_eq!(popover_position(true, false, false, false), PopoverPosition::Bottom);
    assert_eq!(position_class(PopoverPosition::Top), "position-top");
    assert_eq!(position_class(PopoverPosition::Bottom), "position-bottom");
    assert_eq!(position_class(PopoverPosition::Left), "position-left");
    assert_eq!(position_class(PopoverPosition::Right), "position-right");
}

#[test]
fn margins_put_the_gap_on_the_bar_side() {
    assert_eq!(
        margins_for(Location::Top, 4, 16),
        DropdownMargins { top: 4, bottom: 16, start: 16, end: 16 }
    );
    assert_eq!(
        margins_for(Location::Bottom, 4, 16),
        DropdownMargins { top: 16, bottom: 4, start: 16, end: 16 }
    );
    assert_eq!(
        margins_for(Location::Left, 4, 16),
        DropdownMargins { top: 16, bottom: 16, start: 4, end: 16 }
    );
    assert_eq!(
        margins_for(Location::Right, 4, 16),
        DropdownMargins { top: 16, bottom: 16, start: 16, end: 4 }
    );
}

#[test]
fn close_cleanup() {
    let mut h = DropdownHooks::new();
    h.attach();
    h.freeze();
    assert!(h.register_open(7));
    assert_eq!(
        h.on_closed(true),
        ClosedEffects { thaw_button: true, release_parent_size: true, notify_coordinator: Some(7) }
    );
    // A second close undoes and reports nothing.
    assert_eq!(
        h.on_closed(true),
        ClosedEffects { thaw_button: false, release_parent_size: false, notify_coordinator: None }
    );
    assert_eq!(h, DropdownHooks { wired: true, frozen: false, registered: None });
}

#[test]
fn close_without_wiring_or_parent() {
    let mut h = DropdownHooks::new();
    h.freeze();
    assert!(!h.register_open(3));
    assert_eq!(h.registered, None);
    assert_eq!(
        h.on_closed(false),
        ClosedEffects { thaw_button: true, release_parent_size: false, notify_coordinator: None }
    );
    let mut h = DropdownHooks::new();
    h.attach();
    h.freeze();
    assert!(h.take_frozen());
    assert!(!h.take_frozen());
    assert!(h.register_open(4));
    assert_eq!(
        h.on_closed(true),
        ClosedEffects { thaw_button: false, release_parent_size: false, notify_coordinator: Some(4) }
    );
}

#[test]
fn registry_names_and_cache() {
    assert!(is_registered("iwd"));
    assert!(is_registered("weather"));
    assert!(!is_registered("mullvad"));
    assert_eq!(require_service("iwd", "iwd", Some(3)), Some(3));
    assert_eq!(require_service::<u8>("iwd", "iwd", None), None);

    let mut cache: NamedCache<u32> = NamedCache::new();
    assert_eq!(cache.get("audio"), None);
    cache.insert("audio".into(), 1);
    cache.insert("iwd".into(), 2);
    assert_eq!(cache.get("audio"), Some(&1));
    assert_eq!(cache.get("iwd"), Some(&2));
    assert_eq!(cache.get("media"), None);
}

#[test]
fn registry_caches_only_built_dropdowns() {
    let mut cache: NamedCache<u32> = NamedCache::new();
    // The factory declined: nothing is cached, so the next lookup misses again.
    assert_eq!(cache.get("iwd"), None);
    assert!(!cache.cache_built("iwd".into(), None));
    assert_eq!(cache.get("iwd"), None);
    // Built: cached and returned by later lookups.
    assert!(cache.cache_built("iwd".into(), Some(7)));
    assert_eq!(cache.get("iwd"), Some(&7));
    assert!(cache.cache_built("audio".into(), Some(3)));
    assert_eq!(cache.get("iwd"), Some(&7));
    assert_eq!(cache.get("audio"), Some(&3));
}
