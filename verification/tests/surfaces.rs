use wayle::surfaces::{
    clear_registration, install_registration, menu_closed, stops_propagation, KeyRoute,
    OpenSurface, Registration, ScrimState, SurfaceCoordinator,
};

fn surface(id: u64, has_keys: bool, has_anchor: bool) -> OpenSurface {
    OpenSurface { id, has_keys, has_anchor }
}

#[test]
fn scrim_reference_counting() {
    let mut scrim = ScrimState::new();
    let first = scrim.show();
    assert!(first.present);
    assert!(!first.cancel_pending_hide);
    let second = scrim.show();
    assert!(!second.present);
    assert_eq!(scrim.shown, 2);
    assert!(!scrim.release());
    assert!(scrim.release());
    assert!(scrim.hide_pending);
    assert!(scrim.window_visible);
    // An extra release never goes below zero.
    assert!(scrim.release());
    assert_eq!(scrim.shown, 0);
    assert!(scrim.finish_hide());
    assert!(!scrim.window_visible);
    assert!(!scrim.hide_pending);
}

#[test]
fn reshow_cancels_debounced_hide() {
    let mut scrim = ScrimState::new();
    scrim.show();
    assert!(scrim.release());
    let effects = scrim.show();
    assert!(effects.cancel_pending_hide);
    assert!(!effects.present);
    assert!(!scrim.finish_hide());
    assert!(scrim.window_visible);
}

#[test]
fn swap_keeps_the_new_surface() {
    let mut c = SurfaceCoordinator::new();
    let opened = c.open(surface(1, false, true));
    assert_eq!(opened.dismiss_previous, None);
    assert!(opened.scrim.present);
    c.finish_open();

    let swapped = c.open(surface(2, true, true));
    assert_eq!(swapped.dismiss_previous, Some(1));
    assert!(!swapped.scrim.present);
    // The old surface reports its close during the swap.
    assert!(!c.notify_closed(1));
    c.finish_open();
    assert_eq!(c.current, Some(surface(2, true, true)));
    assert_eq!(c.scrim.shown, 1);

    // A stale report later never clears the new surface.
    c.notify_closed(1);
    assert_eq!(c.current, Some(surface(2, true, true)));
}

#[test]
fn open_then_close_balances_the_scrim() {
    let mut c = SurfaceCoordinator::new();
    c.open(surface(7, false, false));
    c.finish_open();
    assert!(c.notify_closed(7));
    assert_eq!(c.current, None);
    assert_eq!(c.scrim.shown, 0);
    assert!(c.scrim.finish_hide());
}

#[test]
fn bar_clicks_and_keys() {
    let mut c = SurfaceCoordinator::new();
    assert_eq!(c.handle_bar_click(false), None);
    c.open(surface(3, true, true));
    c.finish_open();
    assert_eq!(c.handle_bar_click(true), None);
    assert_eq!(c.current, Some(surface(3, true, true)));
    assert_eq!(c.route_key(false), KeyRoute::Forward(Some(3)));
    assert_eq!(c.handle_bar_click(false), Some(3));
    assert_eq!(c.current, None);

    c.open(surface(4, false, false));
    c.finish_open();
    assert_eq!(c.route_key(false), KeyRoute::Forward(None));
    assert_eq!(c.route_key(true), KeyRoute::Dismiss(Some(4)));
    assert_eq!(c.route_key(true), KeyRoute::Dismiss(None));
    assert!(stops_propagation(true));
    assert!(!stops_propagation(false));
}

#[test]
fn menu_swap_reports_each_close_once() {
    let mut c = SurfaceCoordinator::new();
    let mut slot: Option<Registration> = None;
    c.open(surface(1, true, true));
    c.finish_open();
    assert_eq!(install_registration(&mut slot, 1), None);
    assert_eq!(c.scrim.shown, 1);
    // Re-showing the menu: the new one is opened first, the swap closes the
    // old one, whose popover reports once.
    let effects = c.open(surface(2, true, true));
    assert_eq!(effects.dismiss_previous, Some(1));
    let mut old = slot.expect("registered");
    assert!(menu_closed(&mut c, &mut old));
    c.finish_open();
    let retired = install_registration(&mut slot, 2);
    assert_eq!(retired, Some(Registration { id: 1, cleaned: true }));
    assert_eq!(slot, Some(Registration { id: 2, cleaned: false }));
    assert_eq!(c.current, Some(surface(2, true, true)));
    assert_eq!(c.scrim.shown, 1);
    assert!(c.scrim.window_visible);
    // A late close of the old menu reports nothing.
    let mut late = retired.expect("retired");
    assert!(!menu_closed(&mut c, &mut late));
    assert_eq!(c.scrim.shown, 1);
    // The new menu closes: reported once, then never again.
    let mut current = slot.expect("registered");
    assert!(menu_closed(&mut c, &mut current));
    assert!(!menu_closed(&mut c, &mut current));
    assert_eq!(c.current, None);
    assert_eq!(c.scrim.shown, 0);
}

#[test]
fn clearing_a_registration() {
    let mut c = SurfaceCoordinator::new();
    let mut slot: Option<Registration> = None;
    c.open(surface(5, false, false));
    c.finish_open();
    install_registration(&mut slot, 5);
    assert!(clear_registration(&mut c, &mut slot));
    assert_eq!(slot, None);
    assert_eq!(c.scrim.shown, 0);
    assert!(!clear_registration(&mut c, &mut slot));
    let mut spent = Some(Registration { id: 6, cleaned: true });
    assert!(!clear_registration(&mut c, &mut spent));
    assert_eq!(spent, None);
}
