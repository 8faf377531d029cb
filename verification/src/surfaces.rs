//! The one open dismissable surface per bar (a dropdown popover or a systray
//! menu) and the shared scrim that catches outside clicks while one is open.
//!
//! Opening a surface shows the scrim *before* closing the previous surface, so
//! the scrim's show count stays positive across a swap; every close reports
//! back exactly once and drops one show. The real hide of the scrim is
//! debounced: it only happens when no show is left when the timer fires.

use vstd::prelude::*;

verus! {

/// Ref-counted visibility of the scrim.
#[derive(Debug, Clone, Copy, PartialEq, Eq, Structural)]
pub struct ScrimState {
    /// Outstanding shows (one per open surface, including one mid-swap).
    pub shown: u32,
    /// Whether a debounced hide is scheduled.
    pub hide_pending: bool,
    /// Whether the scrim window is on screen.
    pub window_visible: bool,
}

/// What `show` asks of the windowing side.
#[derive(Debug, Clone, Copy, PartialEq, Eq, Structural)]
pub struct ShowEffects {
    /// Remove the scheduled hide timer.
    pub cancel_pending_hide: bool,
    /// Present the scrim and raise the bar above it, both on on-demand keyboard.
    pub present: bool,
}

/// The scrim after one more show.
pub open spec fn show_spec(s: ScrimState) -> ScrimState {
    ScrimState { shown: (s.shown + 1) as u32, hide_pending: false, window_visible: true }
}

/// The scrim after one show is dropped: the count never goes below zero, and
/// a debounced hide is scheduled when it reaches zero.
pub open spec fn release_spec(s: ScrimState) -> ScrimState {
    let remaining: u32 = if s.shown == 0 {
        0
    } else {
        (s.shown - 1) as u32
    };
    ScrimState {
        shown: remaining,
        hide_pending: s.hide_pending || remaining == 0,
        window_visible: s.window_visible,
    }
}

/// The scrim after the debounced hide fires: hidden only if no show is left.
pub open spec fn finish_hide_spec(s: ScrimState) -> ScrimState {
    ScrimState {
        shown: s.shown,
        hide_pending: false,
        window_visible: s.window_visible && s.shown != 0,
    }
}

impl ScrimState {
    /// A hidden scrim with nothing open.
    pub fn new() -> (r: Self)
        ensures
            r == (ScrimState { shown: 0, hide_pending: false, window_visible: false }),
    {
        ScrimState { shown: 0, hide_pending: false, window_visible: false }
    }

    /// Adds one show; presents the scrim (and re-raises the bar) only if it is
    /// not already on screen. Cancels a pending debounced hide.
    pub fn show(&mut self) -> (r: ShowEffects)
        requires
            old(self).shown < u32::MAX,
        ensures
            *final(self) == show_spec(*old(self)),
            r.cancel_pending_hide == old(self).hide_pending,
            r.present == !old(self).window_visible,
    {
        let cancel_pending_hide = self.hide_pending;
        self.hide_pending = false;
        self.shown = self.shown + 1;
        let present = !self.window_visible;
        self.window_visible = true;
        ShowEffects { cancel_pending_hide, present }
    }

    /// Drops one show (never below zero); when none is left, schedules the
    /// debounced hide. The result says whether a hide timer was scheduled.
    pub fn release(&mut self) -> (r: bool)
        ensures
            *final(self) == release_spec(*old(self)),
            r == (final(self).shown == 0),
    {
        let remaining: u32 = if self.shown == 0 {
            0
        } else {
            self.shown - 1
        };
        self.shown = remaining;
        if remaining != 0 {
            return false;
        }
        self.hide_pending = true;
        true
    }

    /// The debounced tail of `release`: hides the window and restores the
    /// bar's layer and keyboard, unless a show reclaimed the scrim meanwhile.
    /// The result says whether it hid.
    pub fn finish_hide(&mut self) -> (r: bool)
        ensures
            *final(self) == finish_hide_spec(*old(self)),
            r == (old(self).shown == 0),
    {
        self.hide_pending = false;
        if self.shown != 0 {
            return false;
        }
        self.window_visible = false;
        true
    }
}

/// A show followed by a release leaves the count where it was, and the scrim
/// is on screen; the debounced hide that may follow hides it exactly when no
/// other show is outstanding.
pub proof fn lemma_scrim_show_release(s: ScrimState)
    requires
        s.shown < u32::MAX,
    ensures
        release_spec(show_spec(s)).shown == s.shown,
        release_spec(show_spec(s)).window_visible,
        finish_hide_spec(release_spec(show_spec(s))).window_visible == (s.shown > 0),
{
}

/// A close followed at once by a re-open (a swap driven by one bar click)
/// never takes the scrim off screen: the re-show cancels the debounced hide,
/// and a hide that fires anyway finds a show outstanding.
pub proof fn lemma_reshow_cancels_hide(s: ScrimState)
    requires
        s.shown == 1,
        s.window_visible,
    ensures
        release_spec(s).hide_pending,
        !show_spec(release_spec(s)).hide_pending,
        show_spec(release_spec(s)).shown == 1,
        finish_hide_spec(show_spec(release_spec(s))).window_visible,
{
}

/// A registered open surface: an identifier standing for its dismiss closure,
/// whether it brings a key handler, and whether it hangs off an anchor widget.
#[derive(Debug, Clone, Copy, PartialEq, Eq, Structural)]
pub struct OpenSurface {
    pub id: u64,
    pub has_keys: bool,
    pub has_anchor: bool,
}

/// The open-surface coordinator of one bar.
#[derive(Debug, Clone, Copy, PartialEq, Eq, Structural)]
pub struct SurfaceCoordinator {
    /// The open surface, if any.
    pub current: Option<OpenSurface>,
    /// Set while `open` closes the previous surface, so that surface's close
    /// report does not clear the newly registered one.
    pub dismissing: bool,
    /// The shared scrim.
    pub scrim: ScrimState,
}

/// What `open` asks of the caller, in order: apply the scrim effects, then
/// dismiss the previous surface (if any), then call `finish_open`.
#[derive(Debug, Clone, Copy, PartialEq, Eq, Structural)]
pub struct OpenEffects {
    pub scrim: ShowEffects,
    pub dismiss_previous: Option<u64>,
}

/// Where a key from the bar or the scrim goes.
#[derive(Debug, Clone, Copy, PartialEq, Eq, Structural)]
pub enum KeyRoute {
    /// Escape: the open surface (if any) was taken out of the slot and must be
    /// dismissed; the key is consumed iff there was one.
    Dismiss(Option<u64>),
    /// Another key: hand it to the key handler of this surface (if it has one);
    /// the key is consumed iff the handler consumes it.
    Forward(Option<u64>),
}

pub open spec fn surface_id(s: Option<OpenSurface>) -> Option<u64> {
    match s {
        Some(x) => Some(x.id),
        None => None,
    }
}

/// The coordinator after registering `surface`.
pub open spec fn open_spec(c: SurfaceCoordinator, surface: OpenSurface) -> SurfaceCoordinator {
    SurfaceCoordinator {
        current: Some(surface),
        dismissing: c.dismissing || c.current is Some,
        scrim: show_spec(c.scrim),
    }
}

/// The coordinator after the close report of surface `who`.
pub open spec fn notify_closed_spec(c: SurfaceCoordinator, who: u64) -> SurfaceCoordinator {
    SurfaceCoordinator {
        current: if !c.dismissing && surface_id(c.current) == Some(who) {
            None
        } else {
            c.current
        },
        dismissing: c.dismissing,
        scrim: release_spec(c.scrim),
    }
}

/// The coordinator once the swap begun by `open` is over.
pub open spec fn finish_open_spec(c: SurfaceCoordinator) -> SurfaceCoordinator {
    SurfaceCoordinator { dismissing: false, ..c }
}

/// The coordinator with its open surface taken out.
pub open spec fn dismiss_spec(c: SurfaceCoordinator) -> SurfaceCoordinator {
    SurfaceCoordinator { current: None, ..c }
}

/// Whether a bar click leaves the open surface alone: it landed on that
/// surface's own anchor button.
pub open spec fn stays_open_on_click(c: SurfaceCoordinator, on_anchor: bool) -> bool {
    on_anchor && (c.current matches Some(s) && s.has_anchor)
}

impl SurfaceCoordinator {
    /// Nothing open, scrim hidden.
    pub fn new() -> (r: Self)
        ensures
            r.current is None,
            !r.dismissing,
            r.scrim == (ScrimState { shown: 0, hide_pending: false, window_visible: false }),
    {
        SurfaceCoordinator { current: None, dismissing: false, scrim: ScrimState::new() }
    }

    /// Registers `surface` as the open one, showing the scrim first and then
    /// handing back the previous surface to close.
    pub fn open(&mut self, surface: OpenSurface) -> (r: OpenEffects)
        requires
            old(self).scrim.shown < u32::MAX,
        ensures
            *final(self) == open_spec(*old(self), surface),
            r.scrim.cancel_pending_hide == old(self).scrim.hide_pending,
            r.scrim.present == !old(self).scrim.window_visible,
            r.dismiss_previous == surface_id(old(self).current),
    {
        let scrim = self.scrim.show();
        let previous = self.current;
        self.current = Some(surface);
        let dismiss_previous = match previous {
            Some(p) => {
                self.dismissing = true;
                Some(p.id)
            },
            None => None,
        };
        OpenEffects { scrim, dismiss_previous }
    }

    /// Ends the swap started by `open` once the previous surface was dismissed.
    pub fn finish_open(&mut self)
        ensures
            *final(self) == finish_open_spec(*old(self)),
    {
        self.dismissing = false;
    }

    /// A surface reports it closed: clears the slot if it is still the
    /// registered one (and no swap is under way), and drops its scrim show.
    /// The result says whether a debounced scrim hide was scheduled.
    pub fn notify_closed(&mut self, who: u64) -> (r: bool)
        ensures
            *final(self) == notify_closed_spec(*old(self), who),
            r == (final(self).scrim.shown == 0),
    {
        if !self.dismissing {
            let clear = match self.current {
                Some(s) => s.id == who,
                None => false,
            };
            if clear {
                self.current = None;
            }
        }
        self.scrim.release()
    }

    /// Takes the open surface out of the slot so the caller can dismiss it;
    /// the result is the surface to dismiss, if one was open.
    pub fn dismiss_current(&mut self) -> (r: Option<u64>)
        ensures
            *final(self) == dismiss_spec(*old(self)),
            r == surface_id(old(self).current),
    {
        let r = match self.current {
            Some(s) => Some(s.id),
            None => None,
        };
        self.current = None;
        r
    }

    /// A click on the bar: dismisses the open surface unless the click landed
    /// on that surface's own anchor button (which toggles or swaps by itself).
    pub fn handle_bar_click(&mut self, on_anchor: bool) -> (r: Option<u64>)
        ensures
            stays_open_on_click(*old(self), on_anchor) ==> (r is None
                && *final(self) == *old(self)),
            !stays_open_on_click(*old(self), on_anchor) ==> (*final(self)
                == dismiss_spec(*old(self)) && r == surface_id(old(self).current)),
    {
        let anchored = match self.current {
            Some(s) => s.has_anchor,
            None => false,
        };
        if on_anchor && anchored {
            None
        } else {
            self.dismiss_current()
        }
    }

    /// Routes a key: Escape dismisses the open surface, other keys go to its
    /// key handler.
    pub fn route_key(&mut self, is_escape: bool) -> (r: KeyRoute)
        ensures
            is_escape ==> *final(self) == dismiss_spec(*old(self)) && r == KeyRoute::Dismiss(
                surface_id(old(self).current),
            ),
            !is_escape ==> *final(self) == *old(self) && r == KeyRoute::Forward(
                match old(self).current {
                    Some(s) => if s.has_keys {
                        Some(s.id)
                    } else {
                        None
                    },
                    None => None,
                },
            ),
    {
        if is_escape {
            KeyRoute::Dismiss(self.dismiss_current())
        } else {
            let target = match self.current {
                Some(s) => if s.has_keys {
                    Some(s.id)
                } else {
                    None
                },
                None => None,
            };
            KeyRoute::Forward(target)
        }
    }
}

/// A systray menu's registration as the open surface: the id its close is
/// reported under, and whether that single report was made (or made moot by
/// a swap that replaced the menu).
#[derive(Debug, Clone, Copy, PartialEq, Eq, Structural)]
pub struct Registration {
    pub id: u64,
    pub cleaned: bool,
}

/// The registration once its report is spent.
pub open spec fn retire_spec(g: Registration) -> Registration {
    Registration { cleaned: true, ..g }
}

/// The coordinator and registration after the menu's popover reports it
/// closed: only an unspent registration notifies the coordinator.
pub open spec fn menu_closed_spec(c: SurfaceCoordinator, g: Registration) -> (SurfaceCoordinator, Registration) {
    if g.cleaned {
        (c, g)
    } else {
        (notify_closed_spec(c, g.id), retire_spec(g))
    }
}

impl Registration {
    /// A fresh registration under `id`, its close not yet reported.
    pub fn new(id: u64) -> (r: Self)
        ensures
            r == (Registration { id, cleaned: false }),
    {
        Registration { id, cleaned: false }
    }

    /// Spends the registration's report without making it (the coordinator
    /// already moved on); the result says whether it was still unspent.
    pub fn retire(&mut self) -> (r: bool)
        ensures
            r == !old(self).cleaned,
            *final(self) == retire_spec(*old(self)),
    {
        let r = !self.cleaned;
        self.cleaned = true;
        r
    }
}

/// A menu's popover closed: reports the close to the coordinator unless this
/// registration already reported it. The result says whether it reported.
pub fn menu_closed(coordinator: &mut SurfaceCoordinator, registration: &mut Registration) -> (r: bool)
    ensures
        r == !old(registration).cleaned,
        (*final(coordinator), *final(registration)) == menu_closed_spec(*old(coordinator), *old(registration)),
{
    if registration.retire() {
        coordinator.notify_closed(registration.id);
        true
    } else {
        false
    }
}

/// Installs the registration of a freshly opened menu under `id` (after the
/// coordinator's `open` swapped it in) and hands back the previous one,
/// spent: the replaced menu never reports a close again.
pub fn install_registration(slot: &mut Option<Registration>, id: u64) -> (r: Option<Registration>)
    ensures
        *final(slot) == Some(Registration { id, cleaned: false }),
        r == match *old(slot) {
            Some(g) => Some(retire_spec(g)),
            None => None,
        },
{
    let previous = match *slot {
        Some(g) => {
            let mut g = g;
            g.retire();
            Some(g)
        },
        None => None,
    };
    *slot = Some(Registration::new(id));
    previous
}

/// Drops the menu's registration (when the menu is torn down without its
/// popover reporting a close), reporting the close if it was not reported
/// yet. The result says whether it reported.
pub fn clear_registration(coordinator: &mut SurfaceCoordinator, slot: &mut Option<Registration>) -> (r: bool)
    ensures
        *final(slot) is None,
        r == (*old(slot) is Some && !(*old(slot))->0.cleaned),
        r ==> *final(coordinator) == notify_closed_spec(*old(coordinator), (*old(slot))->0.id),
        !r ==> *final(coordinator) == *old(coordinator),
{
    let taken = *slot;
    *slot = None;
    match taken {
        Some(g) => {
            let mut g = g;
            menu_closed(coordinator, &mut g)
        },
        None => false,
    }
}

/// Each registration reports its close at most once: after a report, or once
/// retired, further closes leave the coordinator alone.
pub proof fn lemma_menu_reports_once(c: SurfaceCoordinator, g: Registration)
    ensures
        ({
            let (c1, g1) = menu_closed_spec(c, g);
            &&& g1.cleaned
            &&& menu_closed_spec(c1, g1) == (c1, g1)
        }),
        menu_closed_spec(c, retire_spec(g)) == (c, retire_spec(g)),
{
}

/// Re-showing a menu swaps it in without a flicker and without a double
/// report: the new menu is opened (the scrim shown first), the old menu's
/// close (run by the swap) is reported once and leaves the new one
/// registered, and once the old registration is retired the old menu never
/// reports again while the new registration starts unreported.
pub proof fn lemma_menu_swap(c: SurfaceCoordinator, old_reg: Registration, surface: OpenSurface)
    requires
        !c.dismissing,
        c.current == Some(OpenSurface { id: old_reg.id, ..c.current->0 }),
        !old_reg.cleaned,
        old_reg.id != surface.id,
        c.scrim.shown >= 1,
        c.scrim.shown < u32::MAX,
        !c.scrim.hide_pending,
    ensures
        ({
            let opened = open_spec(c, surface);
            let (during, g1) = menu_closed_spec(opened, old_reg);
            let after = finish_open_spec(during);
            let g2 = retire_spec(g1);
            &&& opened.scrim.window_visible
            &&& during.current == Some(surface)
            &&& after.current == Some(surface)
            &&& !after.dismissing
            &&& after.scrim.shown == c.scrim.shown
            &&& after.scrim.window_visible
            &&& !after.scrim.hide_pending
            &&& menu_closed_spec(after, g2) == (after, g2)
        }),
{
}

/// Whether a key event stops propagating: exactly when it was handled.
pub fn stops_propagation(handled: bool) -> (r: bool)
    ensures
        r == handled,
{
    handled
}

/// Swapping surfaces: `open` registers the new surface, the previous one's
/// close report arrives during the swap, then the swap ends. The new surface
/// stays registered, the scrim keeps one show per open surface and stays on
/// screen, and no hide is scheduled.
pub proof fn lemma_swap_keeps_new_surface(c: SurfaceCoordinator, surface: OpenSurface)
    requires
        !c.dismissing,
        c.current matches Some(prev) && prev.id != surface.id,
        c.scrim.shown >= 1,
        c.scrim.shown < u32::MAX,
        !c.scrim.hide_pending,
    ensures
        ({
            let after = finish_open_spec(notify_closed_spec(open_spec(c, surface), c.current->0.id));
            &&& after.current == Some(surface)
            &&& !after.dismissing
            &&& after.scrim.shown == c.scrim.shown
            &&& after.scrim.window_visible
            &&& !after.scrim.hide_pending
        }),
{
}

/// Opening a surface on an idle bar and closing it again leaves nothing open
/// and the scrim count back at zero with its hide scheduled; once the hide
/// fires the scrim is off screen.
pub proof fn lemma_open_close_balanced(c: SurfaceCoordinator, surface: OpenSurface)
    requires
        c.current is None,
        !c.dismissing,
        c.scrim.shown == 0,
    ensures
        ({
            let closed = notify_closed_spec(finish_open_spec(open_spec(c, surface)), surface.id);
            &&& closed.current is None
            &&& closed.scrim.shown == 0
            &&& closed.scrim.hide_pending
            &&& !finish_hide_spec(closed.scrim).window_visible
        }),
{
}

/// A stale close report (from a surface that is no longer registered) never
/// clears the open surface.
pub proof fn lemma_stale_close_keeps_current(c: SurfaceCoordinator, who: u64)
    requires
        surface_id(c.current) != Some(who),
    ensures
        notify_closed_spec(c, who).current == c.current,
{
}

} // verus!
