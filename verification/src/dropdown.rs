//! Dropdown popovers on the bar: toggling, placement, margins, and the cache
//! of dropdown instances by name.

use vstd::prelude::*;

use crate::text::text_eq;

verus! {

/// What a click on a bar button does to a dropdown popover.
#[derive(Debug, Clone, Copy, PartialEq, Eq, Structural)]
pub enum ToggleAction {
    /// It is open on this button: close it.
    Close,
    /// It is open on another button: thaw that button, move the popover over
    /// and show it again (a single-click swap).
    Reparent,
    /// It is closed: attach it to this button and show it.
    Open,
}

/// Toggling for a bar button.
pub fn toggle_for(visible: bool, same_parent: bool) -> (r: ToggleAction)
    ensures
        visible && same_parent ==> r == ToggleAction::Close,
        visible && !same_parent ==> r == ToggleAction::Reparent,
        !visible ==> r == ToggleAction::Open,
{
    if visible && same_parent {
        ToggleAction::Close
    } else if visible {
        ToggleAction::Reparent
    } else {
        ToggleAction::Open
    }
}

/// Toggling for an arbitrary widget (no button to freeze): close when open on
/// this widget, otherwise attach and show.
pub fn toggle_for_widget(visible: bool, same_parent: bool) -> (r: ToggleAction)
    ensures
        visible && same_parent ==> r == ToggleAction::Close,
        !(visible && same_parent) ==> r == ToggleAction::Open,
{
    if visible && same_parent {
        ToggleAction::Close
    } else {
        ToggleAction::Open
    }
}

/// Side of its button a popover opens on.
#[derive(Debug, Clone, Copy, PartialEq, Eq, Structural)]
pub enum PopoverPosition {
    Top,
    Bottom,
    Left,
    Right,
}

/// The popover side for the bar window's edge classes: a bottom bar opens
/// upward, a left bar to the right, a right bar to the left, otherwise
/// downward (also when the button is not in a window).
pub fn popover_position(in_window: bool, bottom: bool, left: bool, right: bool) -> (r: PopoverPosition)
    ensures
        !in_window ==> r == PopoverPosition::Bottom,
        in_window && bottom ==> r == PopoverPosition::Top,
        in_window && !bottom && left ==> r == PopoverPosition::Right,
        in_window && !bottom && !left && right ==> r == PopoverPosition::Left,
        in_window && !bottom && !left && !right ==> r == PopoverPosition::Bottom,
{
    if !in_window {
        PopoverPosition::Bottom
    } else if bottom {
        PopoverPosition::Top
    } else if left {
        PopoverPosition::Right
    } else if right {
        PopoverPosition::Left
    } else {
        PopoverPosition::Bottom
    }
}

/// The CSS class marking a popover's position.
pub fn position_class(position: PopoverPosition) -> (r: &'static str)
    ensures
        position == PopoverPosition::Top ==> r@ == "position-top"@,
        position == PopoverPosition::Bottom ==> r@ == "position-bottom"@,
        position == PopoverPosition::Left ==> r@ == "position-left"@,
        position == PopoverPosition::Right ==> r@ == "position-right"@,
{
    match position {
        PopoverPosition::Top => "position-top",
        PopoverPosition::Bottom => "position-bottom",
        PopoverPosition::Left => "position-left",
        PopoverPosition::Right => "position-right",
    }
}

/// Edge of the screen the bar sits on.
#[derive(Debug, Clone, Copy, PartialEq, Eq, Structural)]
pub enum Location {
    Top,
    Bottom,
    Left,
    Right,
}

/// Pixel margins applied to a dropdown's content.
#[derive(Debug, Clone, Copy, PartialEq, Eq, Structural)]
pub struct DropdownMargins {
    pub top: i32,
    pub bottom: i32,
    pub start: i32,
    pub end: i32,
}

/// Margins for a bar at `location`: the bar-facing edge gets the small `gap`,
/// the other edges the standard `content` padding.
pub fn margins_for(location: Location, gap: i32, content: i32) -> (r: DropdownMargins)
    ensures
        r.top == (if location == Location::Top {
            gap
        } else {
            content
        }),
        r.bottom == (if location == Location::Bottom {
            gap
        } else {
            content
        }),
        r.start == (if location == Location::Left {
            gap
        } else {
            content
        }),
        r.end == (if location == Location::Right {
            gap
        } else {
            content
        }),
{
    match location {
        Location::Top => DropdownMargins { top: gap, bottom: content, start: content, end: content },
        Location::Bottom => DropdownMargins { top: content, bottom: gap, start: content, end: content },
        Location::Left => DropdownMargins { top: content, bottom: content, start: gap, end: content },
        Location::Right => DropdownMargins { top: content, bottom: content, start: content, end: gap },
    }
}

/// What closing a dropdown popover must undo.
#[derive(Debug, Clone, Copy, PartialEq, Eq, Structural)]
pub struct ClosedEffects {
    /// Thaw the frozen bar button.
    pub thaw_button: bool,
    /// Release the size lock on the popover's parent.
    pub release_parent_size: bool,
    /// Report the close of this registration to the coordinator (drops a
    /// scrim show).
    pub notify_coordinator: Option<u64>,
}

/// What a dropdown popover holds between being shown and being closed.
#[derive(Debug, Clone, Copy, PartialEq, Eq, Structural)]
pub struct DropdownHooks {
    /// Attached to its bar's coordinator.
    pub wired: bool,
    /// A bar button is frozen for it (to be thawed on close).
    pub frozen: bool,
    /// Its registration as the bar's open surface (the dismiss handle's id).
    pub registered: Option<u64>,
}

/// The hooks once the popover closed: the frozen button and the
/// registration are consumed.
pub open spec fn closed_spec(h: DropdownHooks) -> DropdownHooks {
    DropdownHooks { wired: h.wired, frozen: false, registered: None }
}

/// The close report a closed popover sends: its registration, if it has one
/// and its bar is wired.
pub open spec fn close_report_spec(h: DropdownHooks) -> Option<u64> {
    if h.wired {
        h.registered
    } else {
        None
    }
}

impl DropdownHooks {
    /// A freshly built dropdown: not wired, nothing frozen or registered.
    pub fn new() -> (r: Self)
        ensures
            r == (DropdownHooks { wired: false, frozen: false, registered: None }),
    {
        DropdownHooks { wired: false, frozen: false, registered: None }
    }

    /// The registry attached the bar's wiring.
    pub fn attach(&mut self)
        ensures
            *final(self) == (DropdownHooks { wired: true, ..*old(self) }),
    {
        self.wired = true;
    }

    /// The bar button was frozen for this popover (a label-freezing style).
    pub fn freeze(&mut self)
        ensures
            *final(self) == (DropdownHooks { frozen: true, ..*old(self) }),
    {
        self.frozen = true;
    }

    /// Takes the frozen button (before reparenting to another button): the
    /// result says whether one must be thawed.
    pub fn take_frozen(&mut self) -> (r: bool)
        ensures
            r == old(self).frozen,
            *final(self) == (DropdownHooks { frozen: false, ..*old(self) }),
    {
        let r = self.frozen;
        self.frozen = false;
        r
    }

    /// Registers the popover as the open surface under `id` (right before it
    /// pops up). Without wiring nothing is registered; the result says
    /// whether the caller opens it on the coordinator.
    pub fn register_open(&mut self, id: u64) -> (r: bool)
        ensures
            r == old(self).wired,
            r ==> *final(self) == (DropdownHooks { registered: Some(id), ..*old(self) }),
            !r ==> *final(self) == *old(self),
    {
        if self.wired {
            self.registered = Some(id);
        }
        self.wired
    }

    /// The popover closed: a frozen button is thawed and its size lock
    /// released (when it still has a parent); a registered popover of a wired
    /// bar reports its close. Both are consumed, so a further close undoes and
    /// reports nothing.
    pub fn on_closed(&mut self, has_parent: bool) -> (r: ClosedEffects)
        ensures
            r.thaw_button == old(self).frozen,
            r.release_parent_size == (old(self).frozen && has_parent),
            r.notify_coordinator == close_report_spec(*old(self)),
            *final(self) == closed_spec(*old(self)),
    {
        let frozen = self.take_frozen();
        let registered = self.registered;
        self.registered = None;
        let notify_coordinator = if self.wired {
            registered
        } else {
            None
        };
        ClosedEffects { thaw_button: frozen, release_parent_size: frozen && has_parent, notify_coordinator }
    }
}

/// A close consumes what it undoes: closing again thaws nothing and reports
/// nothing, so each registration reports its close at most once.
pub proof fn lemma_close_reported_once(h: DropdownHooks)
    ensures
        !closed_spec(h).frozen,
        close_report_spec(closed_spec(h)) is None,
        closed_spec(closed_spec(h)) == closed_spec(h),
{
}

/// Returns `value` unchanged; a dropdown whose service is missing is
/// disabled on this system.
pub fn require_service<T>(dropdown: &str, service: &str, value: Option<T>) -> (r: Option<T>)
    ensures
        r == value,
{
    value
}

/// The registered dropdowns.
pub const DROPDOWN_NAMES: [&'static str; 11] = [
    "audio",
    "battery",
    "bluetooth",
    "brightness",
    "calendar",
    "dashboard",
    "iwd",
    "media",
    "network",
    "notification",
    "weather",
];

/// Whether `name` is a registered dropdown.
pub fn is_registered(name: &str) -> (r: bool)
    ensures
        r == exists|i: int| 0 <= i < 11 && (#[trigger] DROPDOWN_NAMES@[i])@ == name@,
{
    let names = DROPDOWN_NAMES;
    let mut i: usize = 0;
    while i < 11
        invariant
            i <= 11,
            names@ == DROPDOWN_NAMES@,
            forall|k: int| 0 <= k < i ==> (#[trigger] DROPDOWN_NAMES@[k])@ != name@,
        decreases 11 - i,
    {
        if text_eq(names[i], name) {
            return true;
        }
        i = i + 1;
    }
    false
}

/// Dropdown instances cached by name, created on first use and reused.
#[derive(Debug)]
pub struct NamedCache<T> {
    entries: Vec<(String, T)>,
}

/// The value cached under `key`: the first entry with that name.
pub open spec fn cache_lookup<T>(entries: Seq<(String, T)>, key: Seq<char>) -> Option<T>
    decreases entries.len(),
{
    if entries.len() == 0 {
        None
    } else if entries[0].0@ == key {
        Some(entries[0].1)
    } else {
        cache_lookup(entries.drop_first(), key)
    }
}

proof fn lemma_cache_push<T>(entries: Seq<(String, T)>, name: String, value: T, key: Seq<char>)
    requires
        cache_lookup(entries, name@) is None,
    ensures
        cache_lookup(entries.push((name, value)), key) == (if key == name@ {
            Some(value)
        } else {
            cache_lookup(entries, key)
        }),
    decreases entries.len(),
{
    let e = entries.push((name, value));
    if entries.len() > 0 {
        assert(e.drop_first() =~= entries.drop_first().push((name, value)));
        assert(e[0] == entries[0]);
        if entries[0].0@ == key {
            assert(cache_lookup(e, key) == Some(entries[0].1));
        } else {
            assert(entries[0].0@ != name@);
            lemma_cache_push(entries.drop_first(), name, value, key);
            assert(cache_lookup(e, key) == cache_lookup(e.drop_first(), key));
        }
    } else {
        assert(e[0] == (name, value));
        assert(e.drop_first() =~= Seq::<(String, T)>::empty());
        assert(cache_lookup(e.drop_first(), key) is None);
    }
}

impl<T> NamedCache<T> {
    /// The value cached under `key`.
    pub closed spec fn spec_get(&self, key: Seq<char>) -> Option<T> {
        cache_lookup(self.entries@, key)
    }

    /// An empty cache.
    pub fn new() -> (r: Self)
        ensures
            forall|k: Seq<char>| r.spec_get(k) is None,
    {
        NamedCache { entries: Vec::new() }
    }

    /// The value cached under `name`, if any.
    pub fn get(&self, name: &str) -> (r: Option<&T>)
        ensures
            match r {
                Some(v) => self.spec_get(name@) == Some(*v),
                None => self.spec_get(name@) is None,
            },
    {
        let mut i: usize = 0;
        assert(self.entries@.skip(0) =~= self.entries@);
        while i < self.entries.len()
            invariant
                i <= self.entries@.len(),
                cache_lookup(self.entries@, name@) == cache_lookup(self.entries@.skip(i as int), name@),
            decreases self.entries@.len() - i,
        {
            assert(self.entries@.skip(i as int).drop_first() =~= self.entries@.skip(i + 1));
            assert(self.entries@.skip(i as int)[0] == self.entries@[i as int]);
            if text_eq(self.entries[i].0.as_str(), name) {
                return Some(&self.entries[i].1);
            }
            i = i + 1;
        }
        None
    }

    /// Caches `value` under `name`, which must not be cached yet.
    pub fn insert(&mut self, name: String, value: T)
        requires
            old(self).spec_get(name@) is None,
        ensures
            final(self).spec_get(name@) == Some(value),
            forall|k: Seq<char>| k != name@ ==> final(self).spec_get(k) == old(self).spec_get(k),
    {
        let ghost old_entries = self.entries@;
        let ghost n = name;
        let ghost v = value;
        self.entries.push((name, value));
        proof {
            assert(self.entries@ == old_entries.push((n, v)));
            lemma_cache_push(old_entries, n, v, n@);
            assert forall|k: Seq<char>| k != n@ implies cache_lookup(self.entries@, k) == cache_lookup(
                old_entries,
                k,
            ) by {
                lemma_cache_push(old_entries, n, v, k);
            }
        }
    }
}

impl<T> NamedCache<T> {
    /// After a miss on `name`, takes what the dropdown factory built: a built
    /// instance is cached under `name` (later lookups return it), a refused
    /// build caches nothing, so the next lookup tries the factory again. The
    /// result says whether an instance was cached.
    pub fn cache_built(&mut self, name: String, built: Option<T>) -> (r: bool)
        requires
            old(self).spec_get(name@) is None,
        ensures
            r == built is Some,
            built matches Some(v) ==> final(self).spec_get(name@) == Some(v),
            forall|k: Seq<char>| k != name@ ==> final(self).spec_get(k) == old(self).spec_get(k),
            built is None ==> final(self).spec_get(name@) is None,
    {
        match built {
            Some(v) => {
                self.insert(name, v);
                true
            },
            None => false,
        }
    }
}

/// A name that is cached reads back what was cached; caching leaves every
/// other name as it was.
pub proof fn lemma_cache_read_after_insert<T>(entries: Seq<(String, T)>, name: String, value: T, other: Seq<char>)
    requires
        cache_lookup(entries, name@) is None,
    ensures
        cache_lookup(entries.push((name, value)), name@) == Some(value),
        other != name@ ==> cache_lookup(entries.push((name, value)), other) == cache_lookup(entries, other),
{
    lemma_cache_push(entries, name, value, name@);
    lemma_cache_push(entries, name, value, other);
}

} // verus!
