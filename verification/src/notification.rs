//! Notification cards (dropdown items and popups): action button rows, time
//! labels, icon styling and what a click on the card does.

use vstd::prelude::*;

use crate::text::{ends_with, ends_with_spec, text_eq, Text, TextModel};

verus! {

/// An action a notification offers.
#[derive(Debug)]
pub struct NotificationAction {
    pub id: String,
    pub label: String,
}

/// The id of the default action, invoked by clicking the notification itself
/// rather than through a button.
pub const DEFAULT_ACTION_ID: &'static str = "default";

/// Most action buttons on one row.
pub const MAX_ACTIONS_PER_ROW: usize = 3;

/// Indices of the actions that get a button (all but the default action).
pub open spec fn visible_actions(actions: Seq<NotificationAction>) -> Seq<usize>
    decreases actions.len(),
{
    if actions.len() == 0 {
        Seq::empty()
    } else {
        let prev = visible_actions(actions.drop_last());
        if actions.last().id@ == DEFAULT_ACTION_ID@ {
            prev
        } else {
            prev.push((actions.len() - 1) as usize)
        }
    }
}

/// Row `r` of the button layout: the next (up to) three visible actions.
pub open spec fn row_spec(visible: Seq<usize>, r: int) -> Seq<usize> {
    let start = 3 * r;
    let end = if start + 3 <= visible.len() {
        start + 3
    } else {
        visible.len() as int
    };
    visible.subrange(start, end)
}

/// The number of rows: one per started group of three.
pub open spec fn row_count(n: int) -> int {
    (n + 2) / 3
}

fn visible_action_indices(actions: &Vec<NotificationAction>) -> (r: Vec<usize>)
    ensures
        r@ == visible_actions(actions@),
{
    let mut out: Vec<usize> = Vec::new();
    let mut i: usize = 0;
    while i < actions.len()
        invariant
            i <= actions.len(),
            out@ == visible_actions(actions@.take(i as int)),
        decreases actions.len() - i,
    {
        assert(actions@.take(i + 1).drop_last() =~= actions@.take(i as int));
        assert(actions@.take(i + 1).last() == actions@[i as int]);
        if !text_eq(actions[i].id.as_str(), DEFAULT_ACTION_ID) {
            out.push(i);
        }
        i = i + 1;
    }
    assert(actions@.take(actions@.len() as int) =~= actions@);
    out
}

/// Lays the action buttons out in rows of at most three, in order, leaving
/// out the default action; each row holds indices into `actions`. No actions
/// means no rows (the action area is hidden).
pub fn action_rows(actions: &Vec<NotificationAction>) -> (r: Vec<Vec<usize>>)
    ensures
        r@.len() == row_count(visible_actions(actions@).len() as int),
        forall|k: int| 0 <= k < r@.len() ==> (#[trigger] r@[k])@ == row_spec(visible_actions(actions@), k),
{
    let visible = visible_action_indices(actions);
    let n = visible.len();
    let mut rows: Vec<Vec<usize>> = Vec::new();
    let mut start: usize = 0;
    while start < n
        invariant
            n == visible@.len(),
            visible@ == visible_actions(actions@),
            start % 3 == 0,
            start <= n + 2,
            start < n ==> rows@.len() == start / 3,
            start >= n ==> rows@.len() == row_count(n as int),
            rows@.len() == start / 3,
            forall|k: int| 0 <= k < rows@.len() ==> (#[trigger] rows@[k])@ == row_spec(visible@, k),
        decreases n + 3 - start,
    {
        let end = if n - start >= 3 {
            start + 3
        } else {
            n
        };
        let mut row: Vec<usize> = Vec::new();
        let mut j = start;
        while j < end
            invariant
                start <= j <= end,
                end <= n,
                n == visible@.len(),
                row@ == visible@.subrange(start as int, j as int),
            decreases end - j,
        {
            row.push(visible[j]);
            assert(visible@.subrange(start as int, j + 1) =~= visible@.subrange(start as int, j as int).push(
                visible@[j as int],
            ));
            j = j + 1;
        }
        assert(row@ == row_spec(visible@, (start / 3) as int));
        rows.push(row);
        start = start + 3;
    }
    rows
}

/// How long ago a notification arrived, as shown on its card.
#[derive(Debug, Clone, Copy, PartialEq, Eq, Structural)]
pub enum RelativeTime {
    JustNow,
    Minutes(u64),
    Hours(u64),
}

/// A translatable time label: its message id and, for counted times, the
/// argument name and value.
#[derive(Debug, Clone, Copy, PartialEq, Eq)]
pub struct TimeLabel {
    pub message: &'static str,
    pub argument: Option<(&'static str, u64)>,
}

/// Where a notification card is shown.
#[derive(Debug, Clone, Copy, PartialEq, Eq, Structural)]
pub enum CardSurface {
    /// An item of the notification dropdown.
    Dropdown,
    /// A popup on screen.
    Popup,
}

/// The time label of a card.
pub fn time_label(time: RelativeTime, surface: CardSurface) -> (r: TimeLabel)
    ensures
        time == RelativeTime::JustNow ==> r.argument is None && r.message@ == (match surface {
            CardSurface::Dropdown => "notification-dropdown-time-just-now"@,
            CardSurface::Popup => "notification-popup-time-just-now"@,
        }),
        time matches RelativeTime::Minutes(m) ==> (r.argument matches Some((name, v)) && name@
            == "minutes"@ && v == m) && r.message@ == (match surface {
            CardSurface::Dropdown => "notification-dropdown-time-minutes-ago"@,
            CardSurface::Popup => "notification-popup-time-minutes-ago"@,
        }),
        time matches RelativeTime::Hours(h) ==> (r.argument matches Some((name, v)) && name@
            == "hours"@ && v == h) && r.message@ == (match surface {
            CardSurface::Dropdown => "notification-dropdown-time-hours-ago"@,
            CardSurface::Popup => "notification-popup-time-hours-ago"@,
        }),
{
    match (time, surface) {
        (RelativeTime::JustNow, CardSurface::Dropdown) => TimeLabel {
            message: "notification-dropdown-time-just-now",
            argument: None,
        },
        (RelativeTime::JustNow, CardSurface::Popup) => TimeLabel {
            message: "notification-popup-time-just-now",
            argument: None,
        },
        (RelativeTime::Minutes(m), CardSurface::Dropdown) => TimeLabel {
            message: "notification-dropdown-time-minutes-ago",
            argument: Some(("minutes", m)),
        },
        (RelativeTime::Minutes(m), CardSurface::Popup) => TimeLabel {
            message: "notification-popup-time-minutes-ago",
            argument: Some(("minutes", m)),
        },
        (RelativeTime::Hours(h), CardSurface::Dropdown) => TimeLabel {
            message: "notification-dropdown-time-hours-ago",
            argument: Some(("hours", h)),
        },
        (RelativeTime::Hours(h), CardSurface::Popup) => TimeLabel {
            message: "notification-popup-time-hours-ago",
            argument: Some(("hours", h)),
        },
    }
}

/// The icon resolved for a notification.
#[derive(Debug)]
pub enum ResolvedIcon {
    /// An icon-theme name.
    Named(String),
    /// An image file.
    File(String),
}

/// Whether the icon container gets the `file-icon` class (full-colour
/// styling): image files and non-symbolic theme icons.
pub fn uses_file_icon_class(icon: &ResolvedIcon) -> (r: bool)
    ensures
        r == (match icon {
            ResolvedIcon::Named(name) => !ends_with_spec(name@, "-symbolic"@),
            ResolvedIcon::File(_) => true,
        }),
{
    match icon {
        ResolvedIcon::Named(name) => !ends_with(name.as_str(), "-symbolic"),
        ResolvedIcon::File(_) => true,
    }
}

/// The application label of a popup: its app name, or the unknown-app
/// message.
pub fn app_label(app_name: Option<String>) -> (r: Text)
    ensures
        match app_name {
            Some(n) => r@ == TextModel::Literal(n@),
            None => r@ == TextModel::Message("notification-popup-unknown-app"@),
        },
{
    match app_name {
        Some(n) => Text::Literal(n),
        None => Text::Message("notification-popup-unknown-app"),
    }
}

/// What a click on a popup with a default action does to the popup.
#[derive(Debug, Clone, Copy, PartialEq, Eq, Structural)]
pub enum PopupCloseBehavior {
    /// Close the popup, keeping the notification in the history.
    Dismiss,
    /// Remove the notification.
    Remove,
}

/// Whether a click on a popup removes the notification (rather than only
/// closing the popup); the default action is invoked either way.
pub fn click_removes_notification(behavior: PopupCloseBehavior) -> (r: bool)
    ensures
        r == (behavior == PopupCloseBehavior::Remove),
{
    match behavior {
        PopupCloseBehavior::Dismiss => false,
        PopupCloseBehavior::Remove => true,
    }
}

/// The button rows hold every visible action exactly once and in order: row
/// `k` continues where row `k - 1` ended, every row but the last holds three
/// actions, and the last holds one to three.
pub proof fn lemma_rows_cover_visible(visible: Seq<usize>, k: int)
    requires
        0 <= k < row_count(visible.len() as int),
    ensures
        1 <= row_spec(visible, k).len() <= MAX_ACTIONS_PER_ROW,
        k < row_count(visible.len() as int) - 1 ==> row_spec(visible, k).len() == 3,
        forall|t: int| 0 <= t < row_spec(visible, k).len() ==> #[trigger] row_spec(visible, k)[t] == visible[3 * k + t],
        k == row_count(visible.len() as int) - 1 ==> 3 * k + row_spec(visible, k).len() == visible.len(),
{
}

/// The buttons are exactly the non-default actions, in order: every listed
/// index names an action whose id is not `default` (wherever a default
/// action sits in the list), the indices strictly increase, and every
/// action that is not the default one is listed.
pub proof fn lemma_visible_actions_exact(actions: Seq<NotificationAction>)
    requires
        actions.len() <= usize::MAX,
    ensures
        forall|t: int|
            0 <= t < visible_actions(actions).len() ==> (#[trigger] visible_actions(actions)[t]) < actions.len()
                && actions[visible_actions(actions)[t] as int].id@ != "default"@,
        forall|t1: int, t2: int|
            0 <= t1 < t2 < visible_actions(actions).len() ==> (#[trigger] visible_actions(actions)[t1])
                < (#[trigger] visible_actions(actions)[t2]),
        forall|i: int|
            0 <= i < actions.len() && (#[trigger] actions[i]).id@ != "default"@ ==> exists|t: int|
                0 <= t < visible_actions(actions).len() && visible_actions(actions)[t] == i,
    decreases actions.len(),
{
    assert(DEFAULT_ACTION_ID@ == "default"@);
    if actions.len() > 0 {
        let init = actions.drop_last();
        lemma_visible_actions_exact(init);
        let prev = visible_actions(init);
        let v = visible_actions(actions);
        let n = actions.len() - 1;
        assert forall|t: int| 0 <= t < prev.len() implies prev[t] < n && actions[prev[t] as int] == init[prev[t] as int] by {
            assert(prev[t] < init.len());
        }
        assert forall|i: int| 0 <= i < actions.len() && (#[trigger] actions[i]).id@ != "default"@ implies exists|t: int|
            0 <= t < v.len() && v[t] == i by {
            if i < n {
                assert(init[i] == actions[i]);
                let t = choose|t: int| 0 <= t < prev.len() && prev[t] == i;
                assert(v[t] == prev[t]);
            } else {
                assert(v == prev.push(n as usize));
                assert(v[prev.len() as int] == i);
            }
        }
    }
}

/// No button row holds the default action: each entry of each row names an
/// action whose id is not `default`.
pub proof fn lemma_rows_skip_default(actions: Seq<NotificationAction>, k: int, t: int)
    requires
        actions.len() <= usize::MAX,
        0 <= k < row_count(visible_actions(actions).len() as int),
        0 <= t < row_spec(visible_actions(actions), k).len(),
    ensures
        row_spec(visible_actions(actions), k)[t] < actions.len(),
        actions[row_spec(visible_actions(actions), k)[t] as int].id@ != "default"@,
{
    lemma_visible_actions_exact(actions);
    lemma_rows_cover_visible(visible_actions(actions), k);
    assert(row_spec(visible_actions(actions), k)[t] == visible_actions(actions)[3 * k + t]);
}

} // verus!
