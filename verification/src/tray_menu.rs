//! The cascading system-tray menu: which rows and separators a column shows,
//! keyboard navigation over its rows, and how each row looks.

use vstd::prelude::*;

use crate::iwd_types::div_toward_zero;
use crate::text::{str_opt_view, string_opt_view};

verus! {

/// DBusMenu item type.
#[derive(Debug, Clone, Copy, PartialEq, Eq, Structural)]
pub enum MenuItemType {
    Standard,
    Separator,
}

/// DBusMenu item disposition (how the item should be presented).
#[derive(Debug, Clone, Copy, PartialEq, Eq, Structural)]
pub enum Disposition {
    Normal,
    Informative,
    Warning,
    Alert,
}

/// DBusMenu toggle type; `Plain` items cannot be checked.
#[derive(Debug, Clone, Copy, PartialEq, Eq, Structural)]
pub enum ToggleType {
    Plain,
    Checkmark,
    Radio,
}

/// DBusMenu toggle state.
#[derive(Debug, Clone, Copy, PartialEq, Eq, Structural)]
pub enum ToggleState {
    Unchecked,
    Checked,
    Indeterminate,
}

/// One item of a DBusMenu layout tree.
#[derive(Debug)]
pub struct MenuItem {
    pub id: i32,
    pub item_type: MenuItemType,
    pub label: Option<String>,
    pub enabled: bool,
    pub visible: bool,
    pub icon_name: Option<String>,
    pub icon_data: Option<Vec<u8>>,
    /// Key combinations, each a list of key names (`[["Control", "q"]]`).
    pub shortcut: Option<Vec<Vec<String>>>,
    pub toggle_type: ToggleType,
    pub toggle_state: ToggleState,
    pub disposition: Disposition,
    pub children: Vec<MenuItem>,
}

/// Whether an item of `children` is visible.
pub open spec fn any_visible(children: Seq<MenuItem>) -> bool {
    exists|k: int| 0 <= k < children.len() && (#[trigger] children[k]).visible
}

/// A row opens a submenu when it has at least one visible child; a submenu
/// without visible children degrades to a plain leaf.
pub open spec fn opens_submenu(item: MenuItem) -> bool {
    item.children@.len() > 0 && any_visible(item.children@)
}

/// Whether the item is drawn as a row (visible and not a separator).
pub open spec fn is_row(item: MenuItem) -> bool {
    item.visible && item.item_type != MenuItemType::Separator
}

/// What a column shows, top to bottom.
#[derive(Debug, Clone, Copy, PartialEq, Eq, Structural)]
pub enum MenuEntry {
    /// A divider between two groups of rows.
    Separator,
    /// The row for `children[index]`; `submenu` when it opens a child column.
    Row { index: usize, submenu: bool },
}

/// Column layout after a prefix of the children: the entries so far, whether a
/// row was already placed, and whether a separator waits for the next row.
pub open spec fn layout_state(s: Seq<MenuItem>) -> (Seq<MenuEntry>, bool, bool)
    decreases s.len(),
{
    if s.len() == 0 {
        (Seq::empty(), false, false)
    } else {
        let (out, has_items, pending) = layout_state(s.drop_last());
        let child = s.last();
        if !child.visible {
            (out, has_items, pending)
        } else if child.item_type == MenuItemType::Separator {
            (out, has_items, has_items)
        } else {
            let out2 = if pending {
                out.push(MenuEntry::Separator)
            } else {
                out
            };
            (
                out2.push(
                    MenuEntry::Row { index: (s.len() - 1) as usize, submenu: opens_submenu(child) },
                ),
                true,
                false,
            )
        }
    }
}

/// The entries of a column for `children`.
pub open spec fn layout_spec(s: Seq<MenuItem>) -> Seq<MenuEntry> {
    layout_state(s).0
}

fn has_visible(children: &Vec<MenuItem>) -> (r: bool)
    ensures
        r == any_visible(children@),
{
    let mut i: usize = 0;
    while i < children.len()
        invariant
            i <= children.len(),
            forall|k: int| 0 <= k < i ==> !(#[trigger] children@[k]).visible,
        decreases children.len() - i,
    {
        if children[i].visible {
            return true;
        }
        i = i + 1;
    }
    false
}

/// Whether `item` is drawn with a submenu arrow and opens a child column.
pub fn has_submenu(item: &MenuItem) -> (r: bool)
    ensures
        r == opens_submenu(*item),
{
    item.children.len() > 0 && has_visible(&item.children)
}

/// Lays out one menu column: hidden items are skipped, and separators are
/// deferred so that leading, trailing and consecutive ones never render.
pub fn layout_column(children: &Vec<MenuItem>) -> (r: Vec<MenuEntry>)
    ensures
        r@ == layout_spec(children@),
{
    let mut out: Vec<MenuEntry> = Vec::new();
    let mut has_items = false;
    let mut pending_separator = false;
    let mut i: usize = 0;
    while i < children.len()
        invariant
            i <= children.len(),
            layout_state(children@.take(i as int)) == (out@, has_items, pending_separator),
        decreases children.len() - i,
    {
        proof {
            assert(children@.take(i + 1).drop_last() =~= children@.take(i as int));
        }
        let child = &children[i];
        if child.visible {
            if child.item_type == MenuItemType::Separator {
                pending_separator = has_items;
            } else {
                if pending_separator {
                    out.push(MenuEntry::Separator);
                    pending_separator = false;
                }
                let submenu = has_submenu(child);
                out.push(MenuEntry::Row { index: i, submenu });
                has_items = true;
            }
        }
        i = i + 1;
    }
    proof {
        assert(children@.take(children@.len() as int) =~= children@);
    }
    out
}

proof fn lemma_layout_shape(s: Seq<MenuItem>)
    ensures
        ({
            let (out, has_items, pending) = layout_state(s);
            &&& has_items == (out.len() > 0)
            &&& pending ==> has_items
            &&& out.len() > 0 ==> out.last() is Row
            &&& out.len() > 0 ==> out[0] is Row
            &&& forall|k: int|
                0 <= k < out.len() - 1 ==> !((#[trigger] out[k]) is Separator && out[k + 1] is Separator)
        }),
    decreases s.len(),
{
    if s.len() > 0 {
        lemma_layout_shape(s.drop_last());
        let (out, has_items, pending) = layout_state(s.drop_last());
        let child = s.last();
        if child.visible && child.item_type != MenuItemType::Separator {
            let out2 = if pending {
                out.push(MenuEntry::Separator)
            } else {
                out
            };
            let r = out2.push(
                MenuEntry::Row { index: (s.len() - 1) as usize, submenu: opens_submenu(child) },
            );
            assert forall|k: int| 0 <= k < r.len() - 1 implies !((#[trigger] r[k]) is Separator
                && r[k + 1] is Separator) by {
                if pending && k == out.len() - 1 {
                    assert(out[k] is Row);
                }
                if k < out.len() - 1 {
                    assert(r[k] == out[k] && r[k + 1] == out[k + 1]);
                }
            }
            if out.len() > 0 {
                assert(r[0] == out[0]);
            }
        }
    }
}

/// Whether entry `e` is a row standing for a visible, non-separator item of
/// `s`, with a submenu exactly when that item has visible children.
pub open spec fn row_entry_ok(s: Seq<MenuItem>, e: MenuEntry) -> bool {
    match e {
        MenuEntry::Row { index, submenu } => index < s.len() && is_row(s[index as int]) && submenu
            == opens_submenu(s[index as int]),
        MenuEntry::Separator => true,
    }
}

proof fn lemma_layout_rows(s: Seq<MenuItem>)
    requires
        s.len() <= usize::MAX,
    ensures
        forall|k: int| 0 <= k < layout_state(s).0.len() ==> row_entry_ok(s, #[trigger] layout_state(s).0[k]),
    decreases s.len(),
{
    if s.len() > 0 {
        lemma_layout_rows(s.drop_last());
        let (out, has_items, pending) = layout_state(s.drop_last());
        let child = s.last();
        assert forall|k: int| 0 <= k < out.len() implies row_entry_ok(s, #[trigger] out[k]) by {
            assert(row_entry_ok(s.drop_last(), out[k]));
            if out[k] is Row {
                assert(s.drop_last()[out[k]->index as int] == s[out[k]->index as int]);
            }
        }
        if child.visible && child.item_type != MenuItemType::Separator {
            let out2 = if pending {
                out.push(MenuEntry::Separator)
            } else {
                out
            };
            let r = out2.push(
                MenuEntry::Row { index: (s.len() - 1) as usize, submenu: opens_submenu(child) },
            );
            assert forall|k: int| 0 <= k < r.len() implies row_entry_ok(s, #[trigger] r[k]) by {
                if k < out.len() {
                    assert(r[k] == out[k]);
                }
            }
        }
    }
}

/// A column never starts or ends with a separator, never shows two separators
/// in a row, and each row stands for a visible, non-separator item, with a
/// submenu exactly when that item has visible children.
pub proof fn lemma_layout_separators(s: Seq<MenuItem>)
    requires
        s.len() <= usize::MAX,
    ensures
        layout_spec(s).len() > 0 ==> layout_spec(s)[0] is Row,
        layout_spec(s).len() > 0 ==> layout_spec(s).last() is Row,
        forall|k: int|
            0 <= k < layout_spec(s).len() - 1 ==> !((#[trigger] layout_spec(s)[k]) is Separator
                && layout_spec(s)[k + 1] is Separator),
        forall|k: int| 0 <= k < layout_spec(s).len() ==> row_entry_ok(s, #[trigger] layout_spec(s)[k]),
{
    lemma_layout_shape(s);
    lemma_layout_rows(s);
}

/// Every visible, non-separator item gets a row.
pub proof fn lemma_layout_rows_complete(s: Seq<MenuItem>, i: int)
    requires
        s.len() <= usize::MAX,
        0 <= i < s.len(),
        is_row(s[i]),
    ensures
        exists|k: int|
            0 <= k < layout_spec(s).len() && (#[trigger] layout_spec(s)[k]) is Row && layout_spec(
                s,
            )[k]->index == i,
    decreases s.len(),
{
    let (out, has_items, pending) = layout_state(s.drop_last());
    let child = s.last();
    if i < s.len() - 1 {
        assert(s.drop_last()[i] == s[i]);
        lemma_layout_rows_complete(s.drop_last(), i);
        let k = choose|k: int|
            0 <= k < out.len() && (#[trigger] out[k]) is Row && out[k]->index == i;
        if child.visible && child.item_type != MenuItemType::Separator {
            let out2 = if pending {
                out.push(MenuEntry::Separator)
            } else {
                out
            };
            assert(out2[k] == out[k]);
            assert(layout_spec(s)[k] == out[k]);
        } else {
            assert(layout_spec(s)[k] == out[k]);
        }
    } else {
        let r = layout_spec(s);
        assert(r[r.len() - 1] == MenuEntry::Row {
            index: (s.len() - 1) as usize,
            submenu: opens_submenu(child),
        });
    }
}

/// Whether a visible separator item of `s` lies strictly between the items
/// at positions `a` and `b`.
pub open spec fn separator_between(s: Seq<MenuItem>, a: int, b: int) -> bool {
    exists|j: int|
        a < j < b && 0 <= j < s.len() && (#[trigger] s[j]).visible && s[j].item_type
            == MenuItemType::Separator
}

proof fn lemma_between_prefix(s: Seq<MenuItem>, a: int, b: int)
    requires
        s.len() > 0,
        b <= s.len() - 1,
    ensures
        separator_between(s, a, b) == separator_between(s.drop_last(), a, b),
{
    if separator_between(s, a, b) {
        let j = choose|j: int|
            a < j < b && 0 <= j < s.len() && (#[trigger] s[j]).visible && s[j].item_type
                == MenuItemType::Separator;
        assert(s.drop_last()[j] == s[j]);
    }
    if separator_between(s.drop_last(), a, b) {
        let j = choose|j: int|
            a < j < b && 0 <= j < s.drop_last().len() && (#[trigger] s.drop_last()[j]).visible
                && s.drop_last()[j].item_type == MenuItemType::Separator;
        assert(s.drop_last()[j] == s[j]);
    }
}

proof fn lemma_between_extend(s: Seq<MenuItem>, a: int)
    requires
        s.len() > 0,
    ensures
        separator_between(s, a, s.len() as int) == (separator_between(s.drop_last(), a, s.len() - 1) || (a
            < s.len() - 1 && s.last().visible && s.last().item_type == MenuItemType::Separator)),
{
    let n = s.len() as int;
    if separator_between(s, a, n) {
        let j = choose|j: int|
            a < j < n && 0 <= j < s.len() && (#[trigger] s[j]).visible && s[j].item_type
                == MenuItemType::Separator;
        if j < n - 1 {
            assert(s.drop_last()[j] == s[j]);
        }
    }
    if separator_between(s.drop_last(), a, n - 1) {
        let j = choose|j: int|
            a < j < n - 1 && 0 <= j < s.drop_last().len() && (#[trigger] s.drop_last()[j]).visible
                && s.drop_last()[j].item_type == MenuItemType::Separator;
        assert(s.drop_last()[j] == s[j]);
    }
    if a < n - 1 && s.last().visible && s.last().item_type == MenuItemType::Separator {
        assert(s[n - 1] == s.last());
    }
}

proof fn lemma_layout_placement(s: Seq<MenuItem>)
    requires
        s.len() <= usize::MAX,
    ensures
        ({
            let (out, has_items, pending) = layout_state(s);
            &&& forall|k: int| 0 <= k < out.len() && (#[trigger] out[k]) is Row ==> out[k]->index < s.len()
            &&& forall|k1: int, k2: int|
                0 <= k1 < k2 < out.len() && (#[trigger] out[k1]) is Row && (#[trigger] out[k2]) is Row
                    ==> out[k1]->index < out[k2]->index
            &&& forall|k: int|
                0 <= k < out.len() && (#[trigger] out[k]) is Separator ==> 0 < k < out.len() - 1
                    && out[k - 1] is Row && out[k + 1] is Row && separator_between(
                    s,
                    out[k - 1]->index as int,
                    out[k + 1]->index as int,
                )
            &&& forall|k: int|
                0 <= k < out.len() - 1 && (#[trigger] out[k]) is Row && out[k + 1] is Row ==> !separator_between(
                    s,
                    out[k]->index as int,
                    out[k + 1]->index as int,
                )
            &&& has_items == (out.len() > 0)
            &&& has_items ==> out.last() is Row
            &&& pending == (has_items && separator_between(s, out.last()->index as int, s.len() as int))
        }),
    decreases s.len(),
{
    if s.len() > 0 {
        let init = s.drop_last();
        lemma_layout_placement(init);
        let (out, has_items, pending) = layout_state(init);
        let child = s.last();
        let n = s.len() as int;
        assert forall|k: int| 0 <= k < out.len() && (#[trigger] out[k]) is Separator implies separator_between(
            s,
            out[k - 1]->index as int,
            out[k + 1]->index as int,
        ) by {
            lemma_between_prefix(s, out[k - 1]->index as int, out[k + 1]->index as int);
        }
        assert forall|k: int|
            0 <= k < out.len() - 1 && (#[trigger] out[k]) is Row && out[k + 1] is Row implies !separator_between(
            s,
            out[k]->index as int,
            out[k + 1]->index as int,
        ) by {
            lemma_between_prefix(s, out[k]->index as int, out[k + 1]->index as int);
        }
        if has_items {
            lemma_between_extend(s, out.last()->index as int);
            lemma_between_prefix(s, out.last()->index as int, n - 1);
            assert(out[out.len() - 1] is Row);
        }
        if child.visible && child.item_type != MenuItemType::Separator {
            let out2 = if pending {
                out.push(MenuEntry::Separator)
            } else {
                out
            };
            let r = out2.push(MenuEntry::Row { index: (n - 1) as usize, submenu: opens_submenu(child) });
            assert(r.last()->index == n - 1);
            assert(!separator_between(s, n - 1, n));
            assert forall|k: int| 0 <= k < r.len() && (#[trigger] r[k]) is Row implies r[k]->index < s.len() by {
                if k < out.len() {
                    assert(r[k] == out[k]);
                }
            }
            assert forall|k1: int, k2: int|
                0 <= k1 < k2 < r.len() && (#[trigger] r[k1]) is Row && (#[trigger] r[k2]) is Row implies r[k1]->index
                < r[k2]->index by {
                assert(r[k1] == out[k1]);
                if k2 < out.len() {
                    assert(r[k2] == out[k2]);
                } else {
                    assert(k2 == r.len() - 1);
                }
            }
            assert forall|k: int| 0 <= k < r.len() && (#[trigger] r[k]) is Separator implies 0 < k < r.len() - 1
                && r[k - 1] is Row && r[k + 1] is Row && separator_between(
                s,
                r[k - 1]->index as int,
                r[k + 1]->index as int,
            ) by {
                if k < out.len() {
                    assert(r[k] == out[k]);
                    assert(r[k - 1] == out[k - 1]);
                    assert(r[k + 1] == out[k + 1]);
                } else {
                    assert(pending && k == out.len());
                    assert(r[k - 1] == out[out.len() - 1]);
                }
            }
            assert forall|k: int|
                0 <= k < r.len() - 1 && (#[trigger] r[k]) is Row && r[k + 1] is Row implies !separator_between(
                s,
                r[k]->index as int,
                r[k + 1]->index as int,
            ) by {
                if k < out.len() - 1 {
                    assert(r[k] == out[k]);
                    assert(r[k + 1] == out[k + 1]);
                } else {
                    assert(!pending && k == out.len() - 1);
                    assert(r[k] == out[out.len() - 1]);
                }
            }
        } else {
            if !child.visible {
                assert(!(child.visible && child.item_type == MenuItemType::Separator));
            }
        }
    }
}

/// Only a visible separator item makes a divider: a divider in a column
/// stands between two rows whose items have a visible separator item
/// between them, and two rows drawn next to each other have none between
/// their items (hidden items, separators included, never make one). Rows
/// keep the order of their items.
pub proof fn lemma_dividers_from_visible_separators(s: Seq<MenuItem>)
    requires
        s.len() <= usize::MAX,
    ensures
        forall|k1: int, k2: int|
            0 <= k1 < k2 < layout_spec(s).len() && (#[trigger] layout_spec(s)[k1]) is Row && (#[trigger] layout_spec(
                s,
            )[k2]) is Row ==> layout_spec(s)[k1]->index < layout_spec(s)[k2]->index,
        forall|k: int|
            0 <= k < layout_spec(s).len() && (#[trigger] layout_spec(s)[k]) is Separator ==> 0 < k
                < layout_spec(s).len() - 1 && layout_spec(s)[k - 1] is Row && layout_spec(s)[k + 1] is Row
                && separator_between(
                s,
                layout_spec(s)[k - 1]->index as int,
                layout_spec(s)[k + 1]->index as int,
            ),
        forall|k: int|
            0 <= k < layout_spec(s).len() - 1 && (#[trigger] layout_spec(s)[k]) is Row && layout_spec(s)[k
                + 1] is Row ==> !separator_between(
                s,
                layout_spec(s)[k]->index as int,
                layout_spec(s)[k + 1]->index as int,
            ),
{
    lemma_layout_placement(s);
}

/// The row of `sensitive` found by stepping from `start`: the first sensitive
/// one in `order` (forward or backward), wrapping.
pub open spec fn step_index(start: int, offset: int, count: int, forward: bool) -> int {
    if forward {
        (start + offset) % count
    } else {
        (start + count - offset) % count
    }
}

/// The row a step lands on: `Some(step_index(.., o, ..))` for the smallest
/// offset `o` whose row is sensitive, `None` when no row is.
pub open spec fn nav_spec(sensitive: Seq<bool>, start: int, forward: bool, r: Option<usize>) -> bool {
    let count = sensitive.len() as int;
    match r {
        Some(i) => exists|o: int|
            0 <= o < count && i == step_index(start, o, count, forward) && sensitive[i as int]
                && forall|p: int|
                0 <= p < o ==> !sensitive[#[trigger] step_index(start, p, count, forward)],
        None => forall|k: int| 0 <= k < count ==> !(#[trigger] sensitive[k]),
    }
}

fn find_sensitive(sensitive: &Vec<bool>, start: usize, forward: bool) -> (r: Option<usize>)
    requires
        start < sensitive.len(),
    ensures
        nav_spec(sensitive@, start as int, forward, r),
{
    let count = sensitive.len();
    let mut offset: usize = 0;
    while offset < count
        invariant
            count == sensitive.len(),
            start < count,
            offset <= count,
            forall|p: int|
                0 <= p < offset ==> !sensitive@[#[trigger] step_index(
                    start as int,
                    p,
                    count as int,
                    forward,
                )],
        decreases count - offset,
    {
        let index: usize = if forward {
            if offset < count - start {
                start + offset
            } else {
                offset - (count - start)
            }
        } else {
            if offset <= start {
                start - offset
            } else {
                count - (offset - start)
            }
        };
        proof {
            let c = count as int;
            let s = start as int;
            let o = offset as int;
            if forward {
                if o < c - s {
                    vstd::arithmetic::div_mod::lemma_small_mod((s + o) as nat, c as nat);
                } else {
                    vstd::arithmetic::div_mod::lemma_mod_add_multiples_vanish(s + o - c, c);
                    vstd::arithmetic::div_mod::lemma_small_mod((s + o - c) as nat, c as nat);
                }
            } else {
                if o <= s {
                    vstd::arithmetic::div_mod::lemma_mod_add_multiples_vanish(s + c - o - c, c);
                    vstd::arithmetic::div_mod::lemma_small_mod((s - o) as nat, c as nat);
                } else {
                    vstd::arithmetic::div_mod::lemma_small_mod((s + c - o) as nat, c as nat);
                }
            }
            assert(index as int == step_index(s, o, c, forward));
        }
        if sensitive[index] {
            return Some(index);
        }
        offset = offset + 1;
    }
    proof {
        assert forall|k: int| 0 <= k < count implies !(#[trigger] sensitive@[k]) by {
            let c = count as int;
            let s = start as int;
            let o: int = if forward {
                if k >= s { k - s } else { k + c - s }
            } else {
                if k <= s { s - k } else { s + c - k }
            };
            if forward {
                if k >= s {
                    vstd::arithmetic::div_mod::lemma_small_mod(k as nat, c as nat);
                } else {
                    vstd::arithmetic::div_mod::lemma_mod_add_multiples_vanish(k + c - c, c);
                    vstd::arithmetic::div_mod::lemma_small_mod(k as nat, c as nat);
                }
            } else {
                if k <= s {
                    vstd::arithmetic::div_mod::lemma_mod_add_multiples_vanish(k + c - c, c);
                    vstd::arithmetic::div_mod::lemma_small_mod(k as nat, c as nat);
                } else {
                    vstd::arithmetic::div_mod::lemma_small_mod(k as nat, c as nat);
                }
            }
            assert(step_index(s, o, c, forward) == k);
        }
    }
    None
}

/// Where forward navigation starts: the row after `current` (wrapping), or the
/// first row when nothing is selected.
pub open spec fn next_start(current: Option<usize>, count: int) -> int {
    match current {
        Some(i) => (i + 1) % count,
        None => 0,
    }
}

/// Where backward navigation starts: the row before `current` (wrapping), or
/// the last row when nothing is selected.
pub open spec fn prev_start(current: Option<usize>, count: int) -> int {
    match current {
        Some(i) => (i + count - 1) % count,
        None => count - 1,
    }
}

/// Next sensitive row after `current` (wrapping); starts at row 0 when
/// `current` is `None`. Skips insensitive (disabled) rows.
pub fn next_from(sensitive: &Vec<bool>, current: Option<usize>) -> (r: Option<usize>)
    requires
        current matches Some(i) ==> i < usize::MAX,
    ensures
        sensitive@.len() == 0 ==> r is None,
        sensitive@.len() > 0 ==> nav_spec(
            sensitive@,
            next_start(current, sensitive@.len() as int),
            true,
            r,
        ),
{
    let count = sensitive.len();
    if count == 0 {
        return None;
    }
    let start = match current {
        Some(index) => (index + 1) % count,
        None => 0,
    };
    find_sensitive(sensitive, start, true)
}

/// Previous sensitive row before `current` (wrapping); starts at the last row
/// when `current` is `None`. Skips insensitive (disabled) rows.
pub fn prev_from(sensitive: &Vec<bool>, current: Option<usize>) -> (r: Option<usize>)
    requires
        current matches Some(i) ==> i + sensitive@.len() <= usize::MAX,
    ensures
        sensitive@.len() == 0 ==> r is None,
        sensitive@.len() > 0 ==> nav_spec(
            sensitive@,
            prev_start(current, sensitive@.len() as int),
            false,
            r,
        ),
{
    let count = sensitive.len();
    if count == 0 {
        return None;
    }
    let start = match current {
        Some(index) => (index + count - 1) % count,
        None => count - 1,
    };
    find_sensitive(sensitive, start, false)
}

/// Wrapping a value below twice the count takes off at most one count.
proof fn lemma_wrap_once(x: int, c: int)
    requires
        0 < c,
        0 <= x < 2 * c,
    ensures
        x % c == if x < c {
            x
        } else {
            x - c
        },
{
    if x < c {
        vstd::arithmetic::div_mod::lemma_small_mod(x as nat, c as nat);
    } else {
        vstd::arithmetic::div_mod::lemma_mod_add_multiples_vanish(x - c, c);
        vstd::arithmetic::div_mod::lemma_small_mod((x - c) as nat, c as nat);
    }
}

/// Stepping down from a selectable row and then back up returns to it: if
/// `next_from` moves from row `i` to row `j`, `prev_from` moves from `j` back
/// to `i` (the rows skipped on the way down are skipped on the way up).
pub proof fn lemma_next_then_prev(sensitive: Seq<bool>, i: usize, j: usize)
    requires
        i < sensitive.len(),
        sensitive[i as int],
        nav_spec(sensitive, next_start(Some(i), sensitive.len() as int), true, Some(j)),
    ensures
        nav_spec(sensitive, prev_start(Some(j), sensitive.len() as int), false, Some(i)),
{
    let c = sensitive.len() as int;
    let ns = next_start(Some(i), c);
    lemma_wrap_once(i + 1, c);
    let o = choose|o: int|
        0 <= o < c && j == step_index(ns, o, c, true) && sensitive[j as int] && forall|p: int|
            0 <= p < o ==> !sensitive[#[trigger] step_index(ns, p, c, true)];
    lemma_wrap_once(ns + o, c);
    let ps = prev_start(Some(j), c);
    lemma_wrap_once(j + c - 1, c);
    lemma_wrap_once(ps + c - o, c);
    assert(step_index(ps, o, c, false) == i as int);
    assert forall|p: int| 0 <= p < o implies !sensitive[#[trigger] step_index(ps, p, c, false)] by {
        lemma_wrap_once(ps + c - p, c);
        lemma_wrap_once(ns + (o - p - 1), c);
        assert(step_index(ps, p, c, false) == step_index(ns, o - p - 1, c, true));
    }
}

/// First sensitive row, the keyboard entry point of a column.
pub fn first_selectable(sensitive: &Vec<bool>) -> (r: Option<usize>)
    ensures
        sensitive@.len() == 0 ==> r is None,
        sensitive@.len() > 0 ==> nav_spec(sensitive@, 0, true, r),
{
    next_from(sensitive, None)
}

/// The CSS class of a disposition: `warning` and `alert` only.
pub open spec fn disposition_spec(d: Disposition) -> Option<Seq<char>> {
    match d {
        Disposition::Warning => Some("warning"@),
        Disposition::Alert => Some("alert"@),
        _ => None,
    }
}

/// CSS class marking a row's disposition, if any.
pub fn disposition_class(disposition: Disposition) -> (r: Option<&'static str>)
    ensures
        str_opt_view(r) == disposition_spec(disposition),
{
    match disposition {
        Disposition::Warning => Some("warning"),
        Disposition::Alert => Some("alert"),
        Disposition::Normal => None,
        Disposition::Informative => None,
    }
}

/// The indicator icon of a toggle: a radio mark or a check mark while
/// checked, nothing otherwise.
pub open spec fn indicator_spec(t: ToggleType, st: ToggleState) -> Option<Seq<char>> {
    if st == ToggleState::Checked {
        if t == ToggleType::Radio {
            Some("radio-checked-symbolic"@)
        } else {
            Some("object-select-symbolic"@)
        }
    } else {
        None
    }
}

/// Icon of a check/radio indicator: empty while unchecked.
pub fn toggle_indicator_icon(toggle_type: ToggleType, toggle_state: ToggleState) -> (r: Option<
    &'static str,
>)
    ensures
        str_opt_view(r) == indicator_spec(toggle_type, toggle_state),
{
    if toggle_state == ToggleState::Checked {
        match toggle_type {
            ToggleType::Radio => Some("radio-checked-symbolic"),
            _ => Some("object-select-symbolic"),
        }
    } else {
        None
    }
}

/// Where a row's leading icon comes from.
#[derive(Debug, Clone, Copy, PartialEq, Eq, Structural)]
pub enum RowIconSource {
    /// The item's non-empty `icon_name`, looked up in the icon theme.
    Named,
    /// The item's non-empty PNG `icon_data` (if it decodes).
    Data,
    /// No icon.
    Absent,
}

pub open spec fn nonempty_text(s: Option<String>) -> bool {
    s matches Some(x) && x@.len() > 0
}

pub open spec fn nonempty_bytes(s: Option<Vec<u8>>) -> bool {
    s matches Some(x) && x@.len() > 0
}

/// The icon source of a row: a non-empty icon name first, then non-empty
/// icon data.
pub open spec fn icon_spec(item: MenuItem) -> RowIconSource {
    if nonempty_text(item.icon_name) {
        RowIconSource::Named
    } else if nonempty_bytes(item.icon_data) {
        RowIconSource::Data
    } else {
        RowIconSource::Absent
    }
}

/// The icon source of a (non-checkable) row: a non-empty icon name first,
/// then non-empty icon data.
pub fn icon_source(item: &MenuItem) -> (r: RowIconSource)
    ensures
        r == icon_spec(*item),
{
    let named = match &item.icon_name {
        Some(name) => name.as_str().unicode_len() > 0,
        None => false,
    };
    if named {
        return RowIconSource::Named;
    }
    let data = match &item.icon_data {
        Some(bytes) => bytes.len() > 0,
        None => false,
    };
    if data {
        RowIconSource::Data
    } else {
        RowIconSource::Absent
    }
}

/// The keys of a combination joined with `+`.
pub open spec fn join_plus(keys: Seq<Seq<char>>) -> Seq<char>
    decreases keys.len(),
{
    if keys.len() == 0 {
        Seq::empty()
    } else if keys.len() == 1 {
        keys[0]
    } else {
        join_plus(keys.drop_last()) + "+"@ + keys.last()
    }
}

pub open spec fn string_views(v: Seq<String>) -> Seq<Seq<char>> {
    v.map_values(|s: String| s@)
}

/// The display text of a shortcut: its first key combination joined with
/// `+`, none when there is no (non-empty) first combination.
pub open spec fn shortcut_spec(shortcut: Vec<Vec<String>>) -> Option<Seq<char>> {
    if shortcut@.len() == 0 || shortcut@[0]@.len() == 0 {
        None
    } else {
        Some(join_plus(string_views(shortcut@[0]@)))
    }
}

/// Formats a DBusMenu shortcut (`[["Control", "q"]]`) for display as
/// `Control+q`: the first combination only, `None` when there is none.
pub fn format_shortcut(shortcut: &Vec<Vec<String>>) -> (r: Option<String>)
    ensures
        string_opt_view(r) == shortcut_spec(*shortcut),
{
    if shortcut.len() == 0 {
        return None;
    }
    let combo = &shortcut[0];
    if combo.len() == 0 {
        return None;
    }
    let ghost keys = string_views(combo@);
    let mut out = combo[0].clone();
    let mut i: usize = 1;
    assert(keys.take(1) =~= seq![keys[0]]);
    while i < combo.len()
        invariant
            1 <= i <= combo.len(),
            keys == string_views(combo@),
            out@ == join_plus(keys.take(i as int)),
        decreases combo.len() - i,
    {
        assert(keys.take(i + 1).drop_last() =~= keys.take(i as int));
        out.append("+");
        out.append(combo[i].as_str());
        i = i + 1;
    }
    assert(keys.take(combo.len() as int) =~= keys);
    Some(out)
}

/// The total length of `keys`.
pub open spec fn keys_width(keys: Seq<Seq<char>>) -> int
    decreases keys.len(),
{
    if keys.len() == 0 {
        0
    } else {
        keys_width(keys.drop_last()) + keys.last().len()
    }
}

/// Where key `i` starts when the keys are written one after another with a
/// one-character separator between them.
pub open spec fn key_start(keys: Seq<Seq<char>>, i: int) -> int {
    keys_width(keys.take(i)) + i
}

proof fn lemma_width_nonneg(keys: Seq<Seq<char>>)
    ensures
        keys_width(keys) >= 0,
    decreases keys.len(),
{
    if keys.len() > 0 {
        lemma_width_nonneg(keys.drop_last());
    }
}

proof fn lemma_width_prefix(keys: Seq<Seq<char>>, i: int)
    requires
        0 <= i < keys.len(),
    ensures
        keys_width(keys.take(i)) + keys[i].len() <= keys_width(keys),
        keys_width(keys.take(i + 1)) == keys_width(keys.take(i)) + keys[i].len(),
    decreases keys.len(),
{
    assert(keys.take(i + 1).drop_last() =~= keys.take(i));
    if i < keys.len() - 1 {
        let init = keys.drop_last();
        lemma_width_prefix(init, i);
        assert(init.take(i) =~= keys.take(i));
        assert(init[i] == keys[i]);
    } else {
        assert(keys.take(i) =~= keys.drop_last());
    }
}

proof fn lemma_join_plus_len(keys: Seq<Seq<char>>)
    requires
        keys.len() > 0,
    ensures
        join_plus(keys).len() == keys_width(keys) + keys.len() - 1,
    decreases keys.len(),
{
    reveal_strlit("+");
    assert("+"@.len() == 1);
    if keys.len() == 1 {
        assert(keys.drop_last() =~= Seq::<Seq<char>>::empty());
        assert(keys_width(keys.drop_last()) == 0);
        assert(keys.last() == keys[0]);
    } else {
        lemma_join_plus_len(keys.drop_last());
    }
}

proof fn lemma_join_plus_key_at(keys: Seq<Seq<char>>, i: int)
    requires
        0 <= i < keys.len(),
    ensures
        join_plus(keys).subrange(key_start(keys, i), key_start(keys, i) + keys[i].len()) == keys[i],
        i > 0 ==> join_plus(keys)[key_start(keys, i) - 1] == '+',
    decreases keys.len(),
{
    reveal_strlit("+");
    lemma_join_plus_len(keys);
    if keys.len() == 1 {
        assert(keys.take(0) =~= Seq::<Seq<char>>::empty());
        assert(join_plus(keys).subrange(0, keys[0].len() as int) =~= keys[0]);
    } else {
        let init = keys.drop_last();
        let j = join_plus(init);
        let n = keys.len() - 1;
        let big = join_plus(keys);
        lemma_join_plus_len(init);
        assert("+"@.len() == 1 && "+"@[0] == '+');
        assert(big == j + "+"@ + keys.last());
        assert(big.len() == j.len() + 1 + keys.last().len());
        assert(forall|t: int| 0 <= t < j.len() ==> big[t] == j[t]);
        assert(big[j.len() as int] == '+');
        assert(forall|t: int| 0 <= t < keys.last().len() ==> big[j.len() + 1 + t] == keys.last()[t]);
        if i < n {
            lemma_join_plus_key_at(init, i);
            lemma_width_prefix(init, i);
            lemma_width_nonneg(init.take(i));
            assert(keys.take(i) =~= init.take(i));
            assert(keys[i] == init[i]);
            assert(key_start(keys, i) == key_start(init, i));
            assert(key_start(init, i) + init[i].len() <= j.len());
            assert(big.subrange(key_start(keys, i), key_start(keys, i) + keys[i].len())
                =~= j.subrange(key_start(init, i), key_start(init, i) + init[i].len()));
            if i > 0 {
                assert(big[key_start(keys, i) - 1] == j[key_start(init, i) - 1]);
            }
        } else {
            assert(keys.take(i) =~= init);
            assert(key_start(keys, i) == j.len() + 1);
            assert(big.subrange(key_start(keys, i), key_start(keys, i) + keys[i].len()) =~= keys.last());
        }
    }
}

/// Joining keys with `+` writes every key, in order, each once, with a `+`
/// before every key but the first and nothing else: the text is as long as
/// the keys together plus one `+` between each two, key `i` stands at
/// `key_start(keys, i)`, and a `+` stands right before it when `i > 0`.
pub proof fn lemma_join_plus_keys(keys: Seq<Seq<char>>)
    requires
        keys.len() > 0,
    ensures
        join_plus(keys).len() == keys_width(keys) + keys.len() - 1,
        forall|i: int|
            0 <= i < keys.len() ==> join_plus(keys).subrange(
                key_start(keys, i),
                key_start(keys, i) + keys[i].len(),
            ) == #[trigger] keys[i],
        forall|i: int| 0 < i < keys.len() ==> join_plus(keys)[#[trigger] key_start(keys, i) - 1] == '+',
{
    lemma_join_plus_len(keys);
    assert forall|i: int| 0 <= i < keys.len() implies join_plus(keys).subrange(
        key_start(keys, i),
        key_start(keys, i) + keys[i].len(),
    ) == #[trigger] keys[i] by {
        lemma_join_plus_key_at(keys, i);
    }
    assert forall|i: int| 0 < i < keys.len() implies join_plus(keys)[#[trigger] key_start(keys, i) - 1]
        == '+' by {
        lemma_join_plus_key_at(keys, i);
    }
}

/// A shortcut's text writes every key of its first combination in order,
/// joined by `+` (`Control`, `Shift`, `q` give `Control+Shift+q`): as long as
/// the keys together plus one `+` between each two, with key `i` at
/// `key_start` and a `+` right before it when `i > 0`.
pub proof fn lemma_shortcut_keys(shortcut: Vec<Vec<String>>)
    requires
        shortcut@.len() > 0,
        shortcut@[0]@.len() > 0,
    ensures
        ({
            let keys = string_views(shortcut@[0]@);
            &&& shortcut_spec(shortcut) matches Some(t) && t.len() == keys_width(keys) + keys.len() - 1
                && (forall|i: int|
                0 <= i < keys.len() ==> t.subrange(key_start(keys, i), key_start(keys, i) + keys[i].len())
                    == #[trigger] keys[i]) && (forall|i: int|
                0 < i < keys.len() ==> t[#[trigger] key_start(keys, i) - 1] == '+')
        }),
{
    lemma_join_plus_keys(string_views(shortcut@[0]@));
}

/// How one menu row is drawn.
#[derive(Debug)]
pub struct RowLook {
    /// Disposition class on the row content (`warning` / `alert`).
    pub disposition_class: Option<&'static str>,
    /// Whether the row carries a check/radio indicator.
    pub checkable: bool,
    /// Icon of that indicator (only while checked).
    pub indicator_icon: Option<&'static str>,
    /// Whether the row is marked `active` (a checked toggle).
    pub active: bool,
    /// Leading icon of a non-checkable row.
    pub icon: RowIconSource,
    /// Label text (mnemonic underscores are interpreted by the label widget).
    pub label: String,
    /// Whether a submenu arrow is shown.
    pub submenu_arrow: bool,
    /// Accelerator text, shown on leaf rows only.
    pub shortcut: Option<String>,
}

/// Whether the item is a check or radio item.
pub open spec fn checkable(item: MenuItem) -> bool {
    item.toggle_type != ToggleType::Plain
}

/// The appearance of the row for `item`; `is_submenu` when it opens a column.
pub fn row_look(item: &MenuItem, is_submenu: bool) -> (r: RowLook)
    ensures
        r.checkable == checkable(*item),
        r.active == (checkable(*item) && item.toggle_state == ToggleState::Checked),
        str_opt_view(r.disposition_class) == disposition_spec(item.disposition),
        checkable(*item) ==> str_opt_view(r.indicator_icon) == indicator_spec(
            item.toggle_type,
            item.toggle_state,
        ),
        !checkable(*item) ==> r.indicator_icon is None,
        !checkable(*item) ==> r.icon == icon_spec(*item),
        checkable(*item) ==> r.icon == RowIconSource::Absent,
        r.label@ == (match item.label {
            Some(l) => l@,
            None => Seq::empty(),
        }),
        r.submenu_arrow == is_submenu,
        is_submenu ==> r.shortcut is None,
        !is_submenu ==> string_opt_view(r.shortcut) == (match item.shortcut {
            Some(sc) => shortcut_spec(sc),
            None => None,
        }),
{
    let checkable = match item.toggle_type {
        ToggleType::Plain => false,
        _ => true,
    };
    let indicator_icon = if checkable {
        toggle_indicator_icon(item.toggle_type, item.toggle_state)
    } else {
        None
    };
    let active = checkable && item.toggle_state == ToggleState::Checked;
    let icon = if checkable {
        RowIconSource::Absent
    } else {
        icon_source(item)
    };
    let label = match &item.label {
        Some(l) => l.clone(),
        None => String::new(),
    };
    let shortcut = if is_submenu {
        None
    } else {
        match &item.shortcut {
            Some(sc) => format_shortcut(sc),
            None => None,
        }
    };
    RowLook {
        disposition_class: disposition_class(item.disposition),
        checkable,
        indicator_icon,
        active,
        icon,
        label,
        submenu_arrow: is_submenu,
        shortcut,
    }
}

/// A key forwarded to the open menu from the bar or the scrim.
#[derive(Debug, Clone, Copy, PartialEq, Eq, Structural)]
pub enum NavKey {
    Down,
    Up,
    Right,
    Left,
    Return,
    KeypadEnter,
    Space,
    Escape,
    Other,
}

/// What a navigation key does to the deepest open column.
#[derive(Debug, Clone, Copy, PartialEq, Eq, Structural)]
pub enum NavCommand {
    /// Select the next sensitive row.
    Next,
    /// Select the previous sensitive row.
    Previous,
    /// Open the selected submenu and select its first row.
    Enter,
    /// Close this column (no-op at the root).
    Leave,
    /// Activate the selected leaf, or enter the selected submenu.
    Activate,
    /// Dismiss the whole cascade.
    Dismiss,
}

/// The command of a forwarded key; `None` means the key is not consumed.
pub fn nav_command(key: NavKey) -> (r: Option<NavCommand>)
    ensures
        key == NavKey::Down ==> r == Some(NavCommand::Next),
        key == NavKey::Up ==> r == Some(NavCommand::Previous),
        key == NavKey::Right ==> r == Some(NavCommand::Enter),
        key == NavKey::Left ==> r == Some(NavCommand::Leave),
        (key == NavKey::Return || key == NavKey::KeypadEnter || key == NavKey::Space) ==> r == Some(
            NavCommand::Activate,
        ),
        key == NavKey::Escape ==> r == Some(NavCommand::Dismiss),
        key == NavKey::Other ==> r is None,
{
    match key {
        NavKey::Down => Some(NavCommand::Next),
        NavKey::Up => Some(NavCommand::Previous),
        NavKey::Right => Some(NavCommand::Enter),
        NavKey::Left => Some(NavCommand::Leave),
        NavKey::Return => Some(NavCommand::Activate),
        NavKey::KeypadEnter => Some(NavCommand::Activate),
        NavKey::Space => Some(NavCommand::Activate),
        NavKey::Escape => Some(NavCommand::Dismiss),
        NavKey::Other => None,
    }
}

/// What a row does when activated.
#[derive(Debug, Clone, Copy, PartialEq, Eq, Structural)]
pub enum RowActivation {
    /// Send a click event for the item with this id and close the menu.
    Leaf(i32),
    /// Open the row's submenu.
    Submenu,
}

/// What a row of a column is: a leaf with its item id, or a submenu.
#[derive(Debug, Clone, Copy, PartialEq, Eq, Structural)]
pub enum RowKind {
    Leaf { id: i32 },
    Submenu,
}

/// The rows of a column layout, in order, without its separators.
pub open spec fn row_kinds_spec(children: Seq<MenuItem>, layout: Seq<MenuEntry>) -> Seq<RowKind>
    decreases layout.len(),
{
    if layout.len() == 0 {
        Seq::empty()
    } else {
        let prev = row_kinds_spec(children, layout.drop_last());
        match layout.last() {
            MenuEntry::Separator => prev,
            MenuEntry::Row { index, submenu } => prev.push(
                if submenu {
                    RowKind::Submenu
                } else {
                    RowKind::Leaf { id: children[index as int].id }
                },
            ),
        }
    }
}

/// The rows (leaf ids and submenus) of a column whose entries are `layout`,
/// which must index into `children`.
pub fn row_kinds(children: &Vec<MenuItem>, layout: &Vec<MenuEntry>) -> (r: Vec<RowKind>)
    requires
        forall|k: int|
            0 <= k < layout@.len() ==> (#[trigger] layout@[k] matches MenuEntry::Row { index, .. }
                ==> index < children@.len()),
    ensures
        r@ == row_kinds_spec(children@, layout@),
{
    let mut out: Vec<RowKind> = Vec::new();
    let mut i: usize = 0;
    while i < layout.len()
        invariant
            i <= layout.len(),
            forall|k: int|
                0 <= k < layout@.len() ==> (#[trigger] layout@[k] matches MenuEntry::Row { index, .. }
                    ==> index < children@.len()),
            out@ == row_kinds_spec(children@, layout@.take(i as int)),
        decreases layout.len() - i,
    {
        assert(layout@.take(i + 1).drop_last() =~= layout@.take(i as int));
        assert(layout@.take(i + 1).last() == layout@[i as int]);
        match layout[i] {
            MenuEntry::Separator => {},
            MenuEntry::Row { index, submenu } => {
                if submenu {
                    out.push(RowKind::Submenu);
                } else {
                    out.push(RowKind::Leaf { id: children[index].id });
                }
            },
        }
        i = i + 1;
    }
    assert(layout@.take(layout@.len() as int) =~= layout@);
    out
}

/// The activation of row `index` of a column, or `None` when there is no such
/// row.
pub fn activation_at(rows: &Vec<RowKind>, index: usize) -> (r: Option<RowActivation>)
    ensures
        index >= rows@.len() ==> r is None,
        index < rows@.len() ==> r == Some(
            match rows@[index as int] {
                RowKind::Leaf { id } => RowActivation::Leaf(id),
                RowKind::Submenu => RowActivation::Submenu,
            },
        ),
{
    if index >= rows.len() {
        return None;
    }
    match rows[index] {
        RowKind::Leaf { id } => Some(RowActivation::Leaf(id)),
        RowKind::Submenu => Some(RowActivation::Submenu),
    }
}

/// Moving the hover marker from `previous` to `next`: the row to unmark and
/// the row to mark, each only when it exists; nothing when unchanged.
pub fn selection_update(previous: Option<usize>, next: Option<usize>, row_count: usize) -> (r: (
    Option<usize>,
    Option<usize>,
))
    ensures
        previous == next ==> r == (None::<usize>, None::<usize>),
        previous != next ==> r.0 == (match previous {
            Some(i) => if i < row_count {
                Some(i)
            } else {
                None
            },
            None => None,
        }),
        previous != next ==> r.1 == (match next {
            Some(i) => if i < row_count {
                Some(i)
            } else {
                None
            },
            None => None,
        }),
{
    if previous == next {
        return (None, None);
    }
    let unmark = match previous {
        Some(i) => if i < row_count {
            Some(i)
        } else {
            None
        },
        None => None,
    };
    let mark = match next {
        Some(i) => if i < row_count {
            Some(i)
        } else {
            None
        },
        None => None,
    };
    (unmark, mark)
}

/// The X11-style timestamp sent with a menu click: the Unix time in seconds,
/// clamped below at zero and truncated to 32 bits.
pub fn event_timestamp(unix_secs: i64) -> (r: u32)
    ensures
        r == (if unix_secs < 0 {
            0
        } else {
            unix_secs
        }) as u32,
{
    let secs: i64 = if unix_secs < 0 {
        0
    } else {
        unix_secs
    };
    secs as u32
}

/// What a request to show the tray menu does.
#[derive(Debug, Clone, Copy, PartialEq, Eq, Structural)]
pub enum MenuRequest {
    /// The menu is open and the request toggles: close it.
    Dismiss,
    /// The menu is open and the request only opens: leave it untouched.
    KeepOpen,
    /// Show (rebuild) the menu.
    Show,
}

/// Decides a show request: `toggle` (right click / `systray toggle`) closes an
/// open menu, a plain open (`systray open`) leaves it alone.
pub fn menu_request(menu_visible: bool, toggle: bool) -> (r: MenuRequest)
    ensures
        menu_visible && toggle ==> r == MenuRequest::Dismiss,
        menu_visible && !toggle ==> r == MenuRequest::KeepOpen,
        !menu_visible ==> r == MenuRequest::Show,
{
    if menu_visible {
        if toggle {
            MenuRequest::Dismiss
        } else {
            MenuRequest::KeepOpen
        }
    } else {
        MenuRequest::Show
    }
}

/// How a menu is shown from the cached layout.
#[derive(Debug, Clone, Copy, PartialEq, Eq, Structural)]
pub enum ShowPlan {
    /// No layout, or an empty one: ask the item for its own context menu.
    ContextMenuFallback,
    /// The tray button is gone: nothing to anchor to.
    NoAnchor,
    /// Build the cascade and swap it in.
    Build,
}

/// Chooses how to show the menu from what is cached.
pub fn show_plan(has_layout: bool, layout_empty: bool, has_button: bool) -> (r: ShowPlan)
    ensures
        (!has_layout || layout_empty) ==> r == ShowPlan::ContextMenuFallback,
        has_layout && !layout_empty && !has_button ==> r == ShowPlan::NoAnchor,
        has_layout && !layout_empty && has_button ==> r == ShowPlan::Build,
{
    if !has_layout || layout_empty {
        ShowPlan::ContextMenuFallback
    } else if !has_button {
        ShowPlan::NoAnchor
    } else {
        ShowPlan::Build
    }
}

/// Vertical offset that lines a submenu's top up with the row it opened from
/// (GTK centres it on the row): half the height difference, when both heights
/// are known.
pub fn submenu_offset(anchor_height: i32, content_height: i32) -> (r: Option<i32>)
    ensures
        (anchor_height <= 0 || content_height <= 0) ==> r is None,
        anchor_height > 0 && content_height > 0 ==> r == Some(
            div_toward_zero(content_height - anchor_height, 2) as i32,
        ),
{
    if anchor_height > 0 && content_height > 0 {
        let diff: i32 = content_height - anchor_height;
        let half: i32 = if diff >= 0 {
            diff / 2
        } else {
            -((-diff) / 2)
        };
        Some(half)
    } else {
        None
    }
}

} // verus!
