use wayle::tray_menu::{
    activation_at, event_timestamp, first_selectable, format_shortcut, layout_column, menu_request,
    nav_command, next_from, prev_from, row_kinds, row_look, selection_update, show_plan,
    submenu_offset, Disposition, MenuEntry, MenuItem, MenuItemType, MenuRequest, NavCommand,
    NavKey, RowActivation, RowIconSource, RowKind, ShowPlan, ToggleState, ToggleType,
};

fn item(id: i32, label: &str) -> MenuItem {
    MenuItem {
        id,
        item_type: MenuItemType::Standard,
        label: Some(label.into()),
        enabled: true,
        visible: true,
        icon_name: None,
        icon_data: None,
        shortcut: None,
        toggle_type: ToggleType::Plain,
        toggle_state: ToggleState::Unchecked,
        disposition: Disposition::Normal,
        children: Vec::new(),
    }
}

fn separator(id: i32) -> MenuItem {
    MenuItem { item_type: MenuItemType::Separator, label: None, ..item(id, "") }
}

#[test]
fn separators_never_lead_trail_or_repeat() {
    let mut hidden = item(4, "hidden");
    hidden.visible = false;
    let children = vec![
        separator(1),
        item(2, "Open"),
        separator(3),
        hidden,
        separator(5),
        item(6, "Quit"),
        separator(7),
    ];
    assert_eq!(
        layout_column(&children),
        vec![
            MenuEntry::Row { index: 1, submenu: false },
            MenuEntry::Separator,
            MenuEntry::Row { index: 5, submenu: false },
        ]
    );
    assert!(layout_column(&vec![separator(1), separator(2)]).is_empty());
}

#[test]
fn submenu_without_visible_children_is_a_leaf() {
    let mut parent = item(1, "More");
    let mut child = item(2, "Hidden");
    child.visible = false;
    parent.children = vec![child];
    let mut parent2 = item(3, "Countries");
    parent2.children = vec![item(4, "Sweden")];
    let layout = layout_column(&vec![parent, parent2]);
    assert_eq!(
        layout,
        vec![
            MenuEntry::Row { index: 0, submenu: false },
            MenuEntry::Row { index: 1, submenu: true },
        ]
    );
}

#[test]
fn rows_and_activation() {
    let mut sub = item(3, "Sub");
    sub.children = vec![item(4, "Leaf")];
    let children = vec![item(1, "A"), separator(2), sub];
    let layout = layout_column(&children);
    let rows = row_kinds(&children, &layout);
    assert_eq!(rows, vec![RowKind::Leaf { id: 1 }, RowKind::Submenu]);
    assert_eq!(activation_at(&rows, 0), Some(RowActivation::Leaf(1)));
    assert_eq!(activation_at(&rows, 1), Some(RowActivation::Submenu));
    assert_eq!(activation_at(&rows, 2), None);
}

#[test]
fn navigation_wraps_and_skips_disabled_rows() {
    let sensitive = vec![true, false, true, false];
    assert_eq!(next_from(&sensitive, None), Some(0));
    assert_eq!(next_from(&sensitive, Some(0)), Some(2));
    assert_eq!(next_from(&sensitive, Some(2)), Some(0));
    assert_eq!(prev_from(&sensitive, None), Some(2));
    assert_eq!(prev_from(&sensitive, Some(2)), Some(0));
    assert_eq!(prev_from(&sensitive, Some(0)), Some(2));
    assert_eq!(first_selectable(&vec![false, false, true]), Some(2));
    assert_eq!(next_from(&vec![false, false], Some(1)), None);
    assert_eq!(prev_from(&Vec::new(), None), None);
}

#[test]
fn keys_map_to_commands() {
    assert_eq!(nav_command(NavKey::Down), Some(NavCommand::Next));
    assert_eq!(nav_command(NavKey::Up), Some(NavCommand::Previous));
    assert_eq!(nav_command(NavKey::Right), Some(NavCommand::Enter));
    assert_eq!(nav_command(NavKey::Left), Some(NavCommand::Leave));
    assert_eq!(nav_command(NavKey::Return), Some(NavCommand::Activate));
    assert_eq!(nav_command(NavKey::KeypadEnter), Some(NavCommand::Activate));
    assert_eq!(nav_command(NavKey::Space), Some(NavCommand::Activate));
    assert_eq!(nav_command(NavKey::Escape), Some(NavCommand::Dismiss));
    assert_eq!(nav_command(NavKey::Other), None);
}

#[test]
fn selection_marker_moves() {
    assert_eq!(selection_update(Some(1), Some(1), 3), (None, None));
    assert_eq!(selection_update(Some(1), Some(2), 3), (Some(1), Some(2)));
    assert_eq!(selection_update(None, Some(5), 3), (None, None));
    assert_eq!(selection_update(Some(0), None, 3), (Some(0), None));
}

#[test]
fn shortcut_formatting() {
    let sc = vec![vec!["Control".to_string(), "q".to_string()], vec!["Alt".to_string()]];
    assert_eq!(format_shortcut(&sc), Some("Control+q".to_string()));
    assert_eq!(format_shortcut(&vec![vec!["F1".to_string()]]), Some("F1".to_string()));
    assert_eq!(format_shortcut(&vec![Vec::new()]), None);
    assert_eq!(format_shortcut(&Vec::new()), None);
}

#[test]
fn row_appearance() {
    let mut radio = item(1, "_Dark");
    radio.toggle_type = ToggleType::Radio;
    radio.toggle_state = ToggleState::Checked;
    radio.icon_name = Some("ignored".into());
    let look = row_look(&radio, false);
    assert!(look.checkable);
    assert!(look.active);
    assert_eq!(look.indicator_icon, Some("radio-checked-symbolic"));
    assert_eq!(look.icon, RowIconSource::Absent);
    assert_eq!(look.label, "_Dark");

    let mut check = item(2, "Mute");
    check.toggle_type = ToggleType::Checkmark;
    assert_eq!(row_look(&check, false).indicator_icon, None);
    check.toggle_state = ToggleState::Checked;
    assert_eq!(row_look(&check, false).indicator_icon, Some("object-select-symbolic"));

    let mut plain = item(3, "Quit");
    plain.disposition = Disposition::Alert;
    plain.icon_name = Some(String::new());
    plain.icon_data = Some(vec![1, 2, 3]);
    plain.shortcut = Some(vec![vec!["Control".into(), "q".into()]]);
    let look = row_look(&plain, false);
    assert_eq!(look.disposition_class, Some("alert"));
    assert_eq!(look.icon, RowIconSource::Data);
    assert_eq!(look.shortcut, Some("Control+q".into()));
    assert!(!look.submenu_arrow);
    let look = row_look(&plain, true);
    assert!(look.submenu_arrow);
    assert_eq!(look.shortcut, None);

    let mut unlabeled = item(4, "");
    unlabeled.label = None;
    unlabeled.icon_name = Some("app".into());
    unlabeled.disposition = Disposition::Warning;
    let look = row_look(&unlabeled, false);
    assert_eq!(look.label, "");
    assert_eq!(look.icon, RowIconSource::Named);
    assert_eq!(look.disposition_class, Some("warning"));
}

#[test]
fn menu_show_decisions() {
    assert_eq!(menu_request(true, true), MenuRequest::Dismiss);
    assert_eq!(menu_request(true, false), MenuRequest::KeepOpen);
    assert_eq!(menu_request(false, true), MenuRequest::Show);
    assert_eq!(show_plan(false, false, true), ShowPlan::ContextMenuFallback);
    assert_eq!(show_plan(true, true, true), ShowPlan::ContextMenuFallback);
    assert_eq!(show_plan(true, false, false), ShowPlan::NoAnchor);
    assert_eq!(show_plan(true, false, true), ShowPlan::Build);
}

#[test]
fn submenu_alignment_and_timestamps() {
    assert_eq!(submenu_offset(30, 130), Some(50));
    assert_eq!(submenu_offset(30, 11), Some(-9));
    assert_eq!(submenu_offset(0, 100), None);
    assert_eq!(submenu_offset(30, 0), None);
    assert_eq!(event_timestamp(-5), 0);
    assert_eq!(event_timestamp(1_700_000_000), 1_700_000_000);
    assert_eq!(event_timestamp(1 << 32), 0);
}

#[test]
fn next_then_prev_returns() {
    let sensitive = vec![true, false, false, true, true, false];
    for i in [0usize, 3, 4] {
        let j = next_from(&sensitive, Some(i)).expect("a selectable row");
        assert_eq!(prev_from(&sensitive, Some(j)), Some(i));
    }
    let only = vec![false, true, false];
    assert_eq!(next_from(&only, Some(1)), Some(1));
    assert_eq!(prev_from(&only, Some(1)), Some(1));
}
