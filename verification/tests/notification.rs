use wayle::notification::{
    action_rows, app_label, click_removes_notification, time_label, uses_file_icon_class,
    CardSurface, NotificationAction, PopupCloseBehavior, RelativeTime, ResolvedIcon, TimeLabel,
};
use wayle::text::Text;

fn action(id: &str) -> NotificationAction {
    NotificationAction { id: id.into(), label: id.to_uppercase() }
}

#[test]
fn action_rows_hold_three_and_skip_default() {
    let actions = vec![
        action("default"),
        action("reply"),
        action("archive"),
        action("mark-read"),
        action("delete"),
    ];
    assert_eq!(action_rows(&actions), vec![vec![1, 2, 3], vec![4]]);
    assert!(action_rows(&vec![action("default")]).is_empty());
    assert!(action_rows(&Vec::new()).is_empty());
    let six: Vec<_> = (0..6).map(|i| action(&format!("a{i}"))).collect();
    assert_eq!(action_rows(&six), vec![vec![0, 1, 2], vec![3, 4, 5]]);
}

#[test]
fn time_labels() {
    assert_eq!(
        time_label(RelativeTime::JustNow, CardSurface::Dropdown),
        TimeLabel { message: "notification-dropdown-time-just-now", argument: None }
    );
    assert_eq!(
        time_label(RelativeTime::Minutes(5), CardSurface::Dropdown),
        TimeLabel { message: "notification-dropdown-time-minutes-ago", argument: Some(("minutes", 5)) }
    );
    assert_eq!(
        time_label(RelativeTime::Hours(2), CardSurface::Popup),
        TimeLabel { message: "notification-popup-time-hours-ago", argument: Some(("hours", 2)) }
    );
    assert_eq!(
        time_label(RelativeTime::JustNow, CardSurface::Popup),
        TimeLabel { message: "notification-popup-time-just-now", argument: None }
    );
}

#[test]
fn icon_styling_and_labels() {
    assert!(!uses_file_icon_class(&ResolvedIcon::Named("dialog-symbolic".into())));
    assert!(uses_file_icon_class(&ResolvedIcon::Named("firefox".into())));
    assert!(uses_file_icon_class(&ResolvedIcon::File("/tmp/a.png".into())));
    assert_eq!(app_label(Some("Firefox".into())), Text::Literal("Firefox".into()));
    assert_eq!(app_label(None), Text::Message("notification-popup-unknown-app"));
    assert!(click_removes_notification(PopupCloseBehavior::Remove));
    assert!(!click_removes_notification(PopupCloseBehavior::Dismiss));
}
