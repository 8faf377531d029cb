use wayle::service::{initialization_error, OwnerChange, ServiceState};
use wayle::Error;

#[test]
fn owner_changes_rebuild_or_drop() {
    let mut s = ServiceState::new(Some("/net/connman/iwd/0".into()));
    assert_eq!(s.on_owner_changed(true), OwnerChange { shutdown_current: true, rebuild: true });
    s.set_station(Some("/net/connman/iwd/1".into()));
    assert_eq!(s.station_path.as_deref(), Some("/net/connman/iwd/1"));
    assert_eq!(s.on_owner_changed(false), OwnerChange { shutdown_current: true, rebuild: false });
    assert_eq!(s.station_path, None);
    assert_eq!(s.on_owner_changed(false), OwnerChange { shutdown_current: false, rebuild: false });
}

#[test]
fn hotplug() {
    let mut s = ServiceState::new(None);
    let path = String::from("/net/connman/iwd/0");
    assert_eq!(s.on_interfaces_added(false, &path), None);
    assert_eq!(s.on_interfaces_added(true, &path), Some(path.clone()));
    assert!(!s.device_built(None));
    assert_eq!(s.station_path, None);
    assert!(s.device_built(Some(path.clone())));
    assert_eq!(s.on_interfaces_added(true, &path), None);
    assert!(!s.on_interfaces_removed(false, "/net/connman/iwd/0"));
    assert!(!s.on_interfaces_removed(true, "/net/connman/iwd/9"));
    assert!(s.on_interfaces_removed(true, "/net/connman/iwd/0"));
    assert_eq!(s.station_path, None);
}

#[test]
fn initialization_errors() {
    assert_eq!(
        initialization_error("D-Bus connection failed", "no bus"),
        Error::ServiceInitializationFailed("D-Bus connection failed: no bus".into())
    );
}
