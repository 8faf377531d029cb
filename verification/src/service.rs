//! Service-level decisions: rebuilding the station when IWD's bus name comes
//! and goes, and following device hot-plug while IWD runs.

use vstd::prelude::*;

use crate::station::Error;
use crate::text::{string_opt_view, text_eq};

verus! {

/// The service's view of its station: the device object path of the live
/// station, if there is one.
#[derive(Debug)]
pub struct ServiceState {
    pub station_path: Option<String>,
}

/// What to do when IWD's bus-name owner changes.
#[derive(Debug, Clone, Copy, PartialEq, Eq, Structural)]
pub struct OwnerChange {
    /// Cancel the current station's monitor (its signal streams may be dead).
    pub shutdown_current: bool,
    /// Discover the device and build a new station against the new owner
    /// (publish the outcome with `set_station`).
    pub rebuild: bool,
}

impl ServiceState {
    /// A service whose discovery found the device at `station_path` (if any).
    pub fn new(station_path: Option<String>) -> (r: Self)
        ensures
            r.station_path == station_path,
    {
        ServiceState { station_path }
    }

    /// IWD left (`present == false`) or (re)appeared on the bus: the old
    /// station is always torn down; it is dropped, or rebuilt from scratch.
    pub fn on_owner_changed(&mut self, present: bool) -> (r: OwnerChange)
        ensures
            r.shutdown_current == (old(self).station_path is Some),
            r.rebuild == present,
            !present ==> final(self).station_path is None,
            present ==> final(self).station_path == old(self).station_path,
    {
        let shutdown_current = self.station_path.is_some();
        if !present {
            self.station_path = None;
        }
        OwnerChange { shutdown_current, rebuild: present }
    }

    /// Publishes the station built after a rebuild (`None` when no device was
    /// found or it could not be initialized).
    pub fn set_station(&mut self, station_path: Option<String>)
        ensures
            final(self).station_path == station_path,
    {
        self.station_path = station_path;
    }

    /// An `InterfacesAdded` signal: a new device is built only when it carries
    /// the device interface and no station exists yet. The result is the path
    /// to build.
    pub fn on_interfaces_added(&self, has_device_interface: bool, object_path: &String) -> (r: Option<
        String,
    >)
        ensures
            has_device_interface && self.station_path is None ==> r == Some(*object_path),
            !(has_device_interface && self.station_path is None) ==> r is None,
    {
        if !has_device_interface || self.station_path.is_some() {
            return None;
        }
        Some(object_path.clone())
    }

    /// The station built for a hot-plugged device replaces the empty slot only
    /// if it could be initialized. The result says whether it was published.
    pub fn device_built(&mut self, built: Option<String>) -> (r: bool)
        ensures
            r == (built is Some),
            built is Some ==> final(self).station_path == built,
            built is None ==> final(self).station_path == old(self).station_path,
    {
        match built {
            Some(path) => {
                self.station_path = Some(path);
                true
            },
            None => false,
        }
    }

    /// An `InterfacesRemoved` signal: when the current station's device lost
    /// its device interface, the station is shut down and dropped. The result
    /// says whether that happened.
    pub fn on_interfaces_removed(&mut self, lost_device_interface: bool, object_path: &str) -> (r: bool)
        ensures
            r == (lost_device_interface && string_opt_view(old(self).station_path) == Some(
                object_path@,
            )),
            r ==> final(self).station_path is None,
            !r ==> final(self).station_path == old(self).station_path,
    {
        if !lost_device_interface {
            return false;
        }
        let same = match &self.station_path {
            Some(path) => text_eq(path.as_str(), object_path),
            None => false,
        };
        if same {
            self.station_path = None;
        }
        same
    }
}

/// The error of a failed service start: `context` followed by `: ` and the
/// cause (as in `D-Bus connection failed: ...`).
pub fn initialization_error(context: &str, cause: &str) -> (r: Error)
    ensures
        r matches Error::ServiceInitializationFailed(m) && m@ == context@ + ": "@ + cause@,
{
    let mut message = String::from_str(context);
    message.append(": ");
    message.append(cause);
    Error::ServiceInitializationFailed(message)
}

} // verus!
