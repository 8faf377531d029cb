//! Connection state, security classification and signal buckets derived from
//! IWD's D-Bus representation.

use vstd::prelude::*;

use crate::text::{string_opt_view, text_eq};

verus! {

/// Attempt-aware view of what the station is doing with respect to a network.
#[derive(Debug, Clone, PartialEq, Eq)]
pub enum ConnectionState {
    /// Not connected and not attempting a connection.
    Idle,
    /// Establishing (or roaming to) a connection to `ssid`.
    Connecting { ssid: String },
    /// Connected to `ssid`.
    Connected { ssid: String },
}

/// Mathematical model of a [`ConnectionState`]: the SSIDs taken by their views.
pub enum ConnectionModel {
    Idle,
    Connecting(Seq<char>),
    Connected(Seq<char>),
}

impl View for ConnectionState {
    type V = ConnectionModel;

    open spec fn view(&self) -> ConnectionModel {
        match self {
            ConnectionState::Idle => ConnectionModel::Idle,
            ConnectionState::Connecting { ssid } => ConnectionModel::Connecting(ssid@),
            ConnectionState::Connected { ssid } => ConnectionModel::Connected(ssid@),
        }
    }
}

/// The connection derived from a raw `Station.State` string and the resolved
/// SSID of `ConnectedNetwork`.
pub open spec fn raw_state_model(state: Seq<char>, ssid: Option<Seq<char>>) -> ConnectionModel {
    if state == "connected"@ || state == "roaming"@ {
        match ssid {
            Some(s) => ConnectionModel::Connected(s),
            None => ConnectionModel::Idle,
        }
    } else if state == "connecting"@ {
        match ssid {
            Some(s) => ConnectionModel::Connecting(s),
            None => ConnectionModel::Idle,
        }
    } else {
        ConnectionModel::Idle
    }
}

impl ConnectionState {
    /// Derives a connection state from IWD's raw `Station.State` string and the
    /// resolved `ConnectedNetwork` SSID. `roaming` counts as connected; only
    /// `connected`, `roaming` and `connecting` with a known SSID leave `Idle`.
    pub fn from_raw_state(state: &str, connected_ssid: Option<String>) -> (r: Self)
        ensures
            r@ == raw_state_model(state@, string_opt_view(connected_ssid)),
    {
        if text_eq(state, "connected") || text_eq(state, "roaming") {
            match connected_ssid {
                Some(ssid) => ConnectionState::Connected { ssid },
                None => ConnectionState::Idle,
            }
        } else if text_eq(state, "connecting") {
            match connected_ssid {
                Some(ssid) => ConnectionState::Connecting { ssid },
                None => ConnectionState::Idle,
            }
        } else {
            ConnectionState::Idle
        }
    }
}

impl ConnectionState {
    /// The SSID of the active or in-progress connection, if any.
    pub fn ssid(&self) -> (r: Option<&str>)
        ensures
            match self@ {
                ConnectionModel::Idle => r is None,
                ConnectionModel::Connecting(s) => r matches Some(x) && x@ == s,
                ConnectionModel::Connected(s) => r matches Some(x) && x@ == s,
            },
    {
        match self {
            ConnectionState::Idle => None,
            ConnectionState::Connecting { ssid } => Some(ssid.as_str()),
            ConnectionState::Connected { ssid } => Some(ssid.as_str()),
        }
    }
}

/// Security type classification for a network. IWD's `psk` covers WPA2 and
/// WPA3 personal networks alike.
#[derive(Debug, Clone, Copy, PartialEq, Eq, Hash, Structural)]
pub enum SecurityType {
    /// No security (open network).
    Open,
    /// WEP - deprecated and insecure.
    Wep,
    /// Pre-shared key (WPA2 or WPA3 personal).
    Psk,
    /// Enterprise security (802.1X).
    Enterprise,
}

/// The security type named by IWD's `Network.Type` string.
pub open spec fn iwd_type_model(t: Seq<char>) -> SecurityType {
    if t == "wep"@ {
        SecurityType::Wep
    } else if t == "psk"@ {
        SecurityType::Psk
    } else if t == "8021x"@ {
        SecurityType::Enterprise
    } else {
        SecurityType::Open
    }
}

impl SecurityType {
    /// Derives the security type from IWD's `Network.Type` string
    /// (`open` / `wep` / `psk` / `8021x`); anything unknown is open.
    pub fn from_iwd_type(network_type: &str) -> (r: Self)
        ensures
            r == iwd_type_model(network_type@),
    {
        if text_eq(network_type, "wep") {
            SecurityType::Wep
        } else if text_eq(network_type, "psk") {
            SecurityType::Psk
        } else if text_eq(network_type, "8021x") {
            SecurityType::Enterprise
        } else {
            SecurityType::Open
        }
    }
}

/// The 0-100 strength bucket of a dBm level, with iwgtk's thresholds
/// `{-60, -67, -74, -81}` dBm.
pub open spec fn dbm_bucket(dbm: int) -> u8 {
    if dbm > -60 {
        100
    } else if dbm > -67 {
        75
    } else if dbm > -74 {
        55
    } else if dbm > -81 {
        35
    } else {
        10
    }
}

/// Integer division that rounds toward zero, as Rust's `/` does.
pub open spec fn div_toward_zero(x: int, d: int) -> int {
    if x >= 0 {
        x / d
    } else {
        -((-x) / d)
    }
}

/// Maps a dBm signal level to a 0-100 strength bucket.
pub fn dbm_to_percent(dbm: i32) -> (r: u8)
    ensures
        r == dbm_bucket(dbm as int),
{
    if dbm > -60 {
        100
    } else if dbm > -67 {
        75
    } else if dbm > -74 {
        55
    } else if dbm > -81 {
        35
    } else {
        10
    }
}

/// Converts an IWD signal strength reported as `100 * dBm` to a 0-100 bucket.
pub fn signal_to_percent(signal_100dbm: i16) -> (r: u8)
    ensures
        r == dbm_bucket(div_toward_zero(signal_100dbm as int, 100)),
{
    let wide: i32 = signal_100dbm as i32;
    let dbm: i32 = if wide >= 0 { wide / 100 } else { -((-wide) / 100) };
    dbm_to_percent(dbm)
}

} // verus!
