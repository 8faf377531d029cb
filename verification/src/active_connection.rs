//! The "active connection" card of the IWD dropdown: what it shows for the
//! station's connection, a failed attempt, and the pointer hovering it.

use vstd::prelude::*;

use crate::iwd_types::{ConnectionModel, ConnectionState};
use crate::networks::{band_spec, frequency_to_band};
use crate::text::{str_opt_view, Text, TextModel};

verus! {

/// A failed connection attempt shown on the card.
#[derive(Debug)]
pub struct ConnectionError {
    pub ssid: String,
    pub message: String,
}

/// The card's state.
#[derive(Debug)]
pub struct WifiCard {
    /// The station's attempt-aware connection state.
    pub connection: ConnectionState,
    /// Strength bucket (0-100) of the link.
    pub strength: Option<u8>,
    /// Link frequency in MHz.
    pub frequency: Option<u32>,
    /// Whether the pointer hovers the card.
    pub hovered: bool,
    /// The last failed attempt, until dismissed or superseded.
    pub error: Option<ConnectionError>,
    /// The SSID of the attempt the network list started and has not
    /// stopped; a failure is only taken while one is set.
    pub attempt: Option<String>,
}

/// The icon shown in the card.
#[derive(Debug, Clone, Copy, PartialEq, Eq)]
pub enum CardIcon {
    /// A fixed icon name.
    Named(&'static str),
    /// The signal-strength icon for this strength bucket.
    Signal(u8),
}

/// Whether a failed attempt is shown: there is one and the station is idle
/// (once on a connection again the failure is stale).
pub open spec fn shows_error(card: WifiCard) -> bool {
    card.error is Some && card.connection@ is Idle
}

/// The card once its attempt is stopped (cancelled, forgotten, or
/// superseded by a connection): no attempt and no failure.
pub open spec fn progress_reset_spec(card: WifiCard) -> WifiCard {
    WifiCard { attempt: None, error: None, ..card }
}

/// The card after a failure is reported: taken only while an attempt is
/// set, dropped otherwise.
pub open spec fn show_error_spec(card: WifiCard, error: ConnectionError) -> WifiCard {
    if card.attempt is Some {
        WifiCard { error: Some(error), ..card }
    } else {
        card
    }
}

/// Whether the card is shown: while connecting, while connected, or while
/// it shows a failure.
pub open spec fn card_visible_spec(card: WifiCard) -> bool {
    card.connection@ is Connecting || card.connection@ is Connected || shows_error(card)
}

impl WifiCard {
    /// The card of a station (or of none: idle, nothing known).
    pub fn new(connection: ConnectionState, strength: Option<u8>, frequency: Option<u32>) -> (r: Self)
        ensures
            r.connection == connection,
            r.strength == strength,
            r.frequency == frequency,
            !r.hovered,
            r.error is None,
            r.attempt is None,
    {
        WifiCard { connection, strength, frequency, hovered: false, error: None, attempt: None }
    }

    /// Whether a failed attempt should be shown.
    pub fn has_wifi_error(&self) -> (r: bool)
        ensures
            r == shows_error(*self),
    {
        self.error.is_some() && match self.connection {
            ConnectionState::Idle => true,
            _ => false,
        }
    }

    /// Whether a connection is being established.
    pub fn is_connecting(&self) -> (r: bool)
        ensures
            r == (self.connection@ is Connecting),
    {
        match self.connection {
            ConnectionState::Connecting { .. } => true,
            _ => false,
        }
    }

    /// Whether the station is connected.
    pub fn is_connected(&self) -> (r: bool)
        ensures
            r == (self.connection@ is Connected),
    {
        match self.connection {
            ConnectionState::Connected { .. } => true,
            _ => false,
        }
    }

    /// Whether the card is shown at all.
    pub fn card_visible(&self) -> (r: bool)
        ensures
            r == card_visible_spec(*self),
    {
        self.is_connecting() || self.is_connected() || self.has_wifi_error()
    }

    /// The network name: the failed target while its error shows, else the
    /// active SSID, else a generic WiFi label.
    pub fn display_wifi_name(&self) -> (r: Text)
        ensures
            shows_error(*self) ==> r@ == TextModel::Literal(self.error->0.ssid@),
            !shows_error(*self) ==> r@ == (match self.connection@ {
                ConnectionModel::Connecting(s) => TextModel::Literal(s),
                ConnectionModel::Connected(s) => TextModel::Literal(s),
                ConnectionModel::Idle => TextModel::Message("dropdown-iwd-wifi"@),
            }),
    {
        if self.has_wifi_error() {
            if let Some(error) = &self.error {
                return Text::Literal(error.ssid.clone());
            }
        }
        match &self.connection {
            ConnectionState::Connecting { ssid } => Text::Literal(ssid.clone()),
            ConnectionState::Connected { ssid } => Text::Literal(ssid.clone()),
            ConnectionState::Idle => Text::Message("dropdown-iwd-wifi"),
        }
    }

    /// The status badge: error, connecting, or nothing.
    pub fn status_label(&self) -> (r: Option<Text>)
        ensures
            shows_error(*self) ==> (r matches Some(t) && t@ == TextModel::Message("dropdown-iwd-error"@)),
            !shows_error(*self) && self.connection@ is Connecting ==> (r matches Some(t) && t@
                == TextModel::Message("dropdown-iwd-connecting"@)),
            !shows_error(*self) && !(self.connection@ is Connecting) ==> r is None,
    {
        if self.has_wifi_error() {
            return Some(Text::Message("dropdown-iwd-error"));
        }
        if self.is_connecting() {
            return Some(Text::Message("dropdown-iwd-connecting"));
        }
        None
    }

    /// Whether the detail line is shown.
    pub fn wifi_detail_visible(&self) -> (r: bool)
        ensures
            r == (shows_error(*self) || self.frequency is Some),
    {
        self.has_wifi_error() || self.frequency.is_some()
    }

    /// The detail line: the failure message while it shows, else the band of
    /// the link frequency, else empty.
    pub fn wifi_detail(&self) -> (r: String)
        ensures
            shows_error(*self) ==> r@ == self.error->0.message@,
            !shows_error(*self) ==> r@ == (match self.frequency {
                Some(f) => match band_spec(f) {
                    Some(b) => b,
                    None => Seq::empty(),
                },
                None => Seq::empty(),
            }),
    {
        if self.has_wifi_error() {
            if let Some(error) = &self.error {
                return error.message.clone();
            }
        }
        match self.frequency {
            Some(f) => match frequency_to_band(f) {
                Some(b) => String::from_str(b),
                None => String::new(),
            },
            None => String::new(),
        }
    }

    /// The tooltip of the detail line: the failure message while it shows.
    pub fn error_tooltip(&self) -> (r: Option<&str>)
        ensures
            shows_error(*self) ==> (r matches Some(m) && m@ == self.error->0.message@),
            !shows_error(*self) ==> r is None,
    {
        if !self.has_wifi_error() {
            return None;
        }
        match &self.error {
            Some(error) => Some(error.message.as_str()),
            None => None,
        }
    }

    /// Classes of the detail line.
    pub fn wifi_detail_classes(&self) -> (r: Vec<&'static str>)
        ensures
            shows_error(*self) ==> str_views(r@) == seq!["network-connection-detail"@, "error"@],
            !shows_error(*self) ==> str_views(r@) == seq!["network-connection-detail"@],
    {
        let mut v: Vec<&'static str> = Vec::new();
        v.push("network-connection-detail");
        if self.has_wifi_error() {
            v.push("error");
            assert(str_views(v@) =~= seq!["network-connection-detail"@, "error"@]);
        } else {
            assert(str_views(v@) =~= seq!["network-connection-detail"@]);
        }
        v
    }

    /// Classes of the icon container.
    pub fn wifi_icon_classes(&self) -> (r: Vec<&'static str>)
        ensures
            shows_error(*self) ==> str_views(r@) == seq!["network-connection-icon"@, "error"@],
            !shows_error(*self) ==> str_views(r@) == seq!["network-connection-icon"@, "wifi"@],
    {
        let mut v: Vec<&'static str> = Vec::new();
        v.push("network-connection-icon");
        if self.has_wifi_error() {
            v.push("error");
            assert(str_views(v@) =~= seq!["network-connection-icon"@, "error"@]);
        } else {
            v.push("wifi");
            assert(str_views(v@) =~= seq!["network-connection-icon"@, "wifi"@]);
        }
        v
    }

    /// The card icon: offline while a failure shows, acquiring while
    /// connecting, otherwise the signal icon of the strength (0 when unknown).
    pub fn effective_wifi_icon(&self) -> (r: CardIcon)
        ensures
            shows_error(*self) ==> (r matches CardIcon::Named(n) && n@
                == "network-wireless-offline-symbolic"@),
            !shows_error(*self) && self.connection@ is Connecting ==> (r matches CardIcon::Named(n)
                && n@ == "network-wireless-acquiring-symbolic"@),
            !shows_error(*self) && !(self.connection@ is Connecting) ==> r == CardIcon::Signal(
                match self.strength {
                    Some(s) => s,
                    None => 0,
                },
            ),
    {
        if self.has_wifi_error() {
            return CardIcon::Named("network-wireless-offline-symbolic");
        }
        if self.is_connecting() {
            return CardIcon::Named("network-wireless-acquiring-symbolic");
        }
        CardIcon::Signal(
            match self.strength {
                Some(s) => s,
                None => 0,
            },
        )
    }

    /// Classes of the status badge.
    pub fn status_classes(&self) -> (r: Vec<&'static str>)
        ensures
            shows_error(*self) ==> str_views(r@) == seq![
                "badge-subtle"@,
                "network-connection-status"@,
                "error"@,
            ],
            !shows_error(*self) && self.connection@ is Connecting ==> str_views(r@) == seq![
                "badge-subtle"@,
                "network-connection-status"@,
                "warning"@,
            ],
            !shows_error(*self) && !(self.connection@ is Connecting) ==> str_views(r@) == seq![
                "badge-subtle"@,
                "network-connection-status"@,
            ],
    {
        let mut v: Vec<&'static str> = Vec::new();
        v.push("badge-subtle");
        v.push("network-connection-status");
        if self.has_wifi_error() {
            v.push("error");
            assert(str_views(v@) =~= seq!["badge-subtle"@, "network-connection-status"@, "error"@]);
        } else if self.is_connecting() {
            v.push("warning");
            assert(str_views(v@) =~= seq!["badge-subtle"@, "network-connection-status"@, "warning"@]);
        } else {
            assert(str_views(v@) =~= seq!["badge-subtle"@, "network-connection-status"@]);
        }
        v
    }

    /// The visible child of the hover stack: cancel actions while hovering a
    /// connecting card, disconnect/forget while hovering a connected one,
    /// dismiss while hovering a shown failure, else the status.
    pub fn visible_child(&self) -> (r: &'static str)
        ensures
            self.hovered && self.connection@ is Connecting ==> r@ == "cancel-actions"@,
            self.hovered && self.connection@ is Connected ==> r@ == "actions"@,
            self.hovered && shows_error(*self) ==> r@ == "error-actions"@,
            !self.hovered || self.connection@ is Idle && !shows_error(*self) ==> r@ == "status"@,
    {
        if self.hovered && self.is_connecting() {
            "cancel-actions"
        } else if self.hovered && self.is_connected() {
            "actions"
        } else if self.hovered && self.has_wifi_error() {
            "error-actions"
        } else {
            "status"
        }
    }

    /// The station's connection, strength or frequency changed. A connection
    /// that comes up clears a failed attempt.
    pub fn on_wifi_changed(&mut self, connection: ConnectionState, strength: Option<u8>, frequency: Option<u32>)
        ensures
            final(self).connection == connection,
            final(self).strength == strength,
            final(self).frequency == frequency,
            final(self).hovered == old(self).hovered,
            connection@ is Connected ==> final(self).error is None && final(self).attempt is None,
            !(connection@ is Connected) ==> final(self).error == old(self).error && final(self).attempt
                == old(self).attempt,
    {
        let connected = match connection {
            ConnectionState::Connected { .. } => true,
            _ => false,
        };
        self.connection = connection;
        self.strength = strength;
        self.frequency = frequency;
        if connected {
            self.error = None;
            self.attempt = None;
        }
    }

    /// The station device changed; when it is gone the card is reset.
    pub fn on_station_changed(&mut self, station_present: bool)
        ensures
            !station_present ==> final(self).connection@ == ConnectionModel::Idle && final(self).strength is None
                && final(self).frequency is None && !final(self).hovered && final(self).error is None
                && final(self).attempt is None,
            station_present ==> *final(self) == *old(self),
    {
        if !station_present {
            self.connection = ConnectionState::Idle;
            self.strength = None;
            self.frequency = None;
            self.hovered = false;
            self.error = None;
            self.attempt = None;
        }
    }

    /// The network list started an attempt on `ssid`.
    pub fn set_connecting(&mut self, ssid: String)
        ensures
            *final(self) == (WifiCard { attempt: Some(ssid), ..*old(self) }),
    {
        self.attempt = Some(ssid);
    }

    /// The network list's attempt is over.
    pub fn clear_connecting(&mut self)
        ensures
            *final(self) == (WifiCard { attempt: None, ..*old(self) }),
    {
        self.attempt = None;
    }

    /// A failed attempt routed from the network list: shown only while the
    /// attempt is still on (a failure trailing a cancel or forget is
    /// dropped).
    pub fn show_error(&mut self, ssid: String, message: String)
        ensures
            *final(self) == show_error_spec(*old(self), ConnectionError { ssid, message }),
    {
        if self.attempt.is_some() {
            self.error = Some(ConnectionError { ssid, message });
        }
    }

    /// Cancel: the attempt is stopped and any failure cleared before the
    /// caller disconnects, so the aborted attempt's failure is not shown.
    pub fn cancel(&mut self)
        ensures
            *final(self) == progress_reset_spec(*old(self)),
    {
        self.attempt = None;
        self.error = None;
    }

    /// Dismisses the shown failure; the attempt is left as it is.
    pub fn dismiss_error(&mut self)
        ensures
            *final(self) == (WifiCard { error: None, ..*old(self) }),
    {
        self.error = None;
    }

    /// The pointer entered or left the card.
    pub fn set_hovered(&mut self, hovered: bool)
        ensures
            *final(self) == (WifiCard { hovered, ..*old(self) }),
    {
        self.hovered = hovered;
    }

    /// Forget: captures the SSID to forget (the connecting target or the
    /// connected network), then stops the attempt and clears any failure.
    pub fn take_forget_target(&mut self) -> (r: Option<String>)
        ensures
            crate::text::string_opt_view(r) == (match old(self).connection@ {
                ConnectionModel::Connecting(s) => Some(s),
                ConnectionModel::Connected(s) => Some(s),
                ConnectionModel::Idle => None,
            }),
            *final(self) == progress_reset_spec(*old(self)),
    {
        let target = match &self.connection {
            ConnectionState::Connecting { ssid } => Some(ssid.clone()),
            ConnectionState::Connected { ssid } => Some(ssid.clone()),
            ConnectionState::Idle => None,
        };
        self.error = None;
        self.attempt = None;
        target
    }
}

pub open spec fn str_views(v: Seq<&'static str>) -> Seq<Seq<char>> {
    v.map_values(|s: &'static str| s@)
}

/// A failure is only ever shown on an idle card (a connecting or connected
/// card never shows one, whatever failure it holds), and whenever the card
/// shows a failure the card itself is visible.
pub proof fn lemma_error_only_when_idle(card: WifiCard)
    ensures
        card.connection@ is Connecting || card.connection@ is Connected ==> !shows_error(card),
        shows_error(card) ==> card_visible_spec(card),
{
}

/// A failure that trails a stopped attempt is dropped: after a cancel or a
/// forget, reporting a failure leaves the card without one; while an attempt
/// is on, the reported failure is the one shown.
pub proof fn lemma_stopped_attempt_drops_failure(card: WifiCard, error: ConnectionError)
    ensures
        show_error_spec(progress_reset_spec(card), error).error is None,
        card.attempt is Some ==> show_error_spec(card, error).error == Some(error),
{
}

} // verus!
