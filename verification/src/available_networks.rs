//! The available-networks list of the IWD dropdown: selecting a network,
//! prompting for a password, connecting, and reacting to WiFi availability.

use vstd::prelude::*;

use crate::iwd_types::SecurityType;
use crate::networks::{needs_password, requires_password, unique_networks, unique_spec, NetworkSnapshot};
use crate::text::{str_opt_view, string_opt_view};

verus! {

/// What the list is doing.
#[derive(Debug, Clone, Copy, PartialEq, Eq, Structural)]
pub enum ListState {
    /// Browsing.
    Normal,
    /// The password form is shown for the selected network.
    PasswordEntry,
    /// A connection to the selected network is under way.
    Connecting,
}

/// The network the user picked.
#[derive(Debug)]
pub struct SelectedNetwork {
    pub network_path: String,
    pub ssid: String,
    pub security: SecurityType,
    /// Signal bucket, kept so the icon can be recomputed.
    pub strength: u8,
    /// Whether a password is required.
    pub secured: bool,
}

/// A connection the caller must start.
#[derive(Debug)]
pub struct ConnectRequest {
    pub network_path: String,
    pub ssid: String,
    pub password: Option<String>,
    /// Forget the network's saved credentials before connecting: IWD would
    /// otherwise reuse them and never ask for the password just typed.
    pub forget_first: bool,
    /// Whether the network is secured (a failure then means a wrong password).
    pub secured: bool,
}

/// What selecting a row leads to.
#[derive(Debug)]
pub enum Selection {
    /// No such row.
    Ignored,
    /// Show the password form for this network.
    PromptPassword { ssid: String, security: SecurityType, strength: u8 },
    /// Connect straight away (open, enterprise or saved network).
    Connect(ConnectRequest),
    /// Nothing to connect with (no station).
    Unavailable,
}

/// How a finished connect attempt is reported.
#[derive(Debug, Clone, Copy, PartialEq, Eq, Structural)]
pub enum ConnectOutcome {
    /// Connected (or aborted on purpose): back to browsing.
    Settled,
    /// A secured network refused the attempt: ask for the password again.
    AuthFailed,
    /// Any other failure: show the generic error message.
    Failed,
}

/// The list's state.
#[derive(Debug)]
pub struct NetworkList {
    pub state: ListState,
    pub selection: Option<SelectedNetwork>,
    pub wifi_available: bool,
    pub powered: bool,
    /// The networks shown, as last rebuilt.
    pub networks: Vec<NetworkSnapshot>,
}

/// The SSID shown as the active connection (and so left out of the list):
/// the selected target while connecting, otherwise the connected network.
pub open spec fn active_ssid_spec(list: NetworkList, connected: Option<Seq<char>>) -> Option<Seq<char>> {
    if list.state == ListState::Connecting && list.selection is Some {
        Some(list.selection->0.ssid@)
    } else {
        connected
    }
}

impl NetworkList {
    /// An empty, idle list.
    pub fn new(wifi_available: bool, powered: bool) -> (r: Self)
        ensures
            r.state == ListState::Normal,
            r.selection is None,
            r.wifi_available == wifi_available,
            r.powered == powered,
            r.networks@.len() == 0,
    {
        NetworkList { state: ListState::Normal, selection: None, wifi_available, powered, networks: Vec::new() }
    }

    /// The SSID excluded from the list as the active connection.
    pub fn active_ssid(&self, connected_ssid: Option<String>) -> (r: Option<String>)
        ensures
            string_opt_view(r) == active_ssid_spec(*self, string_opt_view(connected_ssid)),
    {
        if self.state == ListState::Connecting {
            if let Some(selection) = &self.selection {
                return Some(selection.ssid.clone());
            }
        }
        connected_ssid
    }

    /// Rebuilds the list from the station's scan results (none without a
    /// station), leaving out the active SSID.
    pub fn rebuild(&mut self, scan: Option<&Vec<NetworkSnapshot>>, connected_ssid: Option<String>)
        ensures
            match scan {
                Some(s) => final(self).networks@ == unique_spec(
                    s@,
                    active_ssid_spec(*old(self), string_opt_view(connected_ssid)),
                ),
                None => final(self).networks@.len() == 0,
            },
            final(self).state == old(self).state,
            final(self).selection == old(self).selection,
            final(self).wifi_available == old(self).wifi_available,
            final(self).powered == old(self).powered,
    {
        let active = self.active_ssid(connected_ssid);
        let active_ref: Option<&str> = match &active {
            Some(a) => Some(a.as_str()),
            None => None,
        };
        assert(str_opt_view(active_ref) == string_opt_view(active));
        self.networks = match scan {
            Some(s) => unique_networks(s, active_ref),
            None => Vec::new(),
        };
    }

    fn clear_selection(&mut self)
        ensures
            final(self).selection is None,
            final(self).state == old(self).state,
            final(self).wifi_available == old(self).wifi_available,
            final(self).powered == old(self).powered,
            final(self).networks == old(self).networks,
    {
        self.selection = None;
    }

    /// Starts connecting to the selection (with `password` when the user typed
    /// one), given the station's scan list (`None` without a station) and its
    /// connected SSID. Nothing happens without a selection or without a
    /// station. Otherwise the list enters `Connecting` and is rebuilt at once,
    /// so the target leaves it and the previously connected network returns.
    pub fn connect_to_selected(
        &mut self,
        password: Option<String>,
        station: Option<&Vec<NetworkSnapshot>>,
        connected_ssid: Option<String>,
    ) -> (r: Option<ConnectRequest>)
        ensures
            (old(self).selection is None || station is None) ==> r is None && final(self).state
                == old(self).state && final(self).networks == old(self).networks,
            old(self).selection is Some && station is Some ==> ({
                let sel = old(self).selection->0;
                &&& final(self).state == ListState::Connecting
                &&& r matches Some(req) && req.network_path == sel.network_path && req.ssid == sel.ssid
                    && req.password == password && req.forget_first == password is Some && req.secured
                    == sel.secured
                &&& final(self).networks@ == unique_spec(
                    station->0@,
                    active_ssid_spec(*final(self), string_opt_view(connected_ssid)),
                )
                &&& final(self).networks@ == unique_spec(station->0@, Some(sel.ssid@))
            }),
            final(self).selection == old(self).selection,
            final(self).wifi_available == old(self).wifi_available,
            final(self).powered == old(self).powered,
    {
        let scan = match station {
            Some(scan) => scan,
            None => return None,
        };
        let request = match &self.selection {
            Some(selection) => {
                let forget_first = password.is_some();
                ConnectRequest {
                    network_path: selection.network_path.clone(),
                    ssid: selection.ssid.clone(),
                    password,
                    forget_first,
                    secured: selection.secured,
                }
            },
            None => return None,
        };
        self.state = ListState::Connecting;
        self.rebuild(Some(scan), connected_ssid);
        Some(request)
    }

    /// A row was clicked: a secured network without saved credentials asks
    /// for a password; any other network connects straight away (given the
    /// station's scan list, `None` without a station, and its connected
    /// SSID).
    pub fn select_network(
        &mut self,
        index: usize,
        station: Option<&Vec<NetworkSnapshot>>,
        connected_ssid: Option<String>,
    ) -> (r: Selection)
        ensures
            index >= old(self).networks@.len() ==> r is Ignored && final(self).state == old(self).state
                && final(self).selection == old(self).selection && final(self).networks
                == old(self).networks,
            index < old(self).networks@.len() ==> ({
                let n = old(self).networks@[index as int];
                &&& final(self).selection matches Some(sel) && sel.ssid == n.ssid && sel.network_path
                    == n.object_path && sel.security == n.security && sel.strength == n.strength
                    && sel.secured == needs_password(n.security)
                &&& needs_password(n.security) && !n.known ==> (final(self).state
                    == ListState::PasswordEntry && final(self).networks == old(self).networks && (r matches Selection::PromptPassword {
                    ssid,
                    security,
                    strength,
                } && ssid == n.ssid && security == n.security && strength == n.strength))
                &&& !(needs_password(n.security) && !n.known) && station is Some ==> (final(self).state
                    == ListState::Connecting && (r matches Selection::Connect(req) && req.network_path
                    == n.object_path && req.ssid == n.ssid && req.password is None && !req.forget_first
                    && req.secured == needs_password(n.security)) && final(self).networks@ == unique_spec(
                    station->0@,
                    Some(n.ssid@),
                ))
                &&& !(needs_password(n.security) && !n.known) && station is None ==> final(self).state
                    == old(self).state && r is Unavailable && final(self).networks == old(self).networks
            }),
            final(self).wifi_available == old(self).wifi_available,
            final(self).powered == old(self).powered,
    {
        if index >= self.networks.len() {
            return Selection::Ignored;
        }
        let network = &self.networks[index];
        let secured = requires_password(network.security);
        let known = network.known;
        let ssid = network.ssid.clone();
        let security = network.security;
        let strength = network.strength;
        self.selection = Some(
            SelectedNetwork {
                network_path: network.object_path.clone(),
                ssid: network.ssid.clone(),
                security,
                strength,
                secured,
            },
        );
        if secured && !known {
            self.state = ListState::PasswordEntry;
            Selection::PromptPassword { ssid, security, strength }
        } else {
            match self.connect_to_selected(None, station, connected_ssid) {
                Some(request) => Selection::Connect(request),
                None => Selection::Unavailable,
            }
        }
    }

    /// The password form was submitted: connect with the password (given the
    /// station's scan list, `None` without a station, and its connected SSID).
    pub fn submit_password(
        &mut self,
        password: String,
        station: Option<&Vec<NetworkSnapshot>>,
        connected_ssid: Option<String>,
    ) -> (r: Option<ConnectRequest>)
        ensures
            (old(self).selection is None || station is None) ==> r is None && final(self).state
                == old(self).state && final(self).networks == old(self).networks,
            old(self).selection is Some && station is Some ==> (final(self).state == ListState::Connecting
                && (r matches Some(req) && req.password == Some(password) && req.forget_first
                && req.network_path == old(self).selection->0.network_path && req.ssid
                == old(self).selection->0.ssid && req.secured == old(self).selection->0.secured)
                && final(self).networks@ == unique_spec(station->0@, Some(old(self).selection->0.ssid@))),
            final(self).selection == old(self).selection,
    {
        self.connect_to_selected(Some(password), station, connected_ssid)
    }

    /// The password form was cancelled: back to browsing.
    pub fn cancel_password(&mut self)
        ensures
            final(self).state == ListState::Normal,
            final(self).selection is None,
            final(self).networks == old(self).networks,
    {
        self.state = ListState::Normal;
        self.clear_selection();
    }

    /// A genuine failure left the station disconnected: back to browsing
    /// (the caller rebuilds the list and hands the message to the card).
    pub fn connection_failed(&mut self)
        ensures
            final(self).state == ListState::Normal,
            final(self).selection is None,
            final(self).wifi_available == old(self).wifi_available,
            final(self).powered == old(self).powered,
            final(self).networks == old(self).networks,
    {
        self.state = ListState::Normal;
        self.clear_selection();
    }

    /// WiFi became (un)available. When it goes away, an attempt in progress is
    /// dropped (the result says the card must clear its connecting display)
    /// and the selection is cleared. The caller rebuilds the list after.
    pub fn set_wifi_available(&mut self, available: bool, powered: bool) -> (r: bool)
        ensures
            final(self).wifi_available == available,
            final(self).powered == powered,
            r == (!available && old(self).state == ListState::Connecting),
            !available ==> final(self).state == ListState::Normal && final(self).selection is None,
            available ==> final(self).state == old(self).state && final(self).selection == old(self).selection,
            final(self).networks == old(self).networks,
    {
        self.wifi_available = available;
        self.powered = powered;
        if !available {
            let was_connecting = self.state == ListState::Connecting;
            self.state = ListState::Normal;
            self.clear_selection();
            return was_connecting;
        }
        false
    }

    /// The WiFi toggle changed. Turning it off empties the list, drops an
    /// attempt in progress (the result says the card must clear its connecting
    /// display) and clears the selection; turning it on asks for a rebuild.
    pub fn set_wifi_enabled(&mut self, enabled: bool) -> (r: bool)
        ensures
            final(self).powered == enabled,
            r == (!enabled && old(self).state == ListState::Connecting),
            !enabled ==> final(self).state == ListState::Normal && final(self).selection is None
                && final(self).networks@.len() == 0,
            enabled ==> final(self).state == old(self).state && final(self).selection == old(self).selection
                && final(self).networks == old(self).networks,
            final(self).wifi_available == old(self).wifi_available,
    {
        self.powered = enabled;
        if enabled {
            return false;
        }
        self.networks = Vec::new();
        let was_connecting = self.state == ListState::Connecting;
        self.state = ListState::Normal;
        self.clear_selection();
        was_connecting
    }
}

/// How a finished attempt is reported: success settles; a failure on a
/// secured network is an authentication failure, any other a generic one.
pub fn connect_outcome(succeeded: bool, secured: bool) -> (r: ConnectOutcome)
    ensures
        succeeded ==> r == ConnectOutcome::Settled,
        !succeeded && secured ==> r == ConnectOutcome::AuthFailed,
        !succeeded && !secured ==> r == ConnectOutcome::Failed,
{
    if succeeded {
        ConnectOutcome::Settled
    } else if secured {
        ConnectOutcome::AuthFailed
    } else {
        ConnectOutcome::Failed
    }
}

/// While connecting, the target never appears in the list it was picked
/// from: the rebuilt list leaves the selected SSID out.
pub proof fn lemma_target_not_listed(list: NetworkList, scan: Seq<NetworkSnapshot>, connected: Option<Seq<char>>)
    requires
        list.state == ListState::Connecting,
        list.selection is Some,
    ensures
        forall|k: int|
            0 <= k < unique_spec(scan, active_ssid_spec(list, connected)).len() ==> (#[trigger] unique_spec(
                scan,
                active_ssid_spec(list, connected),
            )[k]).ssid@ != list.selection->0.ssid@,
{
    crate::networks::lemma_unique_networks_distinct(scan, active_ssid_spec(list, connected));
}

} // verus!
