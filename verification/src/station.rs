//! A WiFi station's reactive state and the decisions its background monitor
//! and its foreground connect attempts make on IWD's signals.

use vstd::prelude::*;

use crate::iwd_types::{
    dbm_bucket, dbm_to_percent, raw_state_model, ConnectionModel, ConnectionState,
};
use crate::iwd_types::{div_toward_zero, iwd_type_model, signal_to_percent, SecurityType};
use crate::networks::NetworkSnapshot;
use crate::passphrases::PassphraseStore;
use crate::text::{string_opt_view, text_eq};

verus! {

/// Errors of the IWD service, with their causes held as plain text.
#[derive(Debug, PartialEq, Eq)]
pub enum Error {
    /// D-Bus communication error.
    DbusError(String),
    /// Service initialization failed (top-level service startup).
    ServiceInitializationFailed(String),
    /// Object not found at the specified D-Bus path.
    ObjectNotFound(String),
    /// A network operation failed.
    OperationFailed { operation: String, source: String },
    /// Monitoring requires a cancellation token.
    MissingCancellationToken,
    /// IWD rejected the connection (e.g. a wrong passphrase).
    ConnectionFailed,
    /// The connection attempt was cancelled or superseded.
    ConnectionAborted,
}

/// How a failed `Network.Connect` call is reported.
#[derive(Debug, Clone, Copy, PartialEq, Eq, Structural)]
pub enum ConnectFailure {
    /// IWD answered `net.connman.iwd.Failed`.
    Rejected,
    /// IWD answered `net.connman.iwd.Aborted`.
    Aborted,
    /// Any other failure.
    Other,
}

/// The failure kind of a D-Bus method error name (`None` when the failure was
/// not a method error).
pub open spec fn failure_spec(error_name: Option<Seq<char>>) -> ConnectFailure {
    match error_name {
        Some(n) => if n == "net.connman.iwd.Failed"@ {
            ConnectFailure::Rejected
        } else if n == "net.connman.iwd.Aborted"@ {
            ConnectFailure::Aborted
        } else {
            ConnectFailure::Other
        },
        None => ConnectFailure::Other,
    }
}

/// Classifies a failed connect by the D-Bus error name IWD answered with.
pub fn classify_connect_failure(error_name: Option<&str>) -> (r: ConnectFailure)
    ensures
        r == failure_spec(crate::text::str_opt_view(error_name)),
{
    match error_name {
        Some(name) => if text_eq(name, "net.connman.iwd.Failed") {
            ConnectFailure::Rejected
        } else if text_eq(name, "net.connman.iwd.Aborted") {
            ConnectFailure::Aborted
        } else {
            ConnectFailure::Other
        },
        None => ConnectFailure::Other,
    }
}

/// The error a failed connect returns: `ConnectionFailed` for a rejected
/// passphrase, `ConnectionAborted` when cancelled or superseded, otherwise an
/// `OperationFailed` that carries the D-Bus error's text.
pub fn connect_error(error_name: Option<&str>, message: String) -> (r: Error)
    ensures
        failure_spec(crate::text::str_opt_view(error_name)) == ConnectFailure::Rejected ==> r
            == Error::ConnectionFailed,
        failure_spec(crate::text::str_opt_view(error_name)) == ConnectFailure::Aborted ==> r
            == Error::ConnectionAborted,
        failure_spec(crate::text::str_opt_view(error_name)) == ConnectFailure::Other ==> (r matches Error::OperationFailed {
            operation,
            source,
        } && operation@ == "connect to network"@ && source == message),
{
    match classify_connect_failure(error_name) {
        ConnectFailure::Rejected => Error::ConnectionFailed,
        ConnectFailure::Aborted => Error::ConnectionAborted,
        ConnectFailure::Other => Error::OperationFailed {
            operation: String::from_str("connect to network"),
            source: message,
        },
    }
}

/// The error of a connect whose target's `Network` proxy could not be
/// created: an `OperationFailed` that carries the D-Bus error's text.
pub fn network_proxy_error(message: String) -> (r: Error)
    ensures
        r matches Error::OperationFailed { operation, source } && operation@ == "create network proxy"@
            && source == message,
{
    Error::OperationFailed { operation: String::from_str("create network proxy"), source: message }
}

/// Whether a D-Bus object path names an object (`ConnectedNetwork` is `/`
/// when there is none).
pub fn is_real_path(path: &str) -> (r: bool)
    ensures
        r == (path@.len() > 0 && path@ != "/"@),
{
    path.unicode_len() > 0 && !text_eq(path, "/")
}

/// Whether `candidate` names an object underneath `parent`.
pub open spec fn descendant_spec(candidate: Seq<char>, parent: Seq<char>) -> bool {
    parent.len() < candidate.len() && candidate.subrange(0, parent.len() as int) == parent
        && candidate[parent.len() as int] == '/'
}

/// Whether `candidate` is an object underneath `parent` (a network object
/// belonging to our device).
pub fn is_descendant(candidate: &str, parent: &str) -> (r: bool)
    ensures
        r == descendant_spec(candidate@, parent@),
{
    let n = parent.unicode_len();
    let m = candidate.unicode_len();
    if n >= m {
        return false;
    }
    let mut i: usize = 0;
    while i < n
        invariant
            n == parent@.len(),
            m == candidate@.len(),
            n < m,
            i <= n,
            forall|j: int| 0 <= j < i ==> candidate@[j] == parent@[j],
        decreases n - i,
    {
        if candidate.get_char(i) != parent.get_char(i) {
            assert(candidate@.subrange(0, n as int)[i as int] != parent@[i as int]);
            return false;
        }
        i = i + 1;
    }
    assert(candidate@.subrange(0, n as int) =~= parent@);
    candidate.get_char(n) == '/'
}

/// The SSID of the first network of `networks` at `path`.
pub open spec fn ssid_at_spec(networks: Seq<NetworkSnapshot>, path: Seq<char>) -> Option<Seq<char>>
    decreases networks.len(),
{
    if networks.len() == 0 {
        None
    } else if networks[0].object_path@ == path {
        Some(networks[0].ssid@)
    } else {
        ssid_at_spec(networks.drop_first(), path)
    }
}

/// SSID of a network in the scan list, by object path.
pub fn network_ssid(networks: &Vec<NetworkSnapshot>, path: &str) -> (r: Option<String>)
    ensures
        string_opt_view(r) == ssid_at_spec(networks@, path@),
{
    let mut i: usize = 0;
    assert(networks@.skip(0) =~= networks@);
    while i < networks.len()
        invariant
            i <= networks.len(),
            ssid_at_spec(networks@, path@) == ssid_at_spec(networks@.skip(i as int), path@),
        decreases networks.len() - i,
    {
        assert(networks@.skip(i as int).drop_first() =~= networks@.skip(i + 1));
        assert(networks@.skip(i as int)[0] == networks@[i as int]);
        if text_eq(networks[i].object_path.as_str(), path) {
            return Some(networks[i].ssid.clone());
        }
        i = i + 1;
    }
    None
}

/// What reading one network's `Network` object gave.
#[derive(Debug)]
pub struct NetworkDetails {
    /// `Network.Name`, the SSID.
    pub name: String,
    /// `Network.Type` (`open`, `psk`, `8021x`, `wep`).
    pub network_type: String,
    /// Whether `Network.KnownNetwork` names a saved profile.
    pub known: bool,
}

/// One entry of `Station.GetOrderedNetworks` (the network's object path and
/// its signal as `100 * dBm`), with what reading its `Network` object gave
/// (`None` when that lookup failed).
#[derive(Debug)]
pub struct OrderedNetwork {
    pub object_path: String,
    pub signal: i16,
    pub details: Option<NetworkDetails>,
}

/// The list snapshot of a network of the ordered list whose lookup gave
/// `details`: its strength is the bucket of the plain-dBm signal.
pub open spec fn snapshot_spec(object_path: String, signal: i16, details: NetworkDetails) -> NetworkSnapshot {
    NetworkSnapshot {
        ssid: details.name,
        strength: dbm_bucket(div_toward_zero(signal as int, 100)),
        security: iwd_type_model(details.network_type@),
        object_path,
        known: details.known,
    }
}

/// The network list built from IWD's ordered networks: one snapshot per
/// entry whose lookup succeeded, in IWD's (strongest-first) order.
pub open spec fn ordered_snapshots_spec(ordered: Seq<OrderedNetwork>) -> Seq<NetworkSnapshot>
    decreases ordered.len(),
{
    if ordered.len() == 0 {
        Seq::empty()
    } else {
        let rest = ordered_snapshots_spec(ordered.drop_last());
        let e = ordered.last();
        match e.details {
            Some(d) => rest.push(snapshot_spec(e.object_path, e.signal, d)),
            None => rest,
        }
    }
}

/// Builds the network list from IWD's ordered networks.
pub fn ordered_snapshots(ordered: &Vec<OrderedNetwork>) -> (r: Vec<NetworkSnapshot>)
    ensures
        r@ == ordered_snapshots_spec(ordered@),
{
    let mut out: Vec<NetworkSnapshot> = Vec::new();
    let mut i: usize = 0;
    assert(ordered@.take(0) =~= Seq::<OrderedNetwork>::empty());
    while i < ordered.len()
        invariant
            i <= ordered@.len(),
            out@ == ordered_snapshots_spec(ordered@.take(i as int)),
        decreases ordered@.len() - i,
    {
        let ghost prefix = ordered@.take(i + 1);
        assert(prefix.drop_last() =~= ordered@.take(i as int));
        assert(prefix.last() == ordered@[i as int]);
        let entry = &ordered[i];
        match &entry.details {
            Some(d) => {
                out.push(
                    NetworkSnapshot {
                        ssid: d.name.clone(),
                        strength: signal_to_percent(entry.signal),
                        security: SecurityType::from_iwd_type(d.network_type.as_str()),
                        object_path: entry.object_path.clone(),
                        known: d.known,
                    },
                );
            },
            None => {},
        }
        i = i + 1;
    }
    assert(ordered@.take(ordered@.len() as int) =~= ordered@);
    out
}

/// The network list is read off IWD's ordered networks entry by entry: the
/// result returned here picks, for each listed snapshot, the ordered entry
/// it comes from. Those entries strictly increase (IWD's order is kept),
/// each has details, every entry with details is picked, and each snapshot
/// carries that entry's name, path, saved state, security type and signal
/// bucket.
pub proof fn lemma_ordered_snapshots_faithful(ordered: Seq<OrderedNetwork>) -> (source: Seq<int>)
    ensures
        source.len() == ordered_snapshots_spec(ordered).len(),
        forall|k: int|
            #![trigger source[k]]
            0 <= k < source.len() ==> {
                let m = source[k];
                let n = ordered_snapshots_spec(ordered)[k];
                &&& 0 <= m < ordered.len()
                &&& ordered[m].details matches Some(d) && n.ssid == d.name && n.known == d.known
                    && n.security == iwd_type_model(d.network_type@)
                &&& n.object_path == ordered[m].object_path
                &&& n.strength == dbm_bucket(div_toward_zero(ordered[m].signal as int, 100))
            },
        forall|k1: int, k2: int| 0 <= k1 < k2 < source.len() ==> source[k1] < source[k2],
        forall|m: int|
            0 <= m < ordered.len() && (#[trigger] ordered[m]).details is Some ==> exists|k: int|
                0 <= k < source.len() && source[k] == m,
    decreases ordered.len(),
{
    if ordered.len() == 0 {
        Seq::empty()
    } else {
        let init = ordered.drop_last();
        let prev = lemma_ordered_snapshots_faithful(init);
        let rest = ordered_snapshots_spec(init);
        let last = (ordered.len() - 1) as int;
        assert forall|k: int| 0 <= k < prev.len() implies prev[k] < last && ordered[prev[k]] == init[prev[k]] by {}
        let source = if ordered[last].details is Some {
            prev.push(last)
        } else {
            prev
        };
        assert forall|k: int| 0 <= k < prev.len() implies source[k] == prev[k]
            && ordered_snapshots_spec(ordered)[k] == rest[k] by {}
        assert forall|m: int| 0 <= m < ordered.len() && (#[trigger] ordered[m]).details is Some implies exists|k: int|
            0 <= k < source.len() && source[k] == m by {
            if m < last {
                assert(init[m] == ordered[m]);
                let k = choose|k: int| 0 <= k < prev.len() && prev[k] == m;
                assert(source[k] == m);
            } else {
                assert(source[prev.len() as int] == m);
            }
        }
        source
    }
}

/// What the monitor does after handling a signal.
#[derive(Debug, Clone, Copy, PartialEq, Eq, Structural)]
pub struct MonitorActions {
    /// Read `StationDiagnostic` (RSSI, frequency) and apply it.
    pub update_diagnostics: bool,
    /// Re-fetch the ordered network list.
    pub refresh_networks: bool,
    /// Re-read the `Station` interface after power-on, re-register the signal
    /// agent, refresh the list and kick a scan.
    pub resync: bool,
}


/// The reactive state of a station.
#[derive(Debug)]
pub struct StationState {
    /// Whether the device is powered on (the WiFi toggle).
    pub powered: bool,
    /// Attempt-aware connection state.
    pub connection: ConnectionState,
    /// Whether a scan is in progress.
    pub scanning: bool,
    /// Strength bucket (0-100) of the connected link.
    pub strength: Option<u8>,
    /// Frequency of the connected link in MHz.
    pub frequency: Option<u32>,
    /// Visible networks, ordered strongest-first.
    pub networks: Vec<NetworkSnapshot>,
    /// Foreground connect attempts in progress; while non-zero the monitor
    /// leaves `connection` to them.
    pub pending_connects: usize,
    /// Passphrases staged by connect attempts, read back by IWD's agent.
    pub passphrases: PassphraseStore,
}

/// Mathematical model of a [`StationState`].
pub struct StationModel {
    pub powered: bool,
    pub connection: ConnectionModel,
    pub scanning: bool,
    pub strength: Option<u8>,
    pub frequency: Option<u32>,
    pub networks: Seq<NetworkSnapshot>,
    pub pending_connects: nat,
    pub passphrases: Map<Seq<char>, Seq<char>>,
}

impl View for StationState {
    type V = StationModel;

    open spec fn view(&self) -> StationModel {
        StationModel {
            powered: self.powered,
            connection: self.connection@,
            scanning: self.scanning,
            strength: self.strength,
            frequency: self.frequency,
            networks: self.networks@,
            pending_connects: self.pending_connects as nat,
            passphrases: self.passphrases@,
        }
    }
}

/// The station after the monitor observes a raw state: unchanged while a
/// foreground connect is in flight.
pub open spec fn observe_spec(s: StationModel, state: Seq<char>, ssid: Option<Seq<char>>) -> StationModel {
    if s.pending_connects > 0 {
        s
    } else {
        StationModel { connection: raw_state_model(state, ssid), ..s }
    }
}

/// The station with the live state published, whoever owns `connection`.
pub open spec fn reconcile_spec(s: StationModel, state: Seq<char>, ssid: Option<Seq<char>>) -> StationModel {
    StationModel { connection: raw_state_model(state, ssid), ..s }
}

/// The station once a foreground connect to `path` starts: it owns
/// `connection`, stages the passphrase it was given, and publishes its target
/// when the scan list names it.
pub open spec fn begin_connect_spec(s: StationModel, path: Seq<char>, passphrase: Option<Seq<char>>) -> StationModel {
    StationModel {
        pending_connects: s.pending_connects + 1,
        passphrases: match passphrase {
            Some(p) => s.passphrases.insert(path, p),
            None => s.passphrases,
        },
        connection: match ssid_at_spec(s.networks, path) {
            Some(ssid) => ConnectionModel::Connecting(ssid),
            None => s.connection,
        },
        ..s
    }
}

/// The station once the proxy of the target exists: its name is published
/// if the target was not yet shown as connecting.
pub open spec fn publish_target_spec(s: StationModel, name: Option<Seq<char>>) -> StationModel {
    if !(s.connection is Connecting) && name is Some {
        StationModel { connection: ConnectionModel::Connecting(name->0), ..s }
    } else {
        s
    }
}

/// The station once a foreground connect to `path` ends (whether it
/// succeeded, failed, or never got a proxy): the passphrase staged for `path`
/// is discarded, the live outcome is published and the attempt's ownership
/// released.
pub open spec fn end_connect_spec(s: StationModel, path: Seq<char>, state: Seq<char>, ssid: Option<Seq<char>>) -> StationModel {
    StationModel {
        pending_connects: (s.pending_connects - 1) as nat,
        passphrases: s.passphrases.remove(path),
        connection: raw_state_model(state, ssid),
        ..s
    }
}

/// The station after `Device.Powered` reports `powered`: an unchanged value
/// changes nothing, power-off clears the link state.
pub open spec fn powered_spec(s: StationModel, powered: bool) -> StationModel {
    if powered == s.powered || powered {
        StationModel { powered, ..s }
    } else {
        StationModel {
            powered: false,
            connection: ConnectionModel::Idle,
            scanning: false,
            strength: None,
            frequency: None,
            networks: Seq::empty(),
            ..s
        }
    }
}

/// The station after `Station.State` changes: observed like any raw state;
/// a state other than `connected` drops the link's strength and frequency.
pub open spec fn state_changed_spec(s: StationModel, state: Seq<char>, ssid: Option<Seq<char>>) -> StationModel {
    let o = observe_spec(s, state, ssid);
    if state == "connected"@ {
        o
    } else {
        StationModel { strength: None, frequency: None, ..o }
    }
}

/// Whether the connection is up.
pub open spec fn is_connected(c: ConnectionModel) -> bool {
    c is Connected
}

impl StationState {
    /// The state read when a station is built: the connection derived from
    /// the raw state (an unpowered device reads as empty), nothing pending,
    /// sharing the service's passphrase store.
    pub fn from_device(
        powered: bool,
        state: &str,
        scanning: bool,
        connected_ssid: Option<String>,
        passphrases: PassphraseStore,
    ) -> (r: Self)
        ensures
            r@ == (StationModel {
                powered,
                connection: raw_state_model(state@, string_opt_view(connected_ssid)),
                scanning,
                strength: None,
                frequency: None,
                networks: Seq::empty(),
                pending_connects: 0,
                passphrases: passphrases@,
            }),
    {
        StationState {
            powered,
            connection: ConnectionState::from_raw_state(state, connected_ssid),
            scanning,
            strength: None,
            frequency: None,
            networks: Vec::new(),
            pending_connects: 0,
            passphrases,
        }
    }

    /// The passphrase staged for the network at `network_path` (what IWD's
    /// agent answers `RequestPassphrase` with).
    pub fn passphrase_for(&self, network_path: &str) -> (r: Option<String>)
        ensures
            string_opt_view(r) == (if self@.passphrases.contains_key(network_path@) {
                Some(self@.passphrases[network_path@])
            } else {
                None
            }),
    {
        self.passphrases.get(network_path)
    }

    /// Whether a foreground connect currently owns `connection`.
    pub fn connecting_in_flight(&self) -> (r: bool)
        ensures
            r == (self.pending_connects > 0),
    {
        self.pending_connects > 0
    }

    /// Publishes `connection` from an observed raw `Station.State` and
    /// resolved SSID; a no-op while a foreground connect is in flight.
    pub fn observe_connection(&mut self, state: &str, connected_ssid: Option<String>)
        ensures
            final(self)@ == observe_spec(old(self)@, state@, string_opt_view(connected_ssid)),
    {
        if self.connecting_in_flight() {
            return;
        }
        self.connection = ConnectionState::from_raw_state(state, connected_ssid);
    }

    /// Publishes the live state (after power-on, or as the owner of a
    /// finishing connect), bypassing the in-flight guard.
    pub fn reconcile_connection(&mut self, state: &str, connected_ssid: Option<String>)
        ensures
            final(self)@ == reconcile_spec(old(self)@, state@, string_opt_view(connected_ssid)),
    {
        self.connection = ConnectionState::from_raw_state(state, connected_ssid);
    }

    /// Starts a foreground connect to the network at `network_path`: the
    /// attempt takes ownership of `connection`, stages `passphrase` (for a
    /// secured network) for IWD's agent, and publishes its target from the
    /// scan list right away.
    pub fn begin_connect(&mut self, network_path: &str, passphrase: Option<String>)
        requires
            old(self).pending_connects < usize::MAX,
        ensures
            final(self)@ == begin_connect_spec(old(self)@, network_path@, string_opt_view(passphrase)),
    {
        self.pending_connects = self.pending_connects + 1;
        if let Some(p) = passphrase {
            self.passphrases.insert(String::from_str(network_path), p);
        }
        if let Some(ssid) = network_ssid(&self.networks, network_path) {
            self.connection = ConnectionState::Connecting { ssid };
        }
    }

    /// Once the network proxy exists: if the target is not yet published as
    /// connecting, publish the proxy's name (when it could be read).
    pub fn publish_target_name(&mut self, name: Option<String>)
        ensures
            final(self)@ == publish_target_spec(old(self)@, string_opt_view(name)),
    {
        let connecting = match &self.connection {
            ConnectionState::Connecting { .. } => true,
            _ => false,
        };
        if !connecting {
            if let Some(n) = name {
                self.connection = ConnectionState::Connecting { ssid: n };
            }
        }
    }

    /// Ends a foreground connect to `network_path` on any path out of it:
    /// discards the staged passphrase, publishes the live outcome and releases
    /// the attempt's ownership of `connection`.
    pub fn end_connect(&mut self, network_path: &str, state: &str, connected_ssid: Option<String>)
        requires
            old(self).pending_connects > 0,
        ensures
            final(self)@ == end_connect_spec(
                old(self)@,
                network_path@,
                state@,
                string_opt_view(connected_ssid),
            ),
    {
        self.passphrases.discard(network_path);
        self.reconcile_connection(state, connected_ssid);
        self.pending_connects = self.pending_connects - 1;
    }

    /// Whether a network refresh should query IWD; when the device is powered
    /// off the `Station` interface is absent and the list is simply cleared.
    pub fn begin_refresh(&mut self) -> (r: bool)
        ensures
            r == old(self).powered,
            r ==> final(self)@ == old(self)@,
            !r ==> final(self)@ == (StationModel { networks: Seq::empty(), ..old(self)@ }),
    {
        if !self.powered {
            self.networks = Vec::new();
            return false;
        }
        true
    }

    /// Publishes the outcome of a network refresh on a powered device: `None`
    /// (the `Station` proxy or `GetOrderedNetworks` failed) leaves the list as
    /// it was; otherwise the list becomes one snapshot per ordered network
    /// whose lookup succeeded, in IWD's order.
    pub fn finish_refresh(&mut self, ordered: Option<Vec<OrderedNetwork>>)
        ensures
            match ordered {
                Some(o) => final(self)@ == (StationModel {
                    networks: ordered_snapshots_spec(o@),
                    ..old(self)@
                }),
                None => final(self)@ == old(self)@,
            },
    {
        if let Some(o) = ordered {
            self.networks = ordered_snapshots(&o);
        }
    }

    /// Publishes a freshly fetched network list.
    pub fn set_networks(&mut self, networks: Vec<NetworkSnapshot>)
        ensures
            final(self)@ == (StationModel { networks: networks@, ..old(self)@ }),
    {
        self.networks = networks;
    }

    /// Applies diagnostics: the link's RSSI (plain dBm) becomes the strength
    /// bucket and its frequency is published; absent values leave the fields.
    pub fn apply_diagnostics(&mut self, rssi_dbm: Option<i16>, frequency: Option<u32>)
        ensures
            final(self)@ == (StationModel {
                strength: match rssi_dbm {
                    Some(v) => Some(dbm_bucket(v as int)),
                    None => old(self).strength,
                },
                frequency: match frequency {
                    Some(f) => Some(f),
                    None => old(self).frequency,
                },
                ..old(self)@
            }),
    {
        if let Some(rssi) = rssi_dbm {
            self.strength = Some(dbm_to_percent(rssi as i32));
        }
        if let Some(f) = frequency {
            self.frequency = Some(f);
        }
    }

    /// Diagnostics poll tick: only a connected link is polled.
    pub fn on_poll_tick(&self) -> (r: MonitorActions)
        ensures
            r == (MonitorActions {
                update_diagnostics: is_connected(self.connection@),
                refresh_networks: false,
                resync: false,
            }),
    {
        let connected = match &self.connection {
            ConnectionState::Connected { .. } => true,
            _ => false,
        };
        MonitorActions { update_diagnostics: connected, refresh_networks: false, resync: false }
    }

    /// `Device.Powered` changed. An unchanged value (the initial emission) does
    /// nothing; off to on asks for a resync of the reappearing `Station`
    /// interface; on to off clears the whole link state.
    pub fn on_powered_changed(&mut self, powered: bool) -> (r: MonitorActions)
        ensures
            final(self)@ == powered_spec(old(self)@, powered),
            r == (MonitorActions {
                update_diagnostics: false,
                refresh_networks: false,
                resync: powered && !old(self).powered,
            }),
    {
        let was_powered = self.powered;
        self.powered = powered;
        if powered == was_powered {
            MonitorActions { update_diagnostics: false, refresh_networks: false, resync: false }
        } else if powered {
            MonitorActions { update_diagnostics: false, refresh_networks: false, resync: true }
        } else {
            self.connection = ConnectionState::Idle;
            self.scanning = false;
            self.strength = None;
            self.frequency = None;
            self.networks = Vec::new();
            MonitorActions { update_diagnostics: false, refresh_networks: false, resync: false }
        }
    }

    /// After power-on: publishes the re-read `Station` state directly (no
    /// foreground attempt can be in flight right after power-on).
    pub fn resync(&mut self, state: &str, scanning: bool, connected_ssid: Option<String>)
        ensures
            final(self)@ == (StationModel {
                scanning,
                ..reconcile_spec(old(self)@, state@, string_opt_view(connected_ssid))
            }),
    {
        self.scanning = scanning;
        self.reconcile_connection(state, connected_ssid);
    }

    /// `Station.State` changed: observe the connection; a connected link reads
    /// its diagnostics at once, any other state clears them; the list is
    /// refreshed.
    pub fn on_state_changed(&mut self, state: &str, connected_ssid: Option<String>) -> (r: MonitorActions)
        ensures
            final(self)@ == state_changed_spec(old(self)@, state@, string_opt_view(connected_ssid)),
            r == (MonitorActions {
                update_diagnostics: state@ == "connected"@,
                refresh_networks: true,
                resync: false,
            }),
    {
        let connected = text_eq(state, "connected");
        self.observe_connection(state, connected_ssid);
        if !connected {
            self.strength = None;
            self.frequency = None;
        }
        MonitorActions { update_diagnostics: connected, refresh_networks: true, resync: false }
    }

    /// `Station.Scanning` changed; a finished scan means fresh results.
    pub fn on_scanning_changed(&mut self, scanning: bool) -> (r: MonitorActions)
        ensures
            final(self)@ == (StationModel { scanning, ..old(self)@ }),
            r == (MonitorActions {
                update_diagnostics: false,
                refresh_networks: !scanning,
                resync: false,
            }),
    {
        self.scanning = scanning;
        MonitorActions { update_diagnostics: false, refresh_networks: !scanning, resync: false }
    }

    /// `Station.ConnectedNetwork` changed (with the freshly read `State`):
    /// observe the connection and refresh the list.
    pub fn on_connected_network_changed(&mut self, state: &str, connected_ssid: Option<String>) -> (r:
        MonitorActions)
        ensures
            final(self)@ == observe_spec(old(self)@, state@, string_opt_view(connected_ssid)),
            r == (MonitorActions { update_diagnostics: false, refresh_networks: true, resync: false }),
    {
        self.observe_connection(state, connected_ssid);
        MonitorActions { update_diagnostics: false, refresh_networks: true, resync: false }
    }

    /// An ObjectManager `InterfacesAdded`/`InterfacesRemoved` signal: refresh
    /// when powered and a network object of this device came or went.
    pub fn on_interfaces_changed(&self, touches_network: bool, object_path: &str, station_path: &str) -> (r:
        MonitorActions)
        ensures
            r == (MonitorActions {
                update_diagnostics: false,
                refresh_networks: self.powered && touches_network && descendant_spec(
                    object_path@,
                    station_path@,
                ),
                resync: false,
            }),
    {
        let refresh = self.powered && touches_network && is_descendant(object_path, station_path);
        MonitorActions { update_diagnostics: false, refresh_networks: refresh, resync: false }
    }
}

/// A foreground connect owns `connection`: once it has published its target,
/// observations from the monitor (of any raw state) leave it alone, and when
/// the attempt ends the live outcome is published and the guard count is back
/// where it was. The passphrase it was given is staged for the target while
/// it runs, and once it ends nothing is staged for the target and every other
/// staging is as before.
pub proof fn lemma_attempt_owns_connection(
    s: StationModel,
    path: Seq<char>,
    passphrase: Option<Seq<char>>,
    observed: Seq<char>,
    observed_ssid: Option<Seq<char>>,
    live: Seq<char>,
    live_ssid: Option<Seq<char>>,
)
    ensures
        ({
            let started = begin_connect_spec(s, path, passphrase);
            let observed_during = observe_spec(started, observed, observed_ssid);
            let ended = end_connect_spec(observed_during, path, live, live_ssid);
            &&& observed_during.connection == started.connection
            &&& ssid_at_spec(s.networks, path) matches Some(t) ==> observed_during.connection
                == ConnectionModel::Connecting(t)
            &&& ended.connection == raw_state_model(live, live_ssid)
            &&& ended.pending_connects == s.pending_connects
            &&& passphrase matches Some(p) ==> observed_during.passphrases.contains_key(path)
                && observed_during.passphrases[path] == p
            &&& !ended.passphrases.contains_key(path)
            &&& ended.passphrases == s.passphrases.remove(path)
        }),
{
    if let Some(p) = passphrase {
        assert(s.passphrases.insert(path, p).remove(path) =~= s.passphrases.remove(path));
    }
}

/// Without a foreground connect, the monitor publishes what IWD reports.
pub proof fn lemma_idle_monitor_publishes(s: StationModel, state: Seq<char>, ssid: Option<Seq<char>>)
    requires
        s.pending_connects == 0,
    ensures
        observe_spec(s, state, ssid).connection == raw_state_model(state, ssid),
{
}

/// Powering the device off clears the link state (idle, not scanning, no
/// strength, frequency or networks) and leaves it so until it powers on again.
pub proof fn lemma_power_off_clears(s: StationModel)
    requires
        s.powered,
    ensures
        ({
            let off = powered_spec(s, false);
            &&& !off.powered
            &&& off.connection is Idle
            &&& !off.scanning
            &&& off.strength is None
            &&& off.frequency is None
            &&& off.networks.len() == 0
            &&& powered_spec(off, false) == off
        }),
{
}

} // verus!
