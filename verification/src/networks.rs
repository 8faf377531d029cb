//! The WiFi network list shown in the IWD dropdown: password requirements,
//! deduplication of scan results and channel bands.

use vstd::prelude::*;

use crate::iwd_types::SecurityType;
use crate::text::{str_opt_view, text_eq};

verus! {

/// Snapshot of an IWD network for display in the network list.
#[derive(Debug)]
pub struct NetworkSnapshot {
    pub ssid: String,
    /// 0-100 signal strength bucket.
    pub strength: u8,
    pub security: SecurityType,
    /// D-Bus object path of the network.
    pub object_path: String,
    /// Whether IWD holds saved credentials for the network.
    pub known: bool,
}

impl NetworkSnapshot {
    /// A copy of this snapshot.
    pub fn duplicate(&self) -> (r: Self)
        ensures
            r == *self,
    {
        NetworkSnapshot {
            ssid: self.ssid.clone(),
            strength: self.strength,
            security: self.security,
            object_path: self.object_path.clone(),
            known: self.known,
        }
    }
}

/// Whether connecting to a network of this security type asks for a password.
pub open spec fn needs_password(security: SecurityType) -> bool {
    !(security == SecurityType::Open || security == SecurityType::Enterprise)
}

/// Whether connecting needs a passphrase: every type but open and enterprise.
pub fn requires_password(security: SecurityType) -> (r: bool)
    ensures
        r == needs_password(security),
{
    match security {
        SecurityType::Open => false,
        SecurityType::Enterprise => false,
        _ => true,
    }
}

/// Whether `ssid` is taken by some snapshot of `s`.
pub open spec fn has_ssid(s: Seq<NetworkSnapshot>, ssid: Seq<char>) -> bool {
    exists|k: int| 0 <= k < s.len() && (#[trigger] s[k]).ssid@ == ssid
}

/// Whether a network with this SSID is shown at all: hidden networks (empty
/// SSID) and the active SSID are not.
pub open spec fn listable(ssid: Seq<char>, active: Option<Seq<char>>) -> bool {
    ssid.len() > 0 && active != Some(ssid)
}

/// The network list: the first (strongest) listable network of each SSID, in
/// input order.
pub open spec fn unique_spec(s: Seq<NetworkSnapshot>, active: Option<Seq<char>>) -> Seq<NetworkSnapshot>
    decreases s.len(),
{
    if s.len() == 0 {
        Seq::empty()
    } else {
        let prev = unique_spec(s.drop_last(), active);
        let n = s.last();
        if listable(n.ssid@, active) && !has_ssid(prev, n.ssid@) {
            prev.push(n)
        } else {
            prev
        }
    }
}

fn contains_ssid(list: &Vec<NetworkSnapshot>, ssid: &str) -> (r: bool)
    ensures
        r == has_ssid(list@, ssid@),
{
    let mut i: usize = 0;
    while i < list.len()
        invariant
            i <= list.len(),
            forall|k: int| 0 <= k < i ==> (#[trigger] list@[k]).ssid@ != ssid@,
        decreases list.len() - i,
    {
        if text_eq(list[i].ssid.as_str(), ssid) {
            return true;
        }
        i = i + 1;
    }
    false
}

/// Deduplicates networks by SSID and drops hidden networks and the active SSID.
/// The input is ordered strongest-first; that order is kept and the first
/// occurrence of each SSID wins.
pub fn unique_networks(networks: &Vec<NetworkSnapshot>, active_ssid: Option<&str>) -> (r: Vec<NetworkSnapshot>)
    ensures
        r@ == unique_spec(networks@, str_opt_view(active_ssid)),
{
    let ghost active = str_opt_view(active_ssid);
    let mut out: Vec<NetworkSnapshot> = Vec::new();
    let mut i: usize = 0;
    while i < networks.len()
        invariant
            i <= networks.len(),
            active == str_opt_view(active_ssid),
            out@ == unique_spec(networks@.take(i as int), active),
        decreases networks.len() - i,
    {
        let network = &networks[i];
        proof {
            assert(networks@.take(i + 1).drop_last() =~= networks@.take(i as int));
            assert(networks@.take(i + 1).last() == networks@[i as int]);
        }
        let ssid = network.ssid.as_str();
        let hidden = ssid.unicode_len() == 0;
        let is_active = match active_ssid {
            Some(a) => text_eq(a, ssid),
            None => false,
        };
        if !hidden && !is_active && !contains_ssid(&out, ssid) {
            out.push(network.duplicate());
        }
        i = i + 1;
    }
    proof {
        assert(networks@.take(networks@.len() as int) =~= networks@);
    }
    out
}

/// Every network of the list is listable and no two share an SSID.
pub proof fn lemma_unique_networks_distinct(s: Seq<NetworkSnapshot>, active: Option<Seq<char>>)
    ensures
        forall|k: int|
            0 <= k < unique_spec(s, active).len() ==> listable(
                (#[trigger] unique_spec(s, active)[k]).ssid@,
                active,
            ),
        forall|a: int, b: int|
            0 <= a < b < unique_spec(s, active).len() ==> (#[trigger] unique_spec(s, active)[a]).ssid@
                != (#[trigger] unique_spec(s, active)[b]).ssid@,
    decreases s.len(),
{
    if s.len() > 0 {
        lemma_unique_networks_distinct(s.drop_last(), active);
        let prev = unique_spec(s.drop_last(), active);
        let n = s.last();
        if listable(n.ssid@, active) && !has_ssid(prev, n.ssid@) {
            let r = prev.push(n);
            assert forall|a: int, b: int| 0 <= a < b < r.len() implies (#[trigger] r[a]).ssid@
                != (#[trigger] r[b]).ssid@ by {
                if b == r.len() - 1 {
                    assert(r[a] == prev[a]);
                    if r[a].ssid@ == n.ssid@ {
                        assert(has_ssid(prev, n.ssid@));
                    }
                } else {
                    assert(r[a] == prev[a]);
                    assert(r[b] == prev[b]);
                }
            }
            assert forall|k: int| 0 <= k < r.len() implies listable((#[trigger] r[k]).ssid@, active) by {
                if k < prev.len() {
                    assert(r[k] == prev[k]);
                }
            }
        }
    }
}

/// Every listable SSID of the scan results appears in the list, carried by the
/// first network of that SSID.
pub proof fn lemma_unique_networks_complete(s: Seq<NetworkSnapshot>, active: Option<Seq<char>>, i: int)
    requires
        0 <= i < s.len(),
        listable(s[i].ssid@, active),
    ensures
        has_ssid(unique_spec(s, active), s[i].ssid@),
    decreases s.len(),
{
    let prev = unique_spec(s.drop_last(), active);
    let n = s.last();
    if i < s.len() - 1 {
        assert(s.drop_last()[i] == s[i]);
        lemma_unique_networks_complete(s.drop_last(), active, i);
        let k = choose|k: int| 0 <= k < prev.len() && (#[trigger] prev[k]).ssid@ == s[i].ssid@;
        if listable(n.ssid@, active) && !has_ssid(prev, n.ssid@) {
            assert(prev.push(n)[k] == prev[k]);
        }
    } else {
        if !has_ssid(prev, n.ssid@) {
            assert(prev.push(n)[prev.len() as int] == n);
        }
    }
}

/// The band label of a WiFi channel frequency in MHz.
pub open spec fn band_spec(freq_mhz: u32) -> Option<Seq<char>> {
    if 2400 <= freq_mhz <= 2500 {
        Some("2.4 GHz"@)
    } else if 5000 <= freq_mhz <= 5900 {
        Some("5 GHz"@)
    } else if 5901 <= freq_mhz <= 7125 {
        Some("6 GHz"@)
    } else if 57000 <= freq_mhz <= 71000 {
        Some("60 GHz"@)
    } else {
        None
    }
}

/// Maps a WiFi channel frequency (MHz) to its band label.
pub fn frequency_to_band(freq_mhz: u32) -> (r: Option<&'static str>)
    ensures
        str_opt_view(r) == band_spec(freq_mhz),
{
    if 2400 <= freq_mhz && freq_mhz <= 2500 {
        Some("2.4 GHz")
    } else if 5000 <= freq_mhz && freq_mhz <= 5900 {
        Some("5 GHz")
    } else if 5901 <= freq_mhz && freq_mhz <= 7125 {
        Some("6 GHz")
    } else if 57000 <= freq_mhz && freq_mhz <= 71000 {
        Some("60 GHz")
    } else {
        None
    }
}

/// The object path of the first listed network called `ssid` (the one an
/// active connection refers to when it is forgotten).
pub open spec fn path_of_ssid_spec(networks: Seq<NetworkSnapshot>, ssid: Seq<char>) -> Option<Seq<char>>
    decreases networks.len(),
{
    if networks.len() == 0 {
        None
    } else if networks[0].ssid@ == ssid {
        Some(networks[0].object_path@)
    } else {
        path_of_ssid_spec(networks.drop_first(), ssid)
    }
}

/// The object path of the first network in `networks` called `ssid`.
pub fn path_of_ssid(networks: &Vec<NetworkSnapshot>, ssid: &str) -> (r: Option<String>)
    ensures
        crate::text::string_opt_view(r) == path_of_ssid_spec(networks@, ssid@),
{
    let mut i: usize = 0;
    assert(networks@.skip(0) =~= networks@);
    while i < networks.len()
        invariant
            i <= networks.len(),
            path_of_ssid_spec(networks@, ssid@) == path_of_ssid_spec(networks@.skip(i as int), ssid@),
        decreases networks.len() - i,
    {
        assert(networks@.skip(i as int).drop_first() =~= networks@.skip(i + 1));
        assert(networks@.skip(i as int)[0] == networks@[i as int]);
        if text_eq(networks[i].ssid.as_str(), ssid) {
            return Some(networks[i].object_path.clone());
        }
        i = i + 1;
    }
    None
}

/// The message id naming a security type.
pub open spec fn security_message_spec(security: SecurityType) -> Seq<char> {
    match security {
        SecurityType::Open => "dropdown-iwd-security-open"@,
        SecurityType::Wep => "dropdown-iwd-security-wep"@,
        SecurityType::Psk => "dropdown-iwd-security-psk"@,
        SecurityType::Enterprise => "dropdown-iwd-security-enterprise"@,
    }
}

/// The translatable name of a security type.
pub fn security_message(security: SecurityType) -> (r: &'static str)
    ensures
        r@ == security_message_spec(security),
{
    match security {
        SecurityType::Open => "dropdown-iwd-security-open",
        SecurityType::Wep => "dropdown-iwd-security-wep",
        SecurityType::Psk => "dropdown-iwd-security-psk",
        SecurityType::Enterprise => "dropdown-iwd-security-enterprise",
    }
}

/// The security line of a network row: the security type's name, wrapped in
/// the "saved" message (`dropdown-iwd-security-saved`, argument `security`)
/// for a secured network with saved credentials.
#[derive(Debug, Clone, Copy, PartialEq, Eq)]
pub struct SecurityLabel {
    pub security: &'static str,
    pub saved: bool,
}

/// The security line of a network row.
pub fn security_label(security: SecurityType, known: bool) -> (r: SecurityLabel)
    ensures
        r.security@ == security_message_spec(security),
        r.saved == (known && needs_password(security)),
{
    SecurityLabel { security: security_message(security), saved: known && requires_password(security) }
}

/// One row of the network list.
#[derive(Debug)]
pub struct NetworkRow {
    pub ssid: String,
    /// The configured signal icon, resolved by the list.
    pub icon: String,
    pub security_label: SecurityLabel,
    pub object_path: String,
    pub is_secured: bool,
    pub known: bool,
    pub hovered: bool,
}

impl NetworkRow {
    /// The row of a snapshot.
    pub fn new(snapshot: NetworkSnapshot, icon: String) -> (r: Self)
        ensures
            r.ssid == snapshot.ssid,
            r.icon == icon,
            r.security_label.security@ == security_message_spec(snapshot.security),
            r.security_label.saved == (snapshot.known && needs_password(snapshot.security)),
            r.object_path == snapshot.object_path,
            r.is_secured == needs_password(snapshot.security),
            r.known == snapshot.known,
            !r.hovered,
    {
        NetworkRow {
            icon,
            is_secured: requires_password(snapshot.security),
            known: snapshot.known,
            hovered: false,
            security_label: security_label(snapshot.security, snapshot.known),
            ssid: snapshot.ssid,
            object_path: snapshot.object_path,
        }
    }

    /// Whether the row can be updated in place for `snapshot`: `known` is
    /// wired up at construction (it gates hover-to-forget), so a change there
    /// needs a fresh row.
    pub fn reusable_for(&self, snapshot: &NetworkSnapshot) -> (r: bool)
        ensures
            r == (self.known == snapshot.known),
    {
        self.known == snapshot.known
    }

    /// Updates the icon, security and path in place.
    pub fn refresh(&mut self, snapshot: &NetworkSnapshot, icon: String)
        ensures
            final(self).icon == icon,
            final(self).is_secured == needs_password(snapshot.security),
            final(self).security_label.security@ == security_message_spec(snapshot.security),
            final(self).security_label.saved == (snapshot.known && needs_password(snapshot.security)),
            final(self).object_path == snapshot.object_path,
            final(self).ssid == old(self).ssid,
            final(self).known == old(self).known,
            final(self).hovered == old(self).hovered,
    {
        self.icon = icon;
        self.is_secured = requires_password(snapshot.security);
        self.security_label = security_label(snapshot.security, snapshot.known);
        self.object_path = snapshot.object_path.clone();
    }

    /// Whether the trailing area (lock or forget button) is shown.
    pub fn trailing_visible(&self) -> (r: bool)
        ensures
            r == (self.is_secured || self.known),
    {
        self.is_secured || self.known
    }

    /// The trailing stack's child: the forget button while hovering a saved
    /// network, the lock otherwise.
    pub fn trailing_child(&self) -> (r: &'static str)
        ensures
            self.hovered && self.known ==> r@ == "actions"@,
            !(self.hovered && self.known) ==> r@ == "lock"@,
    {
        if self.hovered && self.known {
            "actions"
        } else {
            "lock"
        }
    }
}

} // verus!
