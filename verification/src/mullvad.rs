//! The Mullvad dropdown's current-connection card: relay flag, title,
//! subtitle, status and action of the tunnel.

use vstd::prelude::*;

use crate::bar::TunnelState;
use crate::text::{
    ascii_alpha, ascii_lower, str_opt_view, string_opt_view, to_ascii_lowercase, trim, trimmed, Text,
    TextModel,
};

verus! {

/// Fallback icon used when a country flag asset is not installed.
pub const FLAG_FALLBACK: &'static str = "ld-globe-symbolic";

/// The part of `s` before its first `-` (all of it when there is none).
pub open spec fn first_segment(s: Seq<char>) -> Seq<char>
    decreases s.len(),
{
    if s.len() == 0 {
        s
    } else if s[0] == '-' {
        Seq::empty()
    } else {
        seq![s[0]] + first_segment(s.drop_first())
    }
}

/// The ISO country code of a relay hostname: its first `-`-separated segment
/// when that is two ASCII letters, lower-cased.
pub open spec fn country_code_spec(hostname: Seq<char>) -> Option<Seq<char>> {
    let seg = first_segment(hostname);
    if seg.len() == 2 && ascii_alpha(seg[0]) && ascii_alpha(seg[1]) {
        Some(ascii_lower(seg))
    } else {
        None
    }
}

proof fn lemma_first_segment(s: Seq<char>, i: int)
    requires
        0 <= i <= s.len(),
        forall|j: int| 0 <= j < i ==> s[j] != '-',
        i == s.len() || s[i] == '-',
    ensures
        first_segment(s) == s.subrange(0, i),
    decreases s.len(),
{
    if s.len() > 0 && i > 0 {
        lemma_first_segment(s.drop_first(), i - 1);
        assert(seq![s[0]] + s.drop_first().subrange(0, i - 1) =~= s.subrange(0, i));
    } else {
        assert(s.subrange(0, i) =~= Seq::<char>::empty());
    }
}

/// Derives the ISO country code from a Mullvad relay hostname
/// (`"se-got-wg-101"` gives `"se"`).
pub fn country_code_from_hostname(hostname: &str) -> (r: Option<String>)
    ensures
        string_opt_view(r) == country_code_spec(hostname@),
{
    let n = hostname.unicode_len();
    let mut i: usize = 0;
    let mut found = false;
    while i < n && !found
        invariant
            n == hostname@.len(),
            i <= n,
            forall|j: int| 0 <= j < i ==> hostname@[j] != '-',
            found ==> i < n && hostname@[i as int] == '-',
        decreases n - i + (if found { 0int } else { 1int }),
    {
        if hostname.get_char(i) == '-' {
            found = true;
        } else {
            i = i + 1;
        }
    }
    proof {
        lemma_first_segment(hostname@, i as int);
    }
    if i != 2 {
        return None;
    }
    let a = hostname.get_char(0);
    let b = hostname.get_char(1);
    let alpha_a = ('a' <= a && a <= 'z') || ('A' <= a && a <= 'Z');
    let alpha_b = ('a' <= b && b <= 'z') || ('A' <= b && b <= 'Z');
    if !(alpha_a && alpha_b) {
        return None;
    }
    let code = hostname.substring_char(0, 2);
    Some(to_ascii_lowercase(code))
}

/// The flag icon tried for a country code: `cm-flag-{code}` of the trimmed,
/// lower-cased code, or `None` when the code is blank.
pub open spec fn flag_name_spec(code: Seq<char>) -> Option<Seq<char>> {
    let c = ascii_lower(trimmed(code));
    if c.len() == 0 {
        None
    } else {
        Some("cm-flag-"@ + c)
    }
}

/// The bundled flag icon name for an ISO country code (`"SE "` gives
/// `cm-flag-se`), or `None` for a blank code.
pub fn flag_icon_name(code: &str) -> (r: Option<String>)
    ensures
        string_opt_view(r) == flag_name_spec(code@),
{
    let lowered = to_ascii_lowercase(trim(code));
    if lowered.as_str().unicode_len() == 0 {
        return None;
    }
    let mut name = String::from_str("cm-flag-");
    name.append(lowered.as_str());
    Some(name)
}

/// The flag shown: the bundled icon when the icon theme has it, otherwise the
/// globe fallback (also for a blank code).
pub fn choose_flag_icon(candidate: Option<String>, available: bool) -> (r: String)
    ensures
        (candidate is Some && available) ==> r == candidate->0,
        !(candidate is Some && available) ==> r@ == FLAG_FALLBACK@,
{
    match candidate {
        Some(name) => if available {
            name
        } else {
            String::from_str(FLAG_FALLBACK)
        },
        None => String::from_str(FLAG_FALLBACK),
    }
}

/// The relay the tunnel is connected through.
#[derive(Debug)]
pub struct RelayNetwork {
    pub country: String,
    pub city: Option<String>,
    pub hostname: Option<String>,
}

/// The tunnel status shown on the card.
#[derive(Debug)]
pub struct TunnelStatus {
    pub state: TunnelState,
    pub network: Option<RelayNetwork>,
}

/// The card: tunnel status and whether the pointer hovers it.
#[derive(Debug)]
pub struct CurrentConnection {
    pub status: TunnelStatus,
    pub hovered: bool,
}

/// The title of the card.
pub open spec fn title_spec(status: TunnelStatus) -> TextModel {
    match status.network {
        Some(n) => match n.city {
            Some(c) => if c@.len() > 0 {
                TextModel::Literal(c@ + ", "@ + n.country@)
            } else {
                TextModel::Literal(n.country@)
            },
            None => TextModel::Literal(n.country@),
        },
        None => match status.state {
            TunnelState::Connecting => TextModel::Message("dropdown-mullvad-connecting"@),
            TunnelState::Disconnecting => TextModel::Message("dropdown-mullvad-disconnecting"@),
            TunnelState::Error => TextModel::Message("dropdown-mullvad-blocked"@),
            _ => TextModel::Message("dropdown-mullvad-not-connected"@),
        },
    }
}

/// The message of the tunnel's status.
pub open spec fn status_message(state: TunnelState) -> Seq<char> {
    match state {
        TunnelState::Connected => "dropdown-mullvad-connected"@,
        TunnelState::Connecting => "dropdown-mullvad-connecting"@,
        TunnelState::Disconnecting => "dropdown-mullvad-disconnecting"@,
        TunnelState::Disconnected => "dropdown-mullvad-disconnected"@,
        TunnelState::Error => "dropdown-mullvad-blocked"@,
    }
}

/// The colour modifier class of the flag square.
pub open spec fn icon_modifier(state: TunnelState) -> Seq<char> {
    match state {
        TunnelState::Connected => "mullvad-connected"@,
        TunnelState::Connecting => "mullvad-connecting"@,
        TunnelState::Disconnecting => "mullvad-connecting"@,
        TunnelState::Disconnected => "mullvad-disconnected"@,
        TunnelState::Error => "mullvad-blocked"@,
    }
}

pub open spec fn str_views(v: Seq<&'static str>) -> Seq<Seq<char>> {
    v.map_values(|s: &'static str| s@)
}

impl CurrentConnection {
    /// The country code whose flag the card shows: from the relay hostname,
    /// when there is one and it starts with a country code.
    pub fn flag_code(&self) -> (r: Option<String>)
        ensures
            string_opt_view(r) == (match self.status.network {
                Some(n) => match n.hostname {
                    Some(h) => country_code_spec(h@),
                    None => None,
                },
                None => None,
            }),
    {
        match &self.status.network {
            Some(n) => match &n.hostname {
                Some(h) => country_code_from_hostname(h.as_str()),
                None => None,
            },
            None => None,
        }
    }

    /// The title: `"{city}, {country}"` (the country alone without a city);
    /// with no relay yet, a message matching the transitional state.
    pub fn title(&self) -> (r: Text)
        ensures
            r@ == title_spec(self.status),
    {
        match &self.status.network {
            Some(n) => match &n.city {
                Some(c) => if c.as_str().unicode_len() > 0 {
                    let mut t = c.clone();
                    t.append(", ");
                    t.append(n.country.as_str());
                    Text::Literal(t)
                } else {
                    Text::Literal(n.country.clone())
                },
                None => Text::Literal(n.country.clone()),
            },
            None => match self.status.state {
                TunnelState::Connecting => Text::Message("dropdown-mullvad-connecting"),
                TunnelState::Disconnecting => Text::Message("dropdown-mullvad-disconnecting"),
                TunnelState::Error => Text::Message("dropdown-mullvad-blocked"),
                _ => Text::Message("dropdown-mullvad-not-connected"),
            },
        }
    }

    /// The subtitle: the relay hostname, or empty.
    pub fn subtitle(&self) -> (r: String)
        ensures
            r@ == (match self.status.network {
                Some(n) => match n.hostname {
                    Some(h) => h@,
                    None => Seq::empty(),
                },
                None => Seq::empty(),
            }),
    {
        match &self.status.network {
            Some(n) => match &n.hostname {
                Some(h) => h.clone(),
                None => String::new(),
            },
            None => String::new(),
        }
    }

    /// Whether the subtitle line is shown (it is non-empty).
    pub fn has_subtitle(&self) -> (r: bool)
        ensures
            r == (match self.status.network {
                Some(n) => match n.hostname {
                    Some(h) => h@.len() > 0,
                    None => false,
                },
                None => false,
            }),
    {
        self.subtitle().as_str().unicode_len() > 0
    }

    /// The status message of the tunnel.
    pub fn status_label(&self) -> (r: Text)
        ensures
            r@ == TextModel::Message(status_message(self.status.state)),
    {
        match self.status.state {
            TunnelState::Connected => Text::Message("dropdown-mullvad-connected"),
            TunnelState::Connecting => Text::Message("dropdown-mullvad-connecting"),
            TunnelState::Disconnecting => Text::Message("dropdown-mullvad-disconnecting"),
            TunnelState::Disconnected => Text::Message("dropdown-mullvad-disconnected"),
            TunnelState::Error => Text::Message("dropdown-mullvad-blocked"),
        }
    }

    /// The hover action: connect when disconnected, disconnect otherwise.
    pub fn action_label(&self) -> (r: Text)
        ensures
            self.status.state == TunnelState::Disconnected ==> r@ == TextModel::Message(
                "dropdown-mullvad-connect"@,
            ),
            self.status.state != TunnelState::Disconnected ==> r@ == TextModel::Message(
                "dropdown-mullvad-disconnect"@,
            ),
    {
        match self.status.state {
            TunnelState::Disconnected => Text::Message("dropdown-mullvad-connect"),
            _ => Text::Message("dropdown-mullvad-disconnect"),
        }
    }

    /// Classes of the flag square: the base class plus the status modifier
    /// that selects its colours.
    pub fn icon_classes(&self) -> (r: Vec<&'static str>)
        ensures
            str_views(r@) == seq!["network-connection-icon"@, icon_modifier(self.status.state)],
    {
        let modifier = match self.status.state {
            TunnelState::Connected => "mullvad-connected",
            TunnelState::Connecting => "mullvad-connecting",
            TunnelState::Disconnecting => "mullvad-connecting",
            TunnelState::Disconnected => "mullvad-disconnected",
            TunnelState::Error => "mullvad-blocked",
        };
        let mut v: Vec<&'static str> = Vec::new();
        v.push("network-connection-icon");
        v.push(modifier);
        assert(str_views(v@) =~= seq!["network-connection-icon"@, icon_modifier(self.status.state)]);
        v
    }

    /// Classes of the status label: marked as an error while blocked.
    pub fn status_classes(&self) -> (r: Vec<&'static str>)
        ensures
            self.status.state == TunnelState::Error ==> str_views(r@) == seq![
                "network-connection-status"@,
                "error"@,
            ],
            self.status.state != TunnelState::Error ==> str_views(r@) == seq![
                "network-connection-status"@,
            ],
    {
        let mut v: Vec<&'static str> = Vec::new();
        v.push("network-connection-status");
        if self.status.state == TunnelState::Error {
            v.push("error");
            assert(str_views(v@) =~= seq!["network-connection-status"@, "error"@]);
        } else {
            assert(str_views(v@) =~= seq!["network-connection-status"@]);
        }
        v
    }

    /// The visible child of the hover stack: the action button while hovered,
    /// the status otherwise.
    pub fn visible_child(&self) -> (r: &'static str)
        ensures
            self.hovered ==> r@ == "actions"@,
            !self.hovered ==> r@ == "status"@,
    {
        if self.hovered {
            "actions"
        } else {
            "status"
        }
    }
}

} // verus!
