//! Icon and label of the bar buttons of the IWD and Mullvad modules.

use vstd::prelude::*;

use crate::iwd_types::{ConnectionModel, ConnectionState};
use crate::text::{Text, TextModel};

verus! {

/// The configured icons of the IWD bar module.
#[derive(Debug)]
pub struct IwdIcons {
    /// WiFi icon when disabled.
    pub wifi_disabled_icon: String,
    /// WiFi icon when connecting.
    pub wifi_acquiring_icon: String,
    /// WiFi icon when disconnected.
    pub wifi_offline_icon: String,
    /// WiFi icon when connected but signal strength unavailable.
    pub wifi_connected_icon: String,
    /// WiFi signal strength icons from weak to excellent.
    pub wifi_signal_icons: Vec<String>,
}

/// What the IWD bar module shows.
#[derive(Debug)]
pub struct WifiContext {
    /// Whether the device is powered on.
    pub enabled: bool,
    /// Attempt-aware connection state.
    pub connection: ConnectionState,
    /// Strength bucket (0-100) of the connected link.
    pub strength: Option<u8>,
}

/// The signal icon for `percent` among `count` icons: the percentage range
/// is split into `count` equal bands, lowest first (0-25% is the first of four
/// icons, 26-50% the second, and so on).
pub open spec fn icon_index_spec(percent: int, count: int) -> Option<int> {
    if count == 0 {
        None
    } else if percent <= 0 {
        Some(0)
    } else if percent >= 100 {
        Some(count - 1)
    } else {
        Some((percent * count - 1) / 100)
    }
}

/// Index of the signal icon for a strength percentage among `count` icons.
pub fn signal_icon_index(percent: u8, count: usize) -> (r: Option<usize>)
    ensures
        match icon_index_spec(percent as int, count as int) {
            Some(i) => r == Some(i as usize) && 0 <= i < count,
            None => r is None,
        },
{
    if count == 0 {
        return None;
    }
    if percent == 0 {
        return Some(0);
    }
    if percent >= 100 {
        return Some(count - 1);
    }
    let p = percent as u128;
    let c = count as u128;
    proof {
        assert(p * c <= 99 * c) by (nonlinear_arith)
            requires
                p <= 99,
        ;
        assert(p * c >= 1) by (nonlinear_arith)
            requires
                p >= 1,
                c >= 1,
        ;
        assert((p * c - 1) / 100 < c) by (nonlinear_arith)
            requires
                1 <= p <= 99,
                c >= 1,
        ;
    }
    let index = (p * c - 1) / 100;
    Some(index as usize)
}

/// The icon of the IWD bar button.
pub open spec fn wifi_icon_spec(icons: IwdIcons, ctx: WifiContext) -> Seq<char> {
    if !ctx.enabled {
        icons.wifi_disabled_icon@
    } else {
        match ctx.connection@ {
            ConnectionModel::Connecting(_) => icons.wifi_acquiring_icon@,
            ConnectionModel::Idle => icons.wifi_offline_icon@,
            ConnectionModel::Connected(_) => match ctx.strength {
                Some(s) => match icon_index_spec(s as int, icons.wifi_signal_icons@.len() as int) {
                    Some(i) => icons.wifi_signal_icons@[i]@,
                    None => icons.wifi_connected_icon@,
                },
                None => icons.wifi_connected_icon@,
            },
        }
    }
}

/// The icon of the IWD bar button: disabled, acquiring while connecting,
/// offline while idle, and the signal-strength icon while connected (the
/// plain connected icon when no strength or no signal icons are known).
pub fn wifi_icon(icons: &IwdIcons, ctx: &WifiContext) -> (r: String)
    ensures
        r@ == wifi_icon_spec(*icons, *ctx),
{
    if !ctx.enabled {
        return icons.wifi_disabled_icon.clone();
    }
    match &ctx.connection {
        ConnectionState::Connecting { .. } => icons.wifi_acquiring_icon.clone(),
        ConnectionState::Idle => icons.wifi_offline_icon.clone(),
        ConnectionState::Connected { .. } => {
            match ctx.strength {
                Some(s) => match signal_icon_index(s, icons.wifi_signal_icons.len()) {
                    Some(i) => icons.wifi_signal_icons[i].clone(),
                    None => icons.wifi_connected_icon.clone(),
                },
                None => icons.wifi_connected_icon.clone(),
            }
        },
    }
}

/// The label of the IWD bar button.
pub open spec fn wifi_label_spec(connection: ConnectionModel) -> TextModel {
    match connection {
        ConnectionModel::Connected(ssid) => if ssid.len() > 0 {
            TextModel::Literal(ssid)
        } else {
            TextModel::Message("bar-iwd-wifi-fallback"@)
        },
        ConnectionModel::Connecting(_) => TextModel::Message("bar-iwd-connecting"@),
        ConnectionModel::Idle => TextModel::Message("bar-iwd-disconnected"@),
    }
}

/// The label of the IWD bar button: the connected SSID (a generic WiFi label
/// when it is empty), or the connecting / disconnected message.
pub fn wifi_label(ctx: &WifiContext) -> (r: Text)
    ensures
        r@ == wifi_label_spec(ctx.connection@),
{
    match &ctx.connection {
        ConnectionState::Connected { ssid } => {
            if ssid.as_str().unicode_len() > 0 {
                Text::Literal(ssid.clone())
            } else {
                Text::Message("bar-iwd-wifi-fallback")
            }
        },
        ConnectionState::Connecting { .. } => Text::Message("bar-iwd-connecting"),
        ConnectionState::Idle => Text::Message("bar-iwd-disconnected"),
    }
}

/// Icon and label of the IWD bar button; without a station the offline icon
/// and the "no WiFi" message.
pub fn iwd_display(icons: &IwdIcons, station: &Option<WifiContext>) -> (r: (String, Text))
    ensures
        match station {
            Some(ctx) => r.0@ == wifi_icon_spec(*icons, *ctx) && r.1@ == wifi_label_spec(
                ctx.connection@,
            ),
            None => r.0@ == icons.wifi_offline_icon@ && r.1@ == TextModel::Message("bar-iwd-no-wifi"@),
        },
{
    match station {
        Some(ctx) => (wifi_icon(icons, ctx), wifi_label(ctx)),
        None => (icons.wifi_offline_icon.clone(), Text::Message("bar-iwd-no-wifi")),
    }
}

/// The tunnel state reported by the Mullvad daemon.
#[derive(Debug, Clone, Copy, PartialEq, Eq, Structural)]
pub enum TunnelState {
    Connected,
    Connecting,
    Disconnecting,
    Disconnected,
    /// The tunnel is in an error state and traffic is blocked.
    Error,
}

/// The configured icons of the Mullvad bar module.
#[derive(Debug)]
pub struct MullvadIcons {
    pub disabled_icon: String,
    pub connected_icon: String,
    pub connecting_icon: String,
    pub disconnected_icon: String,
    pub blocked_icon: String,
}

/// What the Mullvad bar module shows.
#[derive(Debug)]
pub struct MullvadContext {
    /// Whether an account is logged in.
    pub logged_in: bool,
    pub state: TunnelState,
    /// City of the relay, when connected to one that reports it.
    pub city: Option<String>,
}

/// The icon of the Mullvad bar button.
pub open spec fn mullvad_icon_spec(icons: MullvadIcons, logged_in: bool, state: TunnelState) -> Seq<char> {
    if !logged_in {
        icons.disabled_icon@
    } else {
        match state {
            TunnelState::Connected => icons.connected_icon@,
            TunnelState::Connecting => icons.connecting_icon@,
            TunnelState::Disconnecting => icons.connecting_icon@,
            TunnelState::Disconnected => icons.disconnected_icon@,
            TunnelState::Error => icons.blocked_icon@,
        }
    }
}

/// The icon of the Mullvad bar button: disabled while logged out, otherwise
/// by tunnel state (disconnecting shares the connecting icon).
pub fn select_icon(icons: &MullvadIcons, ctx: &MullvadContext) -> (r: String)
    ensures
        r@ == mullvad_icon_spec(*icons, ctx.logged_in, ctx.state),
{
    if !ctx.logged_in {
        return icons.disabled_icon.clone();
    }
    match ctx.state {
        TunnelState::Connected => icons.connected_icon.clone(),
        TunnelState::Connecting => icons.connecting_icon.clone(),
        TunnelState::Disconnecting => icons.connecting_icon.clone(),
        TunnelState::Disconnected => icons.disconnected_icon.clone(),
        TunnelState::Error => icons.blocked_icon.clone(),
    }
}

/// The label of the Mullvad bar button.
pub open spec fn mullvad_label_spec(logged_in: bool, state: TunnelState, city: Option<Seq<char>>) -> TextModel {
    if !logged_in {
        TextModel::Message("bar-mullvad-logged-out"@)
    } else {
        match state {
            TunnelState::Connected => match city {
                Some(c) => if c.len() > 0 {
                    TextModel::Literal(c)
                } else {
                    TextModel::Message("bar-mullvad-connected"@)
                },
                None => TextModel::Message("bar-mullvad-connected"@),
            },
            TunnelState::Connecting => TextModel::Message("bar-mullvad-connecting"@),
            TunnelState::Disconnecting => TextModel::Message("bar-mullvad-disconnecting"@),
            TunnelState::Disconnected => TextModel::Message("bar-mullvad-disconnected"@),
            TunnelState::Error => TextModel::Message("bar-mullvad-blocked"@),
        }
    }
}

/// The label of the Mullvad bar button: the relay city while connected (a
/// generic connected message without one), else the state's message.
pub fn format_label(ctx: &MullvadContext) -> (r: Text)
    ensures
        r@ == mullvad_label_spec(ctx.logged_in, ctx.state, crate::text::string_opt_view(ctx.city)),
{
    if !ctx.logged_in {
        return Text::Message("bar-mullvad-logged-out");
    }
    match ctx.state {
        TunnelState::Connected => match &ctx.city {
            Some(c) => if c.as_str().unicode_len() > 0 {
                Text::Literal(c.clone())
            } else {
                Text::Message("bar-mullvad-connected")
            },
            None => Text::Message("bar-mullvad-connected"),
        },
        TunnelState::Connecting => Text::Message("bar-mullvad-connecting"),
        TunnelState::Disconnecting => Text::Message("bar-mullvad-disconnecting"),
        TunnelState::Disconnected => Text::Message("bar-mullvad-disconnected"),
        TunnelState::Error => Text::Message("bar-mullvad-blocked"),
    }
}

/// Icon and label of the Mullvad bar button; without the service it reads as
/// logged out.
pub fn mullvad_display(icons: &MullvadIcons, service: &Option<MullvadContext>) -> (r: (String, Text))
    ensures
        match service {
            Some(ctx) => r.0@ == mullvad_icon_spec(*icons, ctx.logged_in, ctx.state) && r.1@
                == mullvad_label_spec(ctx.logged_in, ctx.state, crate::text::string_opt_view(ctx.city)),
            None => r.0@ == icons.disabled_icon@ && r.1@ == TextModel::Message("bar-mullvad-logged-out"@),
        },
{
    match service {
        Some(ctx) => (select_icon(icons, ctx), format_label(ctx)),
        None => {
            let ctx = MullvadContext { logged_in: false, state: TunnelState::Disconnected, city: None };
            (select_icon(icons, &ctx), format_label(&ctx))
        },
    }
}

} // verus!
