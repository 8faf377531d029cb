//! Shell-wide settings that don't belong to any specific module.

use vstd::prelude::*;

verus! {

/// When to use full-colour app icons instead of symbolic ones.
#[derive(Debug, Clone, Copy, PartialEq, Eq, Structural)]
pub enum ColorIconMode {
    /// Never use colour icons; only symbolic sources are consulted.
    Never,
    /// Use the theme's colour icon only when it has no symbolic icon for the app.
    Fallback,
    /// Use colour icons first, falling back to symbolic ones when none exists.
    Prefer,
}

impl Default for ColorIconMode {
    fn default() -> (r: Self)
        ensures
            r == ColorIconMode::Fallback,
    {
        ColorIconMode::Fallback
    }
}

/// Layer-shell layer a window is placed on, from furthest back to furthest front.
#[derive(Debug, Clone, Copy, PartialEq, Eq, Structural)]
pub enum Layer {
    /// Below everything else, used for wallpapers and ambient surfaces.
    Background,
    /// Behind regular application windows.
    Bottom,
    /// Above regular application windows.
    Top,
    /// Above everything, including fullscreen application windows.
    Overlay,
}

impl Default for Layer {
    fn default() -> (r: Self)
        ensures
            r == Layer::Top,
    {
        Layer::Top
    }
}

/// Shell-wide settings that don't belong to any specific module.
#[derive(Debug)]
pub struct GeneralConfig {
    /// Sans-serif font family for UI text and labels (`font-sans`).
    pub font_sans: String,
    /// Monospace font family for code and technical content (`font-mono`).
    pub font_mono: String,
    /// Demote overlay surfaces to allow compositor screen tearing
    /// (`tearing-mode`).
    pub tearing_mode: bool,
    /// When to use full-colour app icons for notifications and workspaces
    /// (`color-icons`).
    pub color_icons: ColorIconMode,
}

impl Default for GeneralConfig {
    fn default() -> (r: Self)
        ensures
            r.font_sans@ == "Inter"@,
            r.font_mono@ == "JetBrains Mono"@,
            !r.tearing_mode,
            r.color_icons == ColorIconMode::Fallback,
    {
        GeneralConfig {
            font_sans: String::from_str("Inter"),
            font_mono: String::from_str("JetBrains Mono"),
            tearing_mode: false,
            color_icons: ColorIconMode::default(),
        }
    }
}

/// Documentation metadata of a configuration module.
#[derive(Debug)]
pub struct ModuleInfo {
    /// The module's name (its table in the configuration file).
    pub name: String,
    /// Layout id when the module can be placed on the bar.
    pub layout_id: Option<String>,
    /// Whether the module's table is an array of entries.
    pub array_entry: bool,
}

impl GeneralConfig {
    /// The documentation metadata of the `general` table: not placeable on
    /// the bar, a single table.
    pub fn module_info() -> (r: ModuleInfo)
        ensures
            r.name@ == "general"@,
            r.layout_id is None,
            !r.array_entry,
    {
        ModuleInfo { name: String::from_str("general"), layout_id: None, array_entry: false }
    }
}

} // verus!
