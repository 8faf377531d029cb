//! Verified decision logic of the wayle shell's WiFi (IWD), audio, Mullvad,
//! notification and dropdown surfaces.

pub mod active_connection;
pub mod audio;
pub mod available_networks;
pub mod bar;
pub mod config;
pub mod dropdown;
pub mod iwd_types;
pub mod mullvad;
pub mod networks;
pub mod notification;
pub mod passphrases;
pub mod service;
pub mod station;
pub mod surfaces;
pub mod text;
pub mod tray_menu;

pub use config::{ColorIconMode, GeneralConfig, Layer};
pub use iwd_types::{ConnectionState, SecurityType};
pub use station::Error;
