//! Verified core of the Filen menubar application: the sync state machine,
//! CLI output framing and event handling, activity history, configuration
//! values and the small decision functions behind the tray menu.

pub mod state;
pub mod text;
pub mod cli;
pub mod activity;
pub mod activity_view;
pub mod login;
pub mod error;
pub mod update;
pub mod tray;
pub mod tray_menu;
pub mod paths;
pub mod config;
pub mod credentials;
pub mod logging;
pub mod locale;
