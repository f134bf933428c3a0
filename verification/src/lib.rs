//! CapIMESwitch core: CapsLock short press switches the input method, long
//! press toggles case.
//!
//! - [`caps`]: the short/long press state machine;
//! - [`hook`]: the keyboard hook's decisions and the long-press timer;
//! - [`config`]: configuration values, defaults and normalisation;
//! - [`elevation`]: the run-as-administrator option (scheduled task,
//!   relaunch, single-instance wait);
//! - [`i18n`]: interface languages and their string tables;
//! - [`panel`], [`tray`]: what the options panel and the tray menu show and
//!   read back;
//! - [`process`]: the executable name of a process from its image path;
//! - [`template`], [`utf16`], [`text`], [`ico`]: text, encoding and icon helpers.
//!
//! Everything here is platform independent and verified; the Windows program
//! around it (hook installation, tray, registry, file access) is in `app/`.

pub mod caps;
pub mod config;
pub mod elevation;
pub mod hook;
pub mod i18n;
pub mod ico;
pub mod panel;
pub mod process;
pub mod template;
pub mod text;
pub mod tray;
pub mod utf16;
