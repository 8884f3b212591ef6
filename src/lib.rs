//! Activity tracking for command-line AI assistants: the decoding of hook
//! events, the per-session state machine and its aggregation, the tracker of
//! keyboard and mouse activity, and what the tray application decides on
//! them: its settings and texts, its reactions to status changes, the scan
//! of the process table for tools without hooks (with the reading of `lsof`
//! listings), and the choice of the window to bring forward.

pub mod text;
pub mod event;
pub mod session;
pub mod registry;
pub mod activity;
pub mod i18n;
pub mod config;
pub mod tray;
pub mod scan;
pub mod window;
pub mod update;
pub mod lsof;
