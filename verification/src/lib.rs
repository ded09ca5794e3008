//! Recognises Unix-epoch timestamps in copied text and decides how the decoded
//! time is presented: the timestamp parser, the clipboard monitor's poll
//! decisions, the overlay's screen geometry and the tray's labels.

pub mod calendar;
pub mod clock;
pub mod config;
pub mod monitor;
pub mod overlay;
pub mod parser;
pub mod relative;
pub mod text;
pub mod tray;

pub use config::{HudPayload, HudPosition, TimestampConfig};
pub use monitor::{ClipboardMonitor, Detection, CLIPBOARD_POLL_INTERVAL_MS};
pub use overlay::{hud_origin, hud_placement, MonitorGeometry, PixelSize, SCREEN_EDGE_PADDING};
pub use parser::TimeParser;
pub use tray::{get_tray_text, tray_command, TrayCommand, TrayTexts};
