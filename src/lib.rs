//! Presentation core of a desktop panel: a registry of compositor surfaces, the
//! per-window configuration state machine, buffer geometry, damage rounding,
//! frame scheduling and pointer routing, with the small parsers that feed the
//! panel's status notifications.

pub mod battery;
mod buffer;
pub mod clock;
mod cursor;
pub mod dbus;
mod geometry;
pub mod hyprland;
mod manager;
mod mapping;
mod object;
mod panel;
mod protocol;
mod runner;
mod text;
mod tray;
pub mod uevent;
mod window;

pub use buffer::{Buffer, ClipMask, Viewport};
pub use geometry::{Fixed, FixedRect, Rect, SurfaceSize};
pub use object::{Interface, Object, OwnedObject};
pub use protocol::{Event, MouseEvent, Request, FORMAT_ARGB8888};
pub use cursor::{cursor_shape, CursorShape, Interaction};
pub use window::{BufferError, ConfigState, Role, State, Surface, Tag, UiOutcome, Window, WindowOp};
pub use manager::{RegistryError, WindowManager};
pub use runner::{window_info_text, Action, Message, Runner, BAR_HEIGHT};
pub use text::{parse_decimal, position, show_bytes};
pub use tray::{Tray, TrayEvent};
pub use panel::{truncate, AppEvent, BatteryEvent, BitSet, Panel, TrayItem};
pub use mapping::{Const, Page, Size};
