//! Typed terminal events, colours and styles over a cell-based terminal
//! backend, with the decisions of a terminal session stated as contracts.

pub mod event;
pub mod keyboard;
pub mod mouse;
pub mod session;
pub mod style;

pub use event::{unpack_event, unpack_key, Event, EventError, EventResult, RawEvent};
pub use keyboard::{ExtendedKey, Key, Modifiers};
pub use mouse::Mouse;
pub use session::{Action, Guard, InitError, InitOptions, InputMode, OutputMode, Plan, RustBox, Startup};
pub use style::{Color, Style};
