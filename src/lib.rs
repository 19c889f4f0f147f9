//! Terminal backend and input processing for an embedded terminal widget:
//! key binding lookup, mouse-report encoding, grid geometry, the command
//! state machine of a terminal backend and of the terminal facade, and
//! colour lookup.

pub mod backend;
pub mod bindings;
pub mod default_bindings;
pub mod grid;
pub mod input;
pub mod modes;
pub mod mouse;
pub mod settings;
pub mod terminal;
pub mod theme;

pub use modes::{Modifiers, TermMode};
pub use terminal::{Command, Event, Subscription, Terminal};
pub use theme::{ColorPalette, TermTheme};
