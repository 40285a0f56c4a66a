//! Event acquisition and decoding for a window manager: input-interest masks,
//! decoding of raw event records into typed events, and the connection's
//! lifecycle and run-loop decisions.

pub mod backend;
pub mod event;
pub mod input;
pub mod key;
pub mod key_event;

pub use backend::Backend;
pub use event::{DecodeError, Event, EventCategory, RawEvent, UnsupportedCategoryError};
pub use input::Input;
pub use key::Key;
pub use key_event::{KeyEvent, RawKeyEvent, ResolveError};
