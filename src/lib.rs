//! Low-level access to the PS/2 controller (the 8042) and to the keyboard and
//! mouse behind it, by polling its two registers with a bounded number of tries.
//!
//! The registers are reached through a [`port::RegisterPort`]. The controller
//! records every access it makes, and the contracts of the commands state, over
//! that record, which bytes go out in which order and how the bytes that come
//! back decide the result.

pub mod controller;
pub mod error;
pub mod flags;
pub mod keyboard;
pub mod keyboard_type;
pub mod mouse;
pub mod mouse_resolution;
pub mod mouse_type;
pub mod port;
pub mod response;

pub use controller::Controller;
pub use keyboard::Keyboard;
pub use keyboard_type::KeyboardType;
pub use mouse::Mouse;
pub use mouse_resolution::MouseResolution;
pub use mouse_type::MouseType;
