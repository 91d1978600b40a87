//! Web desktop share: the decisions behind streaming a Wayland desktop to a browser
//! and replaying the browser's input events.

pub mod args;
pub mod cap;
pub mod encode;
pub mod hid;
pub mod net;
pub mod text;
