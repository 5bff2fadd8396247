//! A model of a small desktop shell: one native window hosting a web view,
//! a tray icon with a fixed menu, and three commands that the hosted content
//! can invoke (close the window, minimize it, open the web address in an
//! external browser).
//!
//! The library is the decision core: it tracks the window's visual state,
//! owns the fixed tray-menu description, and turns each command or tray
//! event into the host actions to perform. The host GUI runtime, the event
//! loop and every native call live outside the library.

pub mod controller;
pub mod tray;
pub mod window;
