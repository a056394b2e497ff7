//! Decision core of a window-focus switcher.
//!
//! A caller names a target application; the library decides whether to cycle
//! among that application's windows, focus one directly, activate the running
//! application, or launch it. The window manager and the operating system are
//! reached over sockets and OS calls by the surrounding binary; this crate
//! holds the data model, the response parsing, the command strings, and the
//! decision rules, each with a proved contract.

pub mod commands;
pub mod decision;
pub mod gateway;
pub mod query;
pub mod server;
pub mod window;

pub use window::Window;
pub use window::WindowView;
