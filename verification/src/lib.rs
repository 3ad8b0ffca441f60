//! Core logic of a desktop status bar: the module/controller framework.
//!
//! Each bar module runs an asynchronous controller that turns external
//! events into state updates, delivered over a bounded channel to a widget
//! on the UI thread.  This crate holds the verified heart of that
//! framework: the focus-tracking state machine, the update-channel
//! delivery policies, the shared client registry, and the decision
//! functions that widget callbacks apply.  The surrounding I/O (the
//! compositor protocols, the GUI toolkit, the async runtime's event
//! loops) stays outside.

pub mod bridge;
pub mod broadcast;
pub mod channel;
pub mod custom;
pub mod focused;
pub mod registry;
pub mod sway_mode;
