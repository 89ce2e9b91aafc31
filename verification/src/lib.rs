//! The event core of an emoji picker: polled notifiers, handler lists and the
//! reason-tagged open/close cycle of the picker window, together with the
//! decisions that the picker's side-effect handlers take.

pub mod backend_link;
pub mod caret_locator;
pub mod desktop;
pub mod emoji;
pub mod emoji_model;
pub mod handler;
pub mod handlers;
pub mod hooker;
pub mod keyhandler;
pub mod keyredir;
pub mod poller;
