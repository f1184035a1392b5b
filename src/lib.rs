//! Initialization protocol for a window that embeds a browser control: the
//! two-step asynchronous bootstrap, the view session's state machine, and the
//! layout kept in step with the window.

pub mod bootstrap;
pub mod content;
pub mod error;
pub mod geometry;
pub mod locale;
pub mod session;
