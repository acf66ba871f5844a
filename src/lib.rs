//! Startup orchestration for the lsar desktop application: logging sink
//! selection, the main window's fixed shape and decoration, the bootstrap
//! state machine, and the shared eval channel slot.

pub mod bootstrap;
pub mod channel;
pub mod logging;
pub mod platform;
pub mod window;
