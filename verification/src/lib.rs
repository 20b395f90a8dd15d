//! Verified core of a multi-slot clipboard manager: the nine addressed
//! clipboard slots of static mode, the recency ring of dynamic mode,
//! hotkey chord detection, the key-event decisions of the event tap, and
//! the engine that turns hotkey actions into store changes and the
//! clipboard work that follows them.

pub mod clip;
pub mod static_store;
pub mod hotkey;
pub mod ram;
pub mod engine;
