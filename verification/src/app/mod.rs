//! Application state and the pure decisions that drive it.
pub mod inflight;
pub mod laws;
pub mod list;
pub mod message;
pub mod search;
pub mod state;

pub use inflight::Inflight;
pub use list::{Keyed, LoadState, ResourceList};
pub use message::{Action, Command, EngineEvent, Msg};
pub use state::{App, Modal, Tab, Toast, TOAST_TTL_SECS};
