//! jikura -- browsing local docker/podman images and containers.
//!
//! Layering, strictly one-directional:
//!   domain  -- plain data: containers, images, their IDs and actions
//!   engine  -- the engine's vocabulary: errors, versions, list entries
//!   app     -- state plus a pure `update`; owns all decisions
pub mod app;
pub mod cli;
pub mod config;
pub mod domain;
pub mod engine;
pub mod enter;
pub mod text;
pub mod ui;
