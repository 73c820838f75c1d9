//! Verified core of a browser admin console: the typed HTTP request builder,
//! response classification, multipart encoding, routing table, pagination
//! arithmetic, and the loading/auth coordination state machines.
//!
//! The browser glue (view rendering, fetch plumbing, storage access) lives in
//! the accompanying front-end crate and only performs what these modules decide.

pub mod api;
pub mod app;
pub mod auth;
pub mod components;
pub mod loader_task;
pub mod numeric;
pub mod routes;
