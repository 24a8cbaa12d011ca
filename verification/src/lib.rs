//! Core logic of a notification relay: an HTTP-facing surface accepts a
//! message and forwards it into a chat channel through a delivery handle
//! that an operator binds at runtime.  This crate holds the verified part:
//! the shared binding store, the request model, the renderer, the dispatch
//! planner and the status mapping.  The network edges (HTTP server, chat
//! client) live outside and hand this crate plain values.

pub mod commands;
pub mod dispatch;
pub mod handle;
pub mod handler;
pub mod render;
pub mod request;
pub mod slot;
pub mod store;
pub mod text;
