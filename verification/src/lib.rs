//! A verified protocol engine for a pinentry-style secret-entry helper.
//!
//! The engine speaks a line-oriented request/response protocol: each input
//! line is parsed into a [`command::Command`], dispatched against the
//! per-session [`state::SessionState`], and answered with
//! [`response::Response`] values rendered to exact wire text.  The
//! interactive picker that actually produces the secret is driven by the
//! surrounding program; the engine only decides what to send it and how to
//! interpret what came back.

pub mod command;
pub mod decode;
pub mod dispatch;
pub mod response;
pub mod session;
pub mod state;
pub mod text;
