//! Automatic match recording for a game client: a session orchestrator that
//! watches for the client window, manages an exclusive capture handle, and
//! drives a per-match event collector whose timeline is persisted beside the
//! captured video.

pub mod cancel;
pub mod capture;
pub mod collector;
pub mod events;
pub mod naming;
pub mod orchestrator;
pub mod record;
pub mod recordings;
