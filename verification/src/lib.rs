//! Core of a desktop application shell: adapter diagnostics, surface
//! configuration, texture upload planning, the per-frame render sequence and
//! the event-driven controller around them.
//!
//! Everything here works on plain values. Windows, GPU handles and UI contexts
//! stay with the caller, who performs the requests the library hands out and
//! reports back what happened.

pub mod adapter;
pub mod application;
pub mod frame;
pub mod graphics;
pub mod registry;
pub mod surface;
pub mod texture;
