//! Host-side engine for per-residue circular variance on a compute accelerator.
//!
//! The crate decides everything that happens on the host: how atoms and
//! residues are laid out for the kernel, how the settings record is encoded,
//! which accelerator buffers are reused or replaced, which grid is dispatched
//! and how the bytes read back become a matrix. A driver performs the device
//! operations that [`engine::Engine::run`] asks for and hands what the device
//! answers to [`engine::Engine::complete`].

pub mod annotation;
pub mod buffer;
pub mod bytes;
pub mod dispatch;
pub mod engine;
pub mod error;
pub mod layout;
pub mod matrix;
pub mod range;
pub mod readback;
pub mod request;
pub mod settings;
pub mod structure;

pub use crate::engine::Engine;
