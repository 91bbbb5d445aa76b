//! Safe, verified building blocks for talking to the 3DS system services.
//!
//! The centre of the crate is [`services::ndsp`]: wave buffers that are shared
//! with the DSP mixer, the status machine that guards them, and the
//! per-channel submission queues. Everything here is pure: each operation
//! updates the host-side state and hands back the commands that have to be
//! issued to the hardware, in order; what the hardware answered comes in as
//! plain values.

pub mod error;
pub mod services;
pub mod smdh;
pub mod text;
