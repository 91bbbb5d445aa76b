//! Commands for the mixer hardware.
//!
//! The operations of this module never touch the hardware themselves. Each one
//! returns the commands that its caller has to issue, in the order given,
//! before doing anything else with the buffers involved.

use vstd::prelude::*;

verus! {

/// One command to the mixer or to the cache controller.
#[derive(Copy, Clone, Debug, PartialEq, Eq, Structural)]
pub enum MixerCommand {
    /// Write back the host's cache lines for a wave's region of `len` bytes.
    FlushDataCache { len: u32 },
    /// Append the wave to the hardware queue of `channel`.
    WaveBufAdd { channel: u8 },
    /// Make the mixer drop every wave it holds for `channel`, and wait until it has.
    WaveBufClear { channel: u8 },
    /// Discard the host's cache lines for a wave's region of `len` bytes.
    InvalidateDataCache { len: u32 },
    /// Give up ownership of the mixer.
    Exit,
}

} // verus!
