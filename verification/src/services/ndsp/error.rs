//! Errors of the audio mixer.

use vstd::prelude::*;

verus! {

/// What can go wrong when working with wave buffers, channels and the mixer.
#[derive(Copy, Clone, Debug, PartialEq, Eq, Structural)]
pub enum NdspError {
    /// The wave is queued or playing on the channel with this id, so it cannot be changed.
    WaveBusy(u8),
    /// The requested sample count (first) exceeds what the buffer can hold (second).
    SampleCountOutOfBounds(u32, u32),
    /// The channel's queue already holds as many waves as the hardware takes.
    QueueFull,
    /// No channel has this id.
    InvalidChannelId,
    /// The mixer is already owned by this process.
    AlreadyInitialized,
    /// The mixer could not be acquired.
    HardwareUnavailable,
    /// The mixer answered a command or a status read with a failure.
    HardwareFault,
}

impl NdspError {
    /// Turns the result code of a mixer command into a `Result`: negative codes are faults.
    pub fn check(code: i32) -> (r: Result<(), NdspError>)
        ensures
            r == if code < 0 {
                Err::<(), NdspError>(NdspError::HardwareFault)
            } else {
                Ok::<(), NdspError>(())
            },
    {
        if code < 0 {
            Err(NdspError::HardwareFault)
        } else {
            Ok(())
        }
    }
}

} // verus!
