//! The DSP audio mixer: sample formats, wave buffers, channels and the service itself.

pub mod channel;
pub mod command;
pub mod error;
pub mod format;
pub mod mixer;
pub mod wave;

pub use channel::{ChannelView, PlaybackChannel, QUEUE_DEPTH};
pub use command::MixerCommand;
pub use error::NdspError;
pub use format::{Encoding, SampleFormat};
pub use mixer::{MixerService, CHANNEL_COUNT};
pub use wave::{WaveInfo, WaveStatus, WaveView};
