//! Sample formats and the size of one sample frame.

use vstd::prelude::*;

verus! {

/// How one sample of one channel is encoded.
#[derive(Copy, Clone, Debug, PartialEq, Eq, Structural)]
pub enum Encoding {
    /// Signed 8-bit PCM.
    PCM8,
    /// Signed 16-bit PCM.
    PCM16,
    /// DSP ADPCM, addressed by whole compressed frames.
    ADPCM,
}

/// Bytes taken by one compressed ADPCM frame (a header byte and seven bytes of nibbles).
pub const ADPCM_FRAME_BYTES: u8 = 8;

/// Bytes that one sample of one channel takes in the given encoding.
pub open spec fn bytes_per_sample(encoding: Encoding) -> nat {
    match encoding {
        Encoding::PCM8 => 1,
        Encoding::PCM16 => 2,
        Encoding::ADPCM => ADPCM_FRAME_BYTES as nat,
    }
}

/// The encoding and channel layout of the samples in a wave buffer.
#[derive(Copy, Clone, Debug, PartialEq, Eq, Structural)]
pub struct SampleFormat {
    encoding: Encoding,
    channel_count: u8,
}

impl SampleFormat {
    /// The encoding of each sample.
    pub closed spec fn spec_encoding(self) -> Encoding {
        self.encoding
    }

    /// How many interleaved channels a frame holds.
    pub closed spec fn spec_channel_count(self) -> u8 {
        self.channel_count
    }

    /// A format is well formed when it is mono or stereo.
    pub open spec fn wf(self) -> bool {
        self.spec_channel_count() == 1 || self.spec_channel_count() == 2
    }

    /// Size in bytes of one frame: one sample for each channel.
    pub open spec fn spec_frame_size_bytes(self) -> nat {
        bytes_per_sample(self.spec_encoding()) * (self.spec_channel_count() as nat)
    }

    /// Builds a format; only mono and stereo layouts exist.
    pub fn new(encoding: Encoding, channel_count: u8) -> (r: Option<SampleFormat>)
        ensures
            r.is_some() <==> (channel_count == 1 || channel_count == 2),
            r matches Some(f) ==> f.wf() && f.spec_encoding() == encoding
                && f.spec_channel_count() == channel_count,
    {
        if channel_count == 1 || channel_count == 2 {
            Some(SampleFormat { encoding, channel_count })
        } else {
            None
        }
    }

    /// The encoding of each sample.
    #[verifier::when_used_as_spec(spec_encoding)]
    pub fn encoding(self) -> (r: Encoding)
        ensures
            r == self.spec_encoding(),
    {
        self.encoding
    }

    /// How many interleaved channels a frame holds.
    #[verifier::when_used_as_spec(spec_channel_count)]
    pub fn channel_count(self) -> (r: u8)
        ensures
            r == self.spec_channel_count(),
    {
        self.channel_count
    }

    /// Size in bytes of one frame.
    pub fn frame_size_bytes(self) -> (r: u8)
        requires
            self.wf(),
        ensures
            r as nat == self.spec_frame_size_bytes(),
            1 <= r <= 16,
    {
        let per_sample: u8 = match self.encoding {
            Encoding::PCM8 => 1,
            Encoding::PCM16 => 2,
            Encoding::ADPCM => ADPCM_FRAME_BYTES,
        };
        let count: u8 = self.channel_count;
        assert(per_sample * count <= 2 * per_sample && per_sample * count >= per_sample)
            by (nonlinear_arith)
            requires
                count == 1 || count == 2,
        ;
        per_sample * count
    }
}

} // verus!
