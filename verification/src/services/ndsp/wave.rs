//! Wave buffers and their playback status.

use vstd::prelude::*;

use super::command::MixerCommand;
use super::error::NdspError;
use super::format::SampleFormat;

verus! {

/// Playback status of a [`WaveInfo`].
#[derive(Copy, Clone, Debug, PartialEq, Eq, Structural)]
pub enum WaveStatus {
    /// Owned by the application alone; the mixer holds no reference to it.
    Free,
    /// Submitted to a channel and waiting for the mixer.
    Queued,
    /// The mixer is reading it.
    Playing,
    /// The mixer has finished it.
    Done,
}

/// The status that a value of the hardware's status field stands for.
pub open spec fn status_of_code(code: u8) -> Option<WaveStatus> {
    match code {
        0 => Some(WaveStatus::Free),
        1 => Some(WaveStatus::Queued),
        2 => Some(WaveStatus::Playing),
        3 => Some(WaveStatus::Done),
        _ => None,
    }
}

impl WaveStatus {
    /// The value of the hardware's status field for this status.
    pub open spec fn spec_code(self) -> u8 {
        match self {
            WaveStatus::Free => 0,
            WaveStatus::Queued => 1,
            WaveStatus::Playing => 2,
            WaveStatus::Done => 3,
        }
    }

    /// The value of the hardware's status field for this status.
    #[verifier::when_used_as_spec(spec_code)]
    pub fn code(self) -> (r: u8)
        ensures
            r == self.spec_code(),
            status_of_code(r) == Some(self),
    {
        match self {
            WaveStatus::Free => 0,
            WaveStatus::Queued => 1,
            WaveStatus::Playing => 2,
            WaveStatus::Done => 3,
        }
    }

    /// Whether the mixer may hold a reference to a wave in this status.
    pub open spec fn spec_in_flight(self) -> bool {
        self == WaveStatus::Queued || self == WaveStatus::Playing
    }

    /// Whether the mixer may hold a reference to a wave in this status.
    #[verifier::when_used_as_spec(spec_in_flight)]
    pub fn in_flight(self) -> (r: bool)
        ensures
            r == self.spec_in_flight(),
    {
        match self {
            WaveStatus::Queued | WaveStatus::Playing => true,
            _ => false,
        }
    }
}

impl TryFrom<u8> for WaveStatus {
    type Error = &'static str;

    fn try_from(value: u8) -> (r: Result<Self, Self::Error>)
        ensures
            r.is_ok() <==> value <= 3,
            r matches Ok(s) ==> status_of_code(value) == Some(s),
    {
        match value {
            0 => Ok(Self::Free),
            1 => Ok(Self::Queued),
            2 => Ok(Self::Playing),
            3 => Ok(Self::Done),
            _ => Err("Invalid WaveInfo Status code"),
        }
    }
}

impl vstd::std_specs::convert::TryFromSpecImpl<u8> for WaveStatus {
    open spec fn obeys_try_from_spec() -> bool {
        true
    }

    open spec fn try_from_spec(value: u8) -> Result<Self, Self::Error> {
        match status_of_code(value) {
            Some(status) => Ok(status),
            None => Err("Invalid WaveInfo Status code"),
        }
    }
}

/// One step of a wave's status, as the application can observe it: the status
/// stays, or moves one place along Free, Queued, Playing, Done and back to
/// Free. A looping wave never leaves Playing for Done.
pub open spec fn legal_step(from: WaveStatus, to: WaveStatus, looping: bool) -> bool {
    ||| to == from
    ||| from == WaveStatus::Free && to == WaveStatus::Queued
    ||| from == WaveStatus::Queued && to == WaveStatus::Playing
    ||| from == WaveStatus::Playing && to == WaveStatus::Done && !looping
    ||| from == WaveStatus::Done && to == WaveStatus::Free
}

/// What a [`WaveInfo`] is, mathematically.
pub struct WaveView {
    /// The bytes of the memory region that the wave owns.
    pub region: Seq<u8>,
    /// The format of the samples in the region.
    pub format: SampleFormat,
    /// How many frames the mixer is to read.
    pub sample_count: u32,
    /// Where the wave stands between the application and the mixer.
    pub status: WaveStatus,
    /// Whether the mixer replays the wave until it is stopped.
    pub looping: bool,
    /// The channel whose queue holds the wave.
    pub channel: Option<u8>,
}

impl WaveView {
    /// Whether the mixer may hold a reference to the region.
    pub open spec fn in_flight(self) -> bool {
        self.status.spec_in_flight()
    }

    /// The number of whole frames that fit in the region.
    pub open spec fn max_sample_count(self) -> int {
        self.region.len() as int / self.format.spec_frame_size_bytes() as int
    }

    /// The invariant of every wave: it is bound to a channel exactly while it
    /// is in flight, the frames to read fit in the region, and the region's
    /// length fits the hardware's 32-bit size field.
    pub open spec fn wf(self) -> bool {
        &&& self.format.wf()
        &&& self.region.len() <= u32::MAX
        &&& self.sample_count <= self.max_sample_count()
        &&& self.channel.is_some() <==> self.in_flight()
    }

    /// The wave after it has been submitted to `channel`.
    pub open spec fn submitted(self, channel: u8) -> WaveView {
        WaveView { status: WaveStatus::Queued, channel: Some(channel), ..self }
    }

    /// Whether the mixer can have brought the wave to the status `reported`.
    pub open spec fn accepts(self, reported: WaveStatus) -> bool {
        ||| reported == self.status
        ||| self.status == WaveStatus::Queued && reported == WaveStatus::Playing
        ||| self.status == WaveStatus::Playing && reported == WaveStatus::Done && !self.looping
    }

    /// The wave after the mixer was seen to have brought it to `reported`.
    pub open spec fn observed(self, reported: WaveStatus) -> WaveView {
        WaveView {
            status: reported,
            channel: if reported.spec_in_flight() {
                self.channel
            } else {
                None
            },
            ..self
        }
    }

    /// The wave after the application has taken it back.
    pub open spec fn released(self) -> WaveView {
        WaveView { status: WaveStatus::Free, channel: None, ..self }
    }

    /// The commands that take the wave back from the mixer: a wave in flight
    /// is first cleared from its channel; the region's cache lines are
    /// invalidated in every case.
    pub open spec fn release_commands(self) -> Seq<MixerCommand> {
        let invalidate = MixerCommand::InvalidateDataCache { len: self.region.len() as u32 };
        if self.in_flight() {
            seq![MixerCommand::WaveBufClear { channel: self.channel.unwrap() }, invalidate]
        } else {
            seq![invalidate]
        }
    }

    /// The commands that hand the wave to the mixer on `channel`: the region
    /// is flushed before the mixer learns of it.
    pub open spec fn submit_commands(self, channel: u8) -> Seq<MixerCommand> {
        seq![
            MixerCommand::FlushDataCache { len: self.region.len() as u32 },
            MixerCommand::WaveBufAdd { channel },
        ]
    }
}

/// A block of sample data together with what the mixer needs to play it.
///
/// The wave owns its memory region. While it is queued or playing the mixer
/// reads that region, so the region can be neither changed nor resized, and
/// before the wave goes away the mixer has to let go of it: see
/// [`WaveInfo::release`].
#[derive(Debug)]
pub struct WaveInfo {
    buffer: Vec<u8>,
    audio_format: SampleFormat,
    nsamples: u32,
    status: WaveStatus,
    looping: bool,
    played_on_channel: Option<u8>,
}

impl View for WaveInfo {
    type V = WaveView;

    closed spec fn view(&self) -> WaveView {
        WaveView {
            region: self.buffer@,
            format: self.audio_format,
            sample_count: self.nsamples,
            status: self.status,
            looping: self.looping,
            channel: self.played_on_channel,
        }
    }
}

impl WaveInfo {
    /// Whether the wave satisfies its invariant.
    pub open spec fn wf(&self) -> bool {
        self@.wf()
    }

    /// Builds a free wave over `buffer` that plays as many whole frames as the buffer holds.
    pub fn new(buffer: Vec<u8>, audio_format: SampleFormat, looping: bool) -> (wave: WaveInfo)
        requires
            audio_format.wf(),
            buffer@.len() <= u32::MAX,
        ensures
            wave.wf(),
            wave@ == (WaveView {
                region: buffer@,
                format: audio_format,
                sample_count: (buffer@.len() as int / audio_format.spec_frame_size_bytes() as int) as u32,
                status: WaveStatus::Free,
                looping,
                channel: None,
            }),
    {
        let sample_count: usize = buffer.len() / (audio_format.frame_size_bytes() as usize);
        WaveInfo {
            buffer,
            audio_format,
            nsamples: sample_count as u32,
            status: WaveStatus::Free,
            looping,
            played_on_channel: None,
        }
    }

    /// The sample data.
    pub fn get_buffer(&self) -> (region: &[u8])
        ensures
            region@ == self@.region,
    {
        self.buffer.as_slice()
    }

    /// The sample data, for writing. A wave in flight refuses, naming the channel that holds it.
    pub fn get_buffer_mut(&mut self) -> (r: Result<&mut [u8], NdspError>)
        requires
            old(self).wf(),
        ensures
            final(self)@.region.len() == old(self)@.region.len() ==> final(self).wf(),
            old(self)@.in_flight() ==> r.is_err() && r.unwrap_err() == NdspError::WaveBusy(
                old(self)@.channel.unwrap(),
            ) && final(self)@ == old(self)@,
            !old(self)@.in_flight() ==> r.is_ok() && r.unwrap()@ == old(self)@.region
                && final(self)@ == (WaveView { region: final(r.unwrap())@, ..old(self)@ }),
    {
        match self.status {
            WaveStatus::Playing | WaveStatus::Queued => {
                Err(NdspError::WaveBusy(self.played_on_channel.unwrap()))
            },
            _ => Ok(self.buffer.as_mut_slice()),
        }
    }

    /// The wave's playback status.
    pub fn get_status(&self) -> (status: WaveStatus)
        ensures
            status == self@.status,
    {
        self.status
    }

    /// How many frames the mixer is to read.
    pub fn get_sample_count(&self) -> (count: u32)
        ensures
            count == self@.sample_count,
    {
        self.nsamples
    }

    /// The format of the sample data.
    pub fn get_format(&self) -> (format: SampleFormat)
        ensures
            format == self@.format,
    {
        self.audio_format
    }

    /// Whether the mixer replays the wave until it is stopped.
    pub fn is_looping(&self) -> (looping: bool)
        ensures
            looping == self@.looping,
    {
        self.looping
    }

    /// The channel whose queue holds the wave, if one does.
    pub fn channel_binding(&self) -> (channel: Option<u8>)
        ensures
            channel == self@.channel,
    {
        self.played_on_channel
    }

    /// Sets how many frames the mixer is to read, without resizing the buffer.
    ///
    /// A wave in flight refuses with `WaveBusy`; a count whose frames do not
    /// fit in the buffer is refused with `SampleCountOutOfBounds`, which
    /// carries the count asked for and the largest one that fits.
    pub fn set_sample_count(&mut self, sample_count: u32) -> (r: Result<(), NdspError>)
        requires
            old(self).wf(),
        ensures
            final(self).wf(),
            r == if old(self)@.in_flight() {
                Err::<(), NdspError>(NdspError::WaveBusy(old(self)@.channel.unwrap()))
            } else if sample_count * old(self)@.format.spec_frame_size_bytes()
                > old(self)@.region.len() {
                Err::<(), NdspError>(
                    NdspError::SampleCountOutOfBounds(
                        sample_count,
                        old(self)@.max_sample_count() as u32,
                    ),
                )
            } else {
                Ok::<(), NdspError>(())
            },
            final(self)@ == if r.is_ok() {
                WaveView { sample_count, ..old(self)@ }
            } else {
                old(self)@
            },
    {
        match self.status {
            WaveStatus::Playing | WaveStatus::Queued => {
                return Err(NdspError::WaveBusy(self.played_on_channel.unwrap()));
            },
            _ => (),
        }
        let frame: usize = self.audio_format.frame_size_bytes() as usize;
        let max_count: usize = self.buffer.len() / frame;
        proof {
            lemma_fits_iff_within_quotient(
                sample_count as int,
                frame as int,
                self.buffer@.len() as int,
            );
        }
        if sample_count as usize > max_count {
            return Err(NdspError::SampleCountOutOfBounds(sample_count, max_count as u32));
        }
        self.nsamples = sample_count;
        Ok(())
    }

    /// Hands the wave to the mixer on `channel`: the wave becomes queued and bound to the channel.
    ///
    /// Returns the commands to issue: the flush of the region, then the submission.
    pub fn submit(&mut self, channel: u8) -> (commands: Vec<MixerCommand>)
        requires
            old(self).wf(),
            old(self)@.status == WaveStatus::Free,
        ensures
            final(self).wf(),
            final(self)@ == old(self)@.submitted(channel),
            legal_step(old(self)@.status, final(self)@.status, old(self)@.looping),
            commands@ == old(self)@.submit_commands(channel),
    {
        self.status = WaveStatus::Queued;
        self.played_on_channel = Some(channel);
        let mut commands: Vec<MixerCommand> = Vec::new();
        commands.push(MixerCommand::FlushDataCache { len: self.buffer.len() as u32 });
        commands.push(MixerCommand::WaveBufAdd { channel });
        commands
    }

    /// Takes in what the hardware's status field of this wave was read as.
    ///
    /// The mixer alone starts a queued wave and finishes a playing one, and
    /// it never finishes a looping wave. A value that fits this, or that shows
    /// no change, updates the status, which is returned. Any other value is a
    /// hardware fault and leaves the wave as it was.
    pub fn observe(&mut self, code: u8) -> (r: Result<WaveStatus, NdspError>)
        requires
            old(self).wf(),
        ensures
            final(self).wf(),
            r == match status_of_code(code) {
                Some(reported) if old(self)@.accepts(reported) => Ok::<WaveStatus, NdspError>(
                    reported,
                ),
                _ => Err::<WaveStatus, NdspError>(NdspError::HardwareFault),
            },
            final(self)@ == match r {
                Ok(reported) => old(self)@.observed(reported),
                Err(_) => old(self)@,
            },
            legal_step(old(self)@.status, final(self)@.status, old(self)@.looping),
    {
        let reported = match WaveStatus::try_from(code) {
            Ok(status) => status,
            Err(_) => {
                return Err(NdspError::HardwareFault);
            },
        };
        let accepted = match (self.status, reported) {
            (WaveStatus::Free, WaveStatus::Free) => true,
            (WaveStatus::Queued, WaveStatus::Queued) => true,
            (WaveStatus::Queued, WaveStatus::Playing) => true,
            (WaveStatus::Playing, WaveStatus::Playing) => true,
            (WaveStatus::Playing, WaveStatus::Done) => !self.looping,
            (WaveStatus::Done, WaveStatus::Done) => true,
            _ => false,
        };
        if !accepted {
            return Err(NdspError::HardwareFault);
        }
        self.status = reported;
        if !reported.in_flight() {
            self.played_on_channel = None;
        }
        Ok(reported)
    }

    /// Takes the wave back from the mixer, whatever its status: it becomes free and unbound.
    ///
    /// Returns the commands to issue before the region is written to or
    /// reused. For a wave in flight the first of them makes the mixer drop
    /// the wave; should the mixer fail to, the region must not be touched.
    pub fn reset(&mut self) -> (commands: Vec<MixerCommand>)
        requires
            old(self).wf(),
        ensures
            final(self).wf(),
            final(self)@ == old(self)@.released(),
            commands@ == old(self)@.release_commands(),
            !old(self)@.in_flight() ==> legal_step(
                old(self)@.status,
                final(self)@.status,
                old(self)@.looping,
            ),
    {
        let mut commands: Vec<MixerCommand> = Vec::new();
        match self.status {
            WaveStatus::Free | WaveStatus::Done => (),
            _ => {
                commands.push(
                    MixerCommand::WaveBufClear { channel: self.played_on_channel.unwrap() },
                );
            },
        }
        commands.push(MixerCommand::InvalidateDataCache { len: self.buffer.len() as u32 });
        self.status = WaveStatus::Free;
        self.played_on_channel = None;
        commands
    }

    /// Ends the wave's life and gives its region back.
    ///
    /// Returns the region and the commands to issue before the region is
    /// freed or reused, as for [`WaveInfo::reset`].
    pub fn release(self) -> (r: (Vec<u8>, Vec<MixerCommand>))
        requires
            self.wf(),
        ensures
            r.0@ == self@.region,
            r.1@ == self@.release_commands(),
    {
        let mut wave = self;
        let commands = wave.reset();
        (wave.buffer, commands)
    }
}

/// A wave is bound to a channel exactly while it is queued or playing.
pub proof fn lemma_bound_exactly_in_flight(wave: WaveView)
    requires
        wave.wf(),
    ensures
        wave.channel.is_some() <==> (wave.status == WaveStatus::Queued || wave.status
            == WaveStatus::Playing),
{
}

/// Submitting a free wave, taking in a status that the wave accepts, and
/// taking the wave back all keep the wave's invariant.
pub proof fn lemma_steps_keep_invariant(wave: WaveView, channel: u8, reported: WaveStatus)
    requires
        wave.wf(),
    ensures
        wave.status == WaveStatus::Free ==> wave.submitted(channel).wf(),
        wave.accepts(reported) ==> wave.observed(reported).wf(),
        wave.released().wf(),
{
}

/// The status of a wave moves only along Free, Queued, Playing, Done and back
/// to Free, and a looping wave stays in Playing: this holds of submitting a
/// free wave, of taking in a status that the wave accepts, and of taking back
/// a wave that is not in flight. Taking back a wave in flight is the forced
/// stop, which brings it to Free directly.
pub proof fn lemma_status_follows_cycle(wave: WaveView, channel: u8, reported: WaveStatus)
    requires
        wave.wf(),
    ensures
        wave.status == WaveStatus::Free ==> legal_step(
            wave.status,
            wave.submitted(channel).status,
            wave.looping,
        ),
        wave.accepts(reported) <==> legal_step(wave.status, reported, wave.looping) && (reported
            == wave.status || wave.in_flight()),
        wave.accepts(reported) ==> wave.observed(reported).status == reported,
        !wave.in_flight() ==> legal_step(wave.status, wave.released().status, wave.looping),
        wave.released().status == WaveStatus::Free && wave.released().channel.is_none(),
{
}

/// For a positive frame size, `count` frames fit in `len` bytes exactly when
/// `count` is at most the quotient of `len` by the frame size.
pub proof fn lemma_fits_iff_within_quotient(count: int, frame: int, len: int)
    requires
        0 <= count,
        0 < frame,
        0 <= len,
    ensures
        count * frame <= len <==> count <= len / frame,
{
    assert(count * frame <= len <==> count <= len / frame) by (nonlinear_arith)
        requires
            0 <= count,
            0 < frame,
            0 <= len,
    ;
}

} // verus!
