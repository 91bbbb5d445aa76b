//! The mixer service: the owner of the channel pool.

use vstd::prelude::*;

use super::channel::{
    release_all_commands, released_all, wave_views, ChannelView, PlaybackChannel,
};
use super::command::MixerCommand;
use super::error::NdspError;
use super::wave::{WaveInfo, WaveStatus, WaveView};

verus! {

/// How many channels the mixer has.
pub const CHANNEL_COUNT: u8 = 24;

/// The views of a sequence of channels, in the same order.
pub open spec fn channel_views(channels: Seq<PlaybackChannel>) -> Seq<ChannelView> {
    Seq::new(channels.len(), |i: int| channels[i]@)
}

/// The channel pool right after the mixer was acquired: every channel idle, with an empty queue.
pub open spec fn idle_pool() -> Seq<ChannelView> {
    Seq::new(
        CHANNEL_COUNT as nat,
        |i: int| ChannelView { id: i as u8, queue: Seq::empty(), active: false },
    )
}

/// The waves of all the queues: those of the first channel in queue order,
/// then those of the second, and so on.
pub open spec fn all_queued(channels: Seq<ChannelView>) -> Seq<WaveView>
    decreases channels.len(),
{
    if channels.len() == 0 {
        Seq::empty()
    } else {
        all_queued(channels.drop_last()) + channels.last().queue
    }
}

/// The commands that shut the mixer down: every wave of every queue is taken
/// back first, and only then is the hardware given up.
pub open spec fn shutdown_commands(channels: Seq<ChannelView>) -> Seq<MixerCommand> {
    release_all_commands(all_queued(channels)).push(MixerCommand::Exit)
}

/// Whether a pool of channels is the mixer's: one channel for each id, in
/// the order of their ids, each satisfying its invariant.
pub open spec fn pool_wf(channels: Seq<ChannelView>) -> bool {
    &&& channels.len() == CHANNEL_COUNT
    &&& forall|i: int|
        0 <= i < channels.len() ==> (#[trigger] channels[i]).wf() && channels[i].id == i
}

/// The mixer, acquired: it owns the pool of channels for as long as it lives.
#[derive(Debug)]
pub struct MixerService {
    channels: Vec<PlaybackChannel>,
}

impl View for MixerService {
    type V = Seq<ChannelView>;

    closed spec fn view(&self) -> Seq<ChannelView> {
        channel_views(self.channels@)
    }
}

impl MixerService {
    /// Whether the service satisfies its invariant.
    pub open spec fn wf(&self) -> bool {
        pool_wf(self@)
    }

    /// Decides how acquiring the mixer ends.
    ///
    /// `already_initialized` says whether this process owns the mixer
    /// already, and `hardware_code` is the result code with which the
    /// hardware answered the request. Owning it already is
    /// `AlreadyInitialized`; otherwise a negative code is
    /// `HardwareUnavailable`; otherwise the service starts with its whole
    /// pool idle.
    pub fn init(already_initialized: bool, hardware_code: i32) -> (r: Result<
        MixerService,
        NdspError,
    >)
        ensures
            already_initialized ==> r.is_err() && r.unwrap_err() == NdspError::AlreadyInitialized,
            !already_initialized && hardware_code < 0 ==> r.is_err() && r.unwrap_err()
                == NdspError::HardwareUnavailable,
            !already_initialized && hardware_code >= 0 ==> r.is_ok() && r.unwrap().wf()
                && r.unwrap()@ == idle_pool(),
    {
        if already_initialized {
            return Err(NdspError::AlreadyInitialized);
        }
        if hardware_code < 0 {
            return Err(NdspError::HardwareUnavailable);
        }
        let mut channels: Vec<PlaybackChannel> = Vec::new();
        let mut id: u8 = 0;
        while id < CHANNEL_COUNT
            invariant
                id <= CHANNEL_COUNT,
                channels@.len() == id,
                forall|i: int|
                    0 <= i < id ==> (#[trigger] channels@[i]).wf() && channels@[i]@ == (
                    ChannelView { id: i as u8, queue: Seq::empty(), active: false }),
            decreases CHANNEL_COUNT - id,
        {
            channels.push(PlaybackChannel::new(id));
            id = id + 1;
        }
        let service = MixerService { channels };
        assert(service@ =~= idle_pool());
        Ok(service)
    }

    /// The channel with the given id.
    pub fn channel(&self, id: u8) -> (r: Result<&PlaybackChannel, NdspError>)
        requires
            self.wf(),
        ensures
            id >= CHANNEL_COUNT ==> r.is_err() && r.unwrap_err() == NdspError::InvalidChannelId,
            id < CHANNEL_COUNT ==> r.is_ok() && r.unwrap()@ == self@[id as int],
    {
        if id >= CHANNEL_COUNT {
            return Err(NdspError::InvalidChannelId);
        }
        Ok(&self.channels[id as usize])
    }

    /// The channel with the given id, for submitting to it and taking from it.
    ///
    /// What the caller does to the channel is what happens to the pool.
    pub fn channel_mut(&mut self, id: u8) -> (r: Result<&mut PlaybackChannel, NdspError>)
        requires
            old(self).wf(),
        ensures
            id >= CHANNEL_COUNT ==> r.is_err() && r.unwrap_err() == NdspError::InvalidChannelId
                && final(self)@ == old(self)@,
            id < CHANNEL_COUNT ==> r.is_ok() && r.unwrap()@ == old(self)@[id as int] && final(
                self)@ == old(self)@.update(id as int, final(r.unwrap())@),
    {
        if id >= CHANNEL_COUNT {
            return Err(NdspError::InvalidChannelId);
        }
        Ok(&mut self.channels[id as usize])
    }

    /// Shuts the mixer down.
    ///
    /// Every channel is cleared, in the order of the ids, and the hardware is
    /// given up last. Returns all the waves that were queued, free and
    /// unbound, and the commands to issue.
    pub fn teardown(self) -> (r: (Vec<WaveInfo>, Vec<MixerCommand>))
        requires
            self.wf(),
        ensures
            r.0@.len() == all_queued(self@).len(),
            wave_views(r.0@) == released_all(all_queued(self@)),
            forall|i: int|
                0 <= i < r.0@.len() ==> {
                    &&& (#[trigger] r.0@[i]).wf()
                    &&& r.0@[i]@.status == WaveStatus::Free
                    &&& r.0@[i]@.channel.is_none()
                },
            r.1@ == shutdown_commands(self@),
    {
        let ghost pool = self@;
        let mut channels = self.channels;
        let mut waves: Vec<WaveInfo> = Vec::new();
        let mut commands: Vec<MixerCommand> = Vec::new();
        let mut next: usize = 0;
        while next < channels.len()
            invariant
                next <= channels@.len(),
                channels@.len() == pool.len(),
                forall|i: int| next <= i < pool.len() ==> (#[trigger] channels@[i])@ == pool[i],
                forall|i: int| 0 <= i < pool.len() ==> (#[trigger] pool[i]).wf(),
                wave_views(waves@) =~= released_all(all_queued(pool.take(next as int))),
                forall|i: int| 0 <= i < waves@.len() ==> (#[trigger] waves@[i]).wf(),
                commands@ == release_all_commands(all_queued(pool.take(next as int))),
            decreases channels@.len() - next,
        {
            let ghost before = waves@;
            let ghost pending = channels@;
            let (mut freed, mut step) = channels[next].clear();
            proof {
                let done = all_queued(pool.take(next as int));
                let queue = pool[next as int].queue;
                assert(pending[next as int]@ == pool[next as int]);
                assert(pool.take(next + 1).drop_last() =~= pool.take(next as int));
                assert(pool.take(next + 1).last() == pool[next as int]);
                assert(all_queued(pool.take(next + 1)) == done + queue);
                lemma_release_all_commands_concat(done, queue);
                assert(released_all(done + queue) =~= released_all(done) + released_all(queue));
                assert forall|i: int| next < i < pool.len() implies (#[trigger] channels@[i])@
                    == pool[i] by {
                    assert(pending[i]@ == pool[i]);
                }
                assert forall|i: int| 0 <= i < (before + freed@).len() implies wave_views(
                    before + freed@,
                )[i] == (released_all(done) + released_all(queue))[i] by {
                    if i < before.len() {
                        assert(wave_views(before)[i] == released_all(done)[i]);
                    } else {
                        assert(wave_views(freed@)[i - before.len()] == released_all(queue)[i
                            - before.len()]);
                    }
                }
            }
            waves.append(&mut freed);
            commands.append(&mut step);
            next = next + 1;
        }
        commands.push(MixerCommand::Exit);
        proof {
            assert(pool.take(pool.len() as int) =~= pool);
            assert(wave_views(waves@).len() == released_all(all_queued(pool)).len());
            assert forall|i: int| 0 <= i < waves@.len() implies (#[trigger] waves@[i])@.status
                == WaveStatus::Free && waves@[i]@.channel.is_none() by {
                assert(wave_views(waves@)[i] == released_all(all_queued(pool))[i]);
            }
        }
        (waves, commands)
    }
}

/// Taking back the waves of two queues, one after the other, takes the
/// commands of the first queue followed by those of the second.
pub proof fn lemma_release_all_commands_concat(first: Seq<WaveView>, second: Seq<WaveView>)
    ensures
        release_all_commands(first + second) == release_all_commands(first) + release_all_commands(
            second,
        ),
    decreases second.len(),
{
    if second.len() == 0 {
        assert(first + second =~= first);
    } else {
        lemma_release_all_commands_concat(first, second.drop_last());
        assert((first + second).drop_last() =~= first + second.drop_last());
        assert((first + second).last() == second.last());
    }
}

/// Taking waves back never gives up the hardware: each of the commands
/// clears a channel or invalidates a region.
pub proof fn lemma_release_commands_keep_the_hardware(queue: Seq<WaveView>)
    ensures
        forall|i: int|
            0 <= i < release_all_commands(queue).len() ==> (#[trigger] release_all_commands(
                queue,
            )[i]) != MixerCommand::Exit,
    decreases queue.len(),
{
    if queue.len() > 0 {
        lemma_release_commands_keep_the_hardware(queue.drop_last());
    }
}

/// Shutting down gives up the hardware last and once: every command before
/// the last takes a wave back, and the last is `Exit`.
pub proof fn lemma_exit_comes_last(channels: Seq<ChannelView>)
    ensures
        shutdown_commands(channels).last() == MixerCommand::Exit,
        forall|i: int|
            0 <= i < shutdown_commands(channels).len() - 1 ==> (#[trigger] shutdown_commands(
                channels,
            )[i]) != MixerCommand::Exit,
{
    lemma_release_commands_keep_the_hardware(all_queued(channels));
}

} // verus!
