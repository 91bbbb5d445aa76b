//! Playback channels and their submission queues.

use vstd::prelude::*;

use super::command::MixerCommand;
use super::error::NdspError;
use super::wave::{status_of_code, WaveInfo, WaveStatus, WaveView};

verus! {

/// How many waves the hardware queue of one channel takes.
pub const QUEUE_DEPTH: usize = 2;

/// The views of a sequence of waves, in the same order.
pub open spec fn wave_views(waves: Seq<WaveInfo>) -> Seq<WaveView> {
    Seq::new(waves.len(), |i: int| waves[i]@)
}

/// The commands that take every wave of `queue` back from the mixer: those of
/// the first wave, then those of the second, and so on.
pub open spec fn release_all_commands(queue: Seq<WaveView>) -> Seq<MixerCommand>
    decreases queue.len(),
{
    if queue.len() == 0 {
        Seq::empty()
    } else {
        release_all_commands(queue.drop_last()) + queue.last().release_commands()
    }
}

/// The waves of `queue`, each taken back from the mixer.
pub open spec fn released_all(queue: Seq<WaveView>) -> Seq<WaveView> {
    Seq::new(queue.len(), |i: int| queue[i].released())
}

/// What a [`PlaybackChannel`] is, mathematically.
pub struct ChannelView {
    /// The channel's id, fixed for its whole life.
    pub id: u8,
    /// The waves submitted and not yet taken back, oldest first.
    pub queue: Seq<WaveView>,
    /// Whether the mixer is playing the head of the queue.
    pub active: bool,
}

impl ChannelView {
    /// Whether the head of the queue is playing.
    pub open spec fn is_playing(self) -> bool {
        self.queue.len() > 0 && self.queue[0].status == WaveStatus::Playing
    }

    /// The invariant of every channel: the queue is within the hardware's
    /// depth; it holds no free wave; each wave in flight is bound to this
    /// channel; the mixer has not gone past the head, so every wave behind
    /// it is still queued; and the channel is active exactly while its head
    /// plays.
    pub open spec fn wf(self) -> bool {
        &&& self.queue.len() <= QUEUE_DEPTH
        &&& forall|i: int|
            0 <= i < self.queue.len() ==> {
                &&& (#[trigger] self.queue[i]).wf()
                &&& self.queue[i].status != WaveStatus::Free
                &&& self.queue[i].in_flight() ==> self.queue[i].channel == Some(self.id)
            }
        &&& forall|i: int|
            1 <= i < self.queue.len() ==> (#[trigger] self.queue[i]).status == WaveStatus::Queued
        &&& self.active == self.is_playing()
    }
}

/// One output lane of the mixer, with the queue of waves submitted to it.
///
/// The channel owns the waves in its queue: a wave moves in with
/// [`PlaybackChannel::enqueue`] and comes back with
/// [`PlaybackChannel::reclaim`] or [`PlaybackChannel::clear`].
#[derive(Debug)]
pub struct PlaybackChannel {
    id: u8,
    queue: Vec<WaveInfo>,
    active: bool,
}

impl View for PlaybackChannel {
    type V = ChannelView;

    closed spec fn view(&self) -> ChannelView {
        ChannelView { id: self.id, queue: wave_views(self.queue@), active: self.active }
    }
}

impl PlaybackChannel {
    /// Whether the channel satisfies its invariant.
    pub open spec fn wf(&self) -> bool {
        self@.wf()
    }

    /// An idle channel with an empty queue.
    pub(crate) fn new(id: u8) -> (channel: PlaybackChannel)
        ensures
            channel.wf(),
            channel@ == (ChannelView { id, queue: Seq::empty(), active: false }),
    {
        let channel = PlaybackChannel { id, queue: Vec::new(), active: false };
        assert(channel@.queue =~= Seq::empty());
        channel
    }

    /// The channel's id.
    pub fn id(&self) -> (id: u8)
        ensures
            id == self@.id,
    {
        self.id
    }

    /// How many waves the queue holds.
    pub fn len(&self) -> (len: usize)
        ensures
            len == self@.queue.len(),
    {
        self.queue.len()
    }

    /// The wave at place `slot` of the queue, the head being at place 0.
    pub fn wave(&self, slot: usize) -> (wave: Option<&WaveInfo>)
        ensures
            wave.is_some() <==> slot < self@.queue.len(),
            wave matches Some(w) ==> w@ == self@.queue[slot as int],
    {
        if slot < self.queue.len() {
            Some(&self.queue[slot])
        } else {
            None
        }
    }

    /// Whether the mixer is playing the head of the queue.
    pub fn is_playing(&self) -> (playing: bool)
        ensures
            playing == self@.is_playing(),
    {
        self.queue.len() > 0 && self.queue[0].get_status() == WaveStatus::Playing
    }

    /// Whether the hardware is executing this channel's queue.
    pub fn is_active(&self) -> (active: bool)
        ensures
            active == self@.active,
    {
        self.active
    }

    /// Submits a free wave at the tail of the queue.
    ///
    /// With room in the queue the wave becomes queued and bound to this
    /// channel, and the commands to issue are returned. A full queue refuses
    /// with `QueueFull`, hands the wave back untouched and stays as it was.
    pub fn enqueue(&mut self, wave: WaveInfo) -> (r: Result<Vec<MixerCommand>, (NdspError, WaveInfo)>)
        requires
            old(self).wf(),
            wave.wf(),
            wave@.status == WaveStatus::Free,
        ensures
            final(self).wf(),
            old(self)@.queue.len() >= QUEUE_DEPTH ==> {
                &&& r == Err::<Vec<MixerCommand>, (NdspError, WaveInfo)>((NdspError::QueueFull, wave))
                &&& final(self)@ == old(self)@
            },
            old(self)@.queue.len() < QUEUE_DEPTH ==> {
                &&& r.is_ok()
                &&& r.unwrap()@ == wave@.submit_commands(old(self)@.id)
                &&& final(self)@ == (ChannelView {
                    queue: old(self)@.queue.push(wave@.submitted(old(self)@.id)),
                    ..old(self)@
                })
            },
    {
        if self.queue.len() >= QUEUE_DEPTH {
            return Err((NdspError::QueueFull, wave));
        }
        let mut wave = wave;
        let commands = wave.submit(self.id);
        self.queue.push(wave);
        assert(final(self)@.queue =~= old(self)@.queue.push(wave@));
        Ok(commands)
    }

    /// Takes in what the hardware's status field of the head wave was read as.
    ///
    /// The head follows the rules of [`WaveInfo::observe`], and the channel is
    /// active afterwards exactly if the head plays. Any value is a hardware
    /// fault while the queue is empty. A fault leaves the channel as it was.
    pub fn observe(&mut self, code: u8) -> (r: Result<WaveStatus, NdspError>)
        requires
            old(self).wf(),
        ensures
            final(self).wf(),
            r == match status_of_code(code) {
                Some(reported) if old(self)@.queue.len() > 0 && old(self)@.queue[0].accepts(
                    reported,
                ) => Ok::<WaveStatus, NdspError>(reported),
                _ => Err::<WaveStatus, NdspError>(NdspError::HardwareFault),
            },
            final(self)@ == match r {
                Ok(reported) => ChannelView {
                    queue: old(self)@.queue.update(0, old(self)@.queue[0].observed(reported)),
                    active: reported == WaveStatus::Playing,
                    ..old(self)@
                },
                Err(_) => old(self)@,
            },
    {
        if self.queue.len() == 0 {
            return Err(NdspError::HardwareFault);
        }
        assert(old(self)@.queue[0] == self.queue@[0]@);
        let r = self.queue[0].observe(code);
        match r {
            Ok(reported) => {
                self.active = reported == WaveStatus::Playing;
                assert(final(self)@.queue =~= old(self)@.queue.update(
                    0,
                    old(self)@.queue[0].observed(reported),
                ));
            },
            Err(_) => {
                assert(final(self)@.queue =~= old(self)@.queue);
            },
        }
        r
    }

    /// Takes a finished head wave out of the queue and frees its slot.
    ///
    /// If the head is done, it comes back free, with the commands to issue
    /// before its region is used again. Otherwise nothing changes: a wave
    /// that is done keeps its slot until it is reclaimed, and a wave in
    /// flight leaves only through [`PlaybackChannel::clear`].
    pub fn reclaim(&mut self) -> (r: Option<(WaveInfo, Vec<MixerCommand>)>)
        requires
            old(self).wf(),
        ensures
            final(self).wf(),
            r.is_some() <==> old(self)@.queue.len() > 0 && old(self)@.queue[0].status
                == WaveStatus::Done,
            r matches Some((wave, commands)) ==> {
                &&& wave.wf()
                &&& wave@ == old(self)@.queue[0].released()
                &&& commands@ == old(self)@.queue[0].release_commands()
                &&& final(self)@ == (ChannelView {
                    queue: old(self)@.queue.drop_first(),
                    ..old(self)@
                })
            },
            r.is_none() ==> final(self)@ == old(self)@,
    {
        if self.queue.len() > 0 && self.queue[0].get_status() == WaveStatus::Done {
            assert(old(self)@.queue[0] == self.queue@[0]@);
            let mut wave = self.queue.remove(0);
            let commands = wave.reset();
            assert(final(self)@.queue =~= old(self)@.queue.drop_first());
            assert(forall|i: int|
                0 <= i < final(self)@.queue.len() ==> final(self)@.queue[i] == old(self)@.queue[i
                    + 1]);
            Some((wave, commands))
        } else {
            None
        }
    }

    /// Empties the queue, stopping whatever is in flight.
    ///
    /// Every wave of the queue comes back free and unbound, in queue order,
    /// with the commands to issue before any of the regions is used again.
    pub fn clear(&mut self) -> (r: (Vec<WaveInfo>, Vec<MixerCommand>))
        requires
            old(self).wf(),
        ensures
            final(self).wf(),
            final(self)@ == (ChannelView { queue: Seq::empty(), active: false, ..old(self)@ }),
            r.0@.len() == old(self)@.queue.len(),
            wave_views(r.0@) == released_all(old(self)@.queue),
            forall|i: int|
                0 <= i < r.0@.len() ==> {
                    &&& (#[trigger] r.0@[i]).wf()
                    &&& r.0@[i]@.status == WaveStatus::Free
                    &&& r.0@[i]@.channel.is_none()
                },
            r.1@ == release_all_commands(old(self)@.queue),
    {
        let ghost queue = self@.queue;
        let mut waves: Vec<WaveInfo> = Vec::new();
        let mut commands: Vec<MixerCommand> = Vec::new();
        while self.queue.len() > 0
            invariant
                queue.len() == waves@.len() + self.queue@.len(),
                wave_views(self.queue@) =~= queue.skip(waves@.len() as int),
                wave_views(waves@) =~= released_all(queue.take(waves@.len() as int)),
                commands@ == release_all_commands(queue.take(waves@.len() as int)),
                forall|i: int| 0 <= i < queue.len() ==> (#[trigger] queue[i]).wf(),
                forall|i: int| 0 <= i < waves@.len() ==> (#[trigger] waves@[i]).wf(),
                self.id == old(self).id,
            decreases self.queue@.len(),
        {
            let ghost done = waves@.len() as int;
            let ghost pending = self.queue@;
            let ghost taken = waves@;
            assert(wave_views(pending)[0] == queue.skip(done)[0]);
            let mut wave = self.queue.remove(0);
            let mut step = wave.reset();
            commands.append(&mut step);
            waves.push(wave);
            proof {
                assert(queue.take(done + 1).drop_last() =~= queue.take(done));
                assert(queue.take(done + 1).last() == queue[done]);
                assert forall|i: int| 0 <= i < self.queue@.len() implies wave_views(
                    self.queue@,
                )[i] == queue.skip(done + 1)[i] by {
                    assert(wave_views(pending)[i + 1] == queue.skip(done)[i + 1]);
                }
                assert forall|i: int| 0 <= i < waves@.len() implies wave_views(waves@)[i]
                    == released_all(queue.take(done + 1))[i] by {
                    if i < done {
                        assert(wave_views(taken)[i] == released_all(queue.take(done))[i]);
                    }
                }
            }
        }
        self.active = false;
        proof {
            assert(queue.take(queue.len() as int) =~= queue);
            assert(final(self)@.queue =~= Seq::empty());
            assert forall|i: int| 0 <= i < waves@.len() implies (#[trigger] waves@[i])@.status
                == WaveStatus::Free && waves@[i]@.channel.is_none() by {
                assert(wave_views(waves@)[i] == released_all(queue)[i]);
            }
        }
        (waves, commands)
    }
}

} // verus!
