use ctru_rs::services::ndsp::{
    Encoding, MixerCommand, MixerService, NdspError, PlaybackChannel, SampleFormat, WaveInfo,
    WaveStatus, CHANNEL_COUNT, QUEUE_DEPTH,
};

fn wave(len: usize) -> WaveInfo {
    WaveInfo::new(vec![0u8; len], SampleFormat::new(Encoding::PCM8, 1).unwrap(), false)
}

fn looping_wave(len: usize) -> WaveInfo {
    WaveInfo::new(vec![0u8; len], SampleFormat::new(Encoding::PCM8, 1).unwrap(), true)
}

fn mixer() -> MixerService {
    MixerService::init(false, 0).unwrap()
}

#[test]
fn init_fails_when_already_owned_or_absent() {
    assert_eq!(MixerService::init(true, 0).err(), Some(NdspError::AlreadyInitialized));
    assert_eq!(MixerService::init(true, -1).err(), Some(NdspError::AlreadyInitialized));
    assert_eq!(MixerService::init(false, -1).err(), Some(NdspError::HardwareUnavailable));
    assert_eq!(MixerService::init(false, i32::MIN).err(), Some(NdspError::HardwareUnavailable));
    assert!(MixerService::init(false, 0).is_ok());
    assert!(MixerService::init(false, 5).is_ok());
}

#[test]
fn pool_starts_idle() {
    let service: MixerService = mixer();
    assert_eq!(CHANNEL_COUNT, 24);
    let mut id: u8 = 0;
    while id < CHANNEL_COUNT {
        let channel: &PlaybackChannel = service.channel(id).unwrap();
        assert_eq!(channel.id(), id);
        assert_eq!(channel.len(), 0);
        assert!(!channel.is_playing());
        assert!(!channel.is_active());
        assert!(channel.wave(0).is_none());
        id += 1;
    }
}

#[test]
fn channel_ids_are_bounds_checked() {
    let mut service: MixerService = mixer();
    assert_eq!(service.channel(24).err(), Some(NdspError::InvalidChannelId));
    assert_eq!(service.channel(255).err(), Some(NdspError::InvalidChannelId));
    assert_eq!(service.channel_mut(24).err(), Some(NdspError::InvalidChannelId));
    assert!(service.channel(23).is_ok());
    assert!(service.channel_mut(0).is_ok());
}

#[test]
fn enqueue_appends_in_submission_order() {
    let mut service: MixerService = mixer();
    let channel: &mut PlaybackChannel = service.channel_mut(4).unwrap();
    let commands: Vec<MixerCommand> = channel.enqueue(wave(10)).unwrap();
    assert_eq!(
        commands,
        vec![
            MixerCommand::FlushDataCache { len: 10 },
            MixerCommand::WaveBufAdd { channel: 4 },
        ]
    );
    let commands: Vec<MixerCommand> = channel.enqueue(wave(20)).unwrap();
    assert_eq!(
        commands,
        vec![
            MixerCommand::FlushDataCache { len: 20 },
            MixerCommand::WaveBufAdd { channel: 4 },
        ]
    );
    assert_eq!(channel.len(), 2);
    assert_eq!(channel.wave(0).unwrap().get_buffer().len(), 10);
    assert_eq!(channel.wave(1).unwrap().get_buffer().len(), 20);
    assert_eq!(channel.wave(0).unwrap().get_status(), WaveStatus::Queued);
    assert_eq!(channel.wave(1).unwrap().get_status(), WaveStatus::Queued);
    assert_eq!(channel.wave(0).unwrap().channel_binding(), Some(4));
    assert_eq!(channel.wave(1).unwrap().channel_binding(), Some(4));
    assert!(channel.wave(2).is_none());
    assert_eq!(channel.id(), 4);
    assert_eq!(service.channel(4).unwrap().len(), 2);
    assert_eq!(service.channel(3).unwrap().len(), 0);
}

#[test]
fn full_queue_refuses_and_stays_unchanged() {
    assert_eq!(QUEUE_DEPTH, 2);
    let mut service: MixerService = mixer();
    let channel: &mut PlaybackChannel = service.channel_mut(0).unwrap();
    channel.enqueue(wave(1)).unwrap();
    channel.enqueue(wave(2)).unwrap();
    let (error, back): (NdspError, WaveInfo) = channel.enqueue(wave(3)).unwrap_err();
    assert_eq!(error, NdspError::QueueFull);
    assert_eq!(back.get_buffer().len(), 3);
    assert_eq!(back.get_status(), WaveStatus::Free);
    assert_eq!(back.channel_binding(), None);
    assert_eq!(channel.len(), 2);
    assert_eq!(channel.wave(0).unwrap().get_buffer().len(), 1);
    assert_eq!(channel.wave(1).unwrap().get_buffer().len(), 2);
    assert_eq!(channel.wave(0).unwrap().get_status(), WaveStatus::Queued);
    assert_eq!(channel.wave(1).unwrap().get_status(), WaveStatus::Queued);
    assert!(!channel.is_active());
}

#[test]
fn done_wave_keeps_its_slot_until_reclaimed() {
    let mut service: MixerService = mixer();
    let channel: &mut PlaybackChannel = service.channel_mut(1).unwrap();
    channel.enqueue(wave(1)).unwrap();
    channel.enqueue(wave(2)).unwrap();
    let (error, c): (NdspError, WaveInfo) = channel.enqueue(wave(3)).unwrap_err();
    assert_eq!(error, NdspError::QueueFull);

    assert_eq!(channel.observe(2), Ok(WaveStatus::Playing));
    assert_eq!(channel.observe(3), Ok(WaveStatus::Done));
    assert_eq!(channel.wave(0).unwrap().get_status(), WaveStatus::Done);
    assert_eq!(channel.wave(0).unwrap().channel_binding(), None);
    assert_eq!(channel.len(), 2);
    let (error, c): (NdspError, WaveInfo) = channel.enqueue(c).unwrap_err();
    assert_eq!(error, NdspError::QueueFull);
    assert_eq!(channel.len(), 2);

    let (a, commands): (WaveInfo, Vec<MixerCommand>) = channel.reclaim().unwrap();
    assert_eq!(commands, vec![MixerCommand::InvalidateDataCache { len: 1 }]);
    assert_eq!(a.get_status(), WaveStatus::Free);
    assert_eq!(a.channel_binding(), None);
    assert_eq!(a.get_buffer().len(), 1);
    assert_eq!(channel.len(), 1);
    assert_eq!(channel.wave(0).unwrap().get_buffer().len(), 2);

    assert!(channel.enqueue(c).is_ok());
    assert_eq!(channel.len(), 2);
    assert_eq!(channel.wave(1).unwrap().get_buffer().len(), 3);
}

#[test]
fn reclaim_takes_only_a_finished_head() {
    let mut service: MixerService = mixer();
    let channel: &mut PlaybackChannel = service.channel_mut(2).unwrap();
    assert!(channel.reclaim().is_none());
    channel.enqueue(wave(5)).unwrap();
    assert!(channel.reclaim().is_none());
    assert_eq!(channel.observe(2), Ok(WaveStatus::Playing));
    assert!(channel.reclaim().is_none());
    assert_eq!(channel.len(), 1);
    assert_eq!(channel.wave(0).unwrap().get_status(), WaveStatus::Playing);
    assert_eq!(channel.observe(3), Ok(WaveStatus::Done));
    assert!(channel.reclaim().is_some());
    assert_eq!(channel.len(), 0);
    assert!(channel.reclaim().is_none());
}

#[test]
fn only_the_head_plays() {
    let mut service: MixerService = mixer();
    let channel: &mut PlaybackChannel = service.channel_mut(3).unwrap();
    assert!(!channel.is_playing());
    channel.enqueue(wave(1)).unwrap();
    channel.enqueue(wave(2)).unwrap();
    assert!(!channel.is_playing());
    assert_eq!(channel.observe(2), Ok(WaveStatus::Playing));
    assert!(channel.is_playing());
    assert!(channel.is_active());
    assert_eq!(channel.wave(0).unwrap().get_status(), WaveStatus::Playing);
    assert_eq!(channel.wave(1).unwrap().get_status(), WaveStatus::Queued);
    assert_eq!(channel.observe(3), Ok(WaveStatus::Done));
    assert!(!channel.is_playing());
    assert!(!channel.is_active());
    assert_eq!(channel.wave(1).unwrap().get_status(), WaveStatus::Queued);
    channel.reclaim().unwrap();
    assert!(!channel.is_playing());
    assert_eq!(channel.observe(2), Ok(WaveStatus::Playing));
    assert!(channel.is_playing());
    assert_eq!(channel.wave(0).unwrap().get_buffer().len(), 2);
}

#[test]
fn channel_rejects_reports_off_the_cycle() {
    let mut service: MixerService = mixer();
    let channel: &mut PlaybackChannel = service.channel_mut(3).unwrap();
    assert_eq!(channel.observe(0), Err(NdspError::HardwareFault));
    assert_eq!(channel.observe(2), Err(NdspError::HardwareFault));
    channel.enqueue(looping_wave(4)).unwrap();
    assert_eq!(channel.observe(3), Err(NdspError::HardwareFault));
    assert_eq!(channel.observe(9), Err(NdspError::HardwareFault));
    assert_eq!(channel.observe(0), Err(NdspError::HardwareFault));
    assert_eq!(channel.wave(0).unwrap().get_status(), WaveStatus::Queued);
    assert!(!channel.is_active());
    assert_eq!(channel.observe(2), Ok(WaveStatus::Playing));
    assert_eq!(channel.observe(3), Err(NdspError::HardwareFault));
    assert!(channel.is_active());
    assert_eq!(channel.wave(0).unwrap().get_status(), WaveStatus::Playing);
}

#[test]
fn clear_frees_every_wave() {
    let mut service: MixerService = mixer();
    let channel: &mut PlaybackChannel = service.channel_mut(8).unwrap();
    channel.enqueue(looping_wave(6)).unwrap();
    channel.enqueue(wave(7)).unwrap();
    assert_eq!(channel.observe(2), Ok(WaveStatus::Playing));
    let (waves, commands): (Vec<WaveInfo>, Vec<MixerCommand>) = channel.clear();
    assert_eq!(
        commands,
        vec![
            MixerCommand::WaveBufClear { channel: 8 },
            MixerCommand::InvalidateDataCache { len: 6 },
            MixerCommand::WaveBufClear { channel: 8 },
            MixerCommand::InvalidateDataCache { len: 7 },
        ]
    );
    assert_eq!(waves.len(), 2);
    assert_eq!(waves[0].get_buffer().len(), 6);
    assert_eq!(waves[1].get_buffer().len(), 7);
    for w in waves.iter() {
        assert_eq!(w.get_status(), WaveStatus::Free);
        assert_eq!(w.channel_binding(), None);
    }
    assert_eq!(channel.len(), 0);
    assert!(!channel.is_playing());
    assert!(!channel.is_active());
    assert_eq!(channel.id(), 8);
    assert!(channel.enqueue(wave(1)).is_ok());
}

#[test]
fn clear_of_a_finished_head_does_not_stop_it_again() {
    let mut service: MixerService = mixer();
    let channel: &mut PlaybackChannel = service.channel_mut(8).unwrap();
    channel.enqueue(wave(6)).unwrap();
    channel.enqueue(wave(7)).unwrap();
    assert_eq!(channel.observe(2), Ok(WaveStatus::Playing));
    assert_eq!(channel.observe(3), Ok(WaveStatus::Done));
    let (waves, commands): (Vec<WaveInfo>, Vec<MixerCommand>) = channel.clear();
    assert_eq!(
        commands,
        vec![
            MixerCommand::InvalidateDataCache { len: 6 },
            MixerCommand::WaveBufClear { channel: 8 },
            MixerCommand::InvalidateDataCache { len: 7 },
        ]
    );
    assert_eq!(waves.len(), 2);
    assert_eq!(waves[0].get_status(), WaveStatus::Free);
    assert_eq!(waves[1].get_status(), WaveStatus::Free);
}

#[test]
fn clear_of_an_empty_queue_does_nothing() {
    let mut service: MixerService = mixer();
    let channel: &mut PlaybackChannel = service.channel_mut(0).unwrap();
    let (waves, commands): (Vec<WaveInfo>, Vec<MixerCommand>) = channel.clear();
    assert!(waves.is_empty());
    assert!(commands.is_empty());
}

#[test]
fn channels_do_not_share_queues() {
    let mut service: MixerService = mixer();
    service.channel_mut(0).unwrap().enqueue(wave(1)).unwrap();
    service.channel_mut(0).unwrap().enqueue(wave(2)).unwrap();
    assert!(service.channel_mut(0).unwrap().enqueue(wave(3)).is_err());
    assert!(service.channel_mut(1).unwrap().enqueue(wave(3)).is_ok());
    assert_eq!(service.channel(1).unwrap().wave(0).unwrap().channel_binding(), Some(1));
    assert_eq!(service.channel(0).unwrap().len(), 2);
    assert_eq!(service.channel(1).unwrap().len(), 1);
}

#[test]
fn teardown_clears_every_channel_before_exit() {
    let mut service: MixerService = mixer();
    service.channel_mut(23).unwrap().enqueue(wave(30)).unwrap();
    service.channel_mut(2).unwrap().enqueue(wave(10)).unwrap();
    service.channel_mut(2).unwrap().enqueue(wave(20)).unwrap();
    assert_eq!(service.channel_mut(2).unwrap().observe(2), Ok(WaveStatus::Playing));
    let (waves, commands): (Vec<WaveInfo>, Vec<MixerCommand>) = service.teardown();
    assert_eq!(
        commands,
        vec![
            MixerCommand::WaveBufClear { channel: 2 },
            MixerCommand::InvalidateDataCache { len: 10 },
            MixerCommand::WaveBufClear { channel: 2 },
            MixerCommand::InvalidateDataCache { len: 20 },
            MixerCommand::WaveBufClear { channel: 23 },
            MixerCommand::InvalidateDataCache { len: 30 },
            MixerCommand::Exit,
        ]
    );
    assert_eq!(waves.len(), 3);
    assert_eq!(waves[0].get_buffer().len(), 10);
    assert_eq!(waves[1].get_buffer().len(), 20);
    assert_eq!(waves[2].get_buffer().len(), 30);
    for w in waves.iter() {
        assert_eq!(w.get_status(), WaveStatus::Free);
        assert_eq!(w.channel_binding(), None);
    }
}

#[test]
fn teardown_of_an_idle_mixer_only_exits() {
    let (waves, commands): (Vec<WaveInfo>, Vec<MixerCommand>) = mixer().teardown();
    assert!(waves.is_empty());
    assert_eq!(commands, vec![MixerCommand::Exit]);
}
