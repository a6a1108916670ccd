use audio_playback::control::Playback;
use audio_playback::error::Error;
use audio_playback::events::PlaybackEvent;
use audio_playback::manager::{needs_adaptation, PlaybackManager};
use audio_playback::memory::MemoryDecoder;
use audio_playback::ring::RingBuffer;
use audio_playback::sample::{silence, Sample};
use audio_playback::timing::{
    frames_to_samples, report_interval_samples, samples_to_millis, saturating_add, SignalSpec,
    TimeBase, REPORT_INTERVAL_MS,
};
use audio_playback::worker::{PacketAttempt, PacketDecoder, WorkerMsg};

fn numbered(n: usize) -> Vec<Sample> {
    let mut v = Vec::with_capacity(n);
    for i in 0..n {
        v.push(Sample { bits: i as u32 });
    }
    v
}

#[test]
fn ring_write_and_read_in_order() {
    let mut r = RingBuffer::new(4);
    assert_eq!(r.capacity_len(), 4);
    assert_eq!(r.len(), 0);
    let data = numbered(3);
    assert_eq!(r.write(&data, 0), 3);
    assert_eq!(r.len(), 3);
    let mut out = vec![silence(); 2];
    assert_eq!(r.read(&mut out), 2);
    assert_eq!(out[0].bits, 0);
    assert_eq!(out[1].bits, 1);
    assert_eq!(r.len(), 1);
}

#[test]
fn ring_partial_write_when_nearly_full() {
    let mut r = RingBuffer::new(4);
    let data = numbered(6);
    assert_eq!(r.write(&data, 0), 4);
    assert_eq!(r.write(&data, 4), 0);
    let mut out = vec![silence(); 1];
    assert_eq!(r.read(&mut out), 1);
    assert_eq!(r.write(&data, 4), 1);
    let mut rest = vec![silence(); 4];
    assert_eq!(r.read(&mut rest), 4);
    assert_eq!(rest[0].bits, 1);
    assert_eq!(rest[1].bits, 2);
    assert_eq!(rest[2].bits, 3);
    assert_eq!(rest[3].bits, 4);
}

#[test]
fn ring_wraps_around_preserving_fifo_order() {
    let mut r = RingBuffer::new(4);
    let data = numbered(10);
    assert_eq!(r.write(&data, 0), 4);
    let mut out = vec![silence(); 3];
    assert_eq!(r.read(&mut out), 3);
    assert_eq!(r.write(&data, 4), 3);
    let mut all = vec![silence(); 4];
    assert_eq!(r.read(&mut all), 4);
    assert_eq!(all[0].bits, 3);
    assert_eq!(all[1].bits, 4);
    assert_eq!(all[2].bits, 5);
    assert_eq!(all[3].bits, 6);
}

#[test]
fn ring_clear_empties_the_buffer() {
    let mut r = RingBuffer::new(8);
    let data = numbered(5);
    assert_eq!(r.write(&data, 0), 5);
    r.clear();
    assert_eq!(r.len(), 0);
    let mut out = vec![silence(); 4];
    assert_eq!(r.read(&mut out), 0);
}

#[test]
fn samples_to_millis_exact_values() {
    let tb = TimeBase { numer: 1, denom: 44100 };
    // one second of stereo audio at 44.1 kHz
    assert_eq!(samples_to_millis(tb, 2, 88200), 1000);
    // half a second, mono
    assert_eq!(samples_to_millis(tb, 1, 22050), 500);
    // rounding is downward
    assert_eq!(samples_to_millis(tb, 1, 44), 0);
    assert_eq!(samples_to_millis(tb, 1, 45), 1);
}

#[test]
fn report_interval_is_nine_tenths_of_a_second() {
    assert_eq!(REPORT_INTERVAL_MS, 900);
    let interval = report_interval_samples(SignalSpec { rate: 44100, channels: 2 });
    assert_eq!(interval, 44100 * 2 * 900 / 1000);
    let mono = report_interval_samples(SignalSpec { rate: 48000, channels: 1 });
    assert_eq!(mono, 43200);
}

#[test]
fn saturating_counters_stop_at_the_top() {
    assert_eq!(saturating_add(u64::MAX - 1, 1), u64::MAX);
    assert_eq!(saturating_add(u64::MAX, 5), u64::MAX);
    assert_eq!(saturating_add(3, 4), 7);
    assert_eq!(frames_to_samples(1000, 2), 2000);
    assert_eq!(frames_to_samples(u64::MAX, 2), u64::MAX);
}

#[test]
fn error_messages_name_the_failure() {
    assert_eq!(Error::MediaFileNotFound.message(), "Audio file not found");
    assert_eq!(Error::MediaFileProbeError.message(), "Audio file failed to probe");
    assert_eq!(Error::MediaFileSeekError.message(), "Audio file failed to seek");
    assert_eq!(Error::SendError.message(), "Failed to send into a channel");
    assert_eq!(Error::ResamplingError(-3).message(), "Resampling failed");
    assert_eq!(Error::IoError(String::from("gone")).message(), "Audio file I/O failed");
}

#[test]
fn initialization_happens_once_and_failures_are_remembered() {
    let mut p = Playback::new();
    assert!(p.can_operate().is_err());
    assert!(p.on_initialize(Ok(())).is_ok());
    assert!(p.can_operate().is_ok());
    // a second initialization is refused
    let again = p.on_initialize(Ok(()));
    match again {
        Err(Error::AudioOutputError(m)) => {
            assert_eq!(m, "Audio playback already is initialized")
        },
        other => panic!("expected a refusal, got {:?}", other),
    }

    let mut failed = Playback::new();
    let outcome = failed.on_initialize(Err(String::from("no default device")));
    match outcome {
        Err(Error::AudioOutputError(m)) => assert_eq!(m, "no default device"),
        other => panic!("expected the device error, got {:?}", other),
    }
    // every later command fails fast with the remembered error
    match failed.can_operate() {
        Err(Error::AudioOutputError(m)) => assert_eq!(m, "no default device"),
        other => panic!("expected the remembered error, got {:?}", other),
    }
}

#[test]
fn manager_tracks_the_single_session() {
    let (event_tx, event_rx) = crossbeam_channel::unbounded::<PlaybackEvent>();
    let mut m = PlaybackManager::new(event_tx);
    assert_eq!(m.playing_file(), None);
    assert!(!m.seek(1000));
    assert!(!m.stop());

    let (worker_tx, worker_rx) = crossbeam_channel::unbounded::<WorkerMsg>();
    m.start_session(String::from("song.flac"), worker_tx);
    assert_eq!(m.playing_file(), Some(String::from("song.flac")));

    assert!(m.seek(2500));
    assert!(matches!(worker_rx.try_recv(), Ok(WorkerMsg::Seek(2500))));
    match event_rx.try_recv() {
        Ok(PlaybackEvent::Position { path, position_ms }) => {
            assert_eq!(path, "song.flac");
            assert_eq!(position_ms, 2500);
        },
        other => panic!("expected the optimistic position report, got {:?}", other),
    }

    assert!(m.stop());
    assert!(matches!(worker_rx.try_recv(), Ok(WorkerMsg::Stop)));
}

#[test]
fn path_checked_commands_ignore_other_files() {
    let (event_tx, event_rx) = crossbeam_channel::unbounded::<PlaybackEvent>();
    let mut m = PlaybackManager::new(event_tx);
    assert!(!m.seek_file(&String::from("anything.wav"), 100));
    let (worker_tx, worker_rx) = crossbeam_channel::unbounded::<WorkerMsg>();
    m.start_session(String::from("song.flac"), worker_tx);
    // a stale path does nothing
    assert!(!m.seek_file(&String::from("other.flac"), 100));
    assert!(!m.stop_file(&String::from("other.flac")));
    assert!(worker_rx.try_recv().is_err());
    assert!(event_rx.try_recv().is_err());
    // the playing path is forwarded
    assert!(m.seek_file(&String::from("song.flac"), 100));
    assert!(matches!(worker_rx.try_recv(), Ok(WorkerMsg::Seek(100))));
    assert!(m.stop_file(&String::from("song.flac")));
    assert!(matches!(worker_rx.try_recv(), Ok(WorkerMsg::Stop)));
}

#[test]
fn starting_a_new_session_stops_the_previous_worker() {
    let (event_tx, _event_rx) = crossbeam_channel::unbounded::<PlaybackEvent>();
    let mut m = PlaybackManager::new(event_tx);
    let (first_tx, first_rx) = crossbeam_channel::unbounded::<WorkerMsg>();
    let (second_tx, second_rx) = crossbeam_channel::unbounded::<WorkerMsg>();
    m.start_session(String::from("one.wav"), first_tx);
    m.start_session(String::from("two.wav"), second_tx);
    assert!(matches!(first_rx.try_recv(), Ok(WorkerMsg::Stop)));
    assert!(second_rx.try_recv().is_err());
    assert_eq!(m.playing_file(), Some(String::from("two.wav")));
}

#[test]
fn adaptation_is_needed_exactly_on_a_mismatch() {
    assert!(!needs_adaptation(44100, 2, 44100, 2));
    assert!(needs_adaptation(44100, 2, 48000, 2));
    assert!(needs_adaptation(44100, 1, 44100, 2));
    assert!(needs_adaptation(44100, 1, 48000, 2));
}

#[test]
fn memory_decoder_serves_packets_in_order() {
    let signal = SignalSpec { rate: 44100, channels: 1 };
    let mut d = MemoryDecoder::new(numbered(10), signal, 4, Vec::new());
    match d.next_packet() {
        PacketAttempt::Samples(p) => {
            assert_eq!(p.len(), 4);
            assert_eq!(p[0].bits, 0);
            assert_eq!(p[3].bits, 3);
        },
        _ => panic!("expected samples"),
    }
    match d.next_packet() {
        PacketAttempt::Samples(p) => {
            assert_eq!(p[0].bits, 4);
            assert_eq!(p.len(), 4);
        },
        _ => panic!("expected samples"),
    }
    // the last packet is short
    match d.next_packet() {
        PacketAttempt::Samples(p) => {
            assert_eq!(p.len(), 2);
            assert_eq!(p[1].bits, 9);
        },
        _ => panic!("expected samples"),
    }
    assert!(matches!(d.next_packet(), PacketAttempt::EndOfStream));
    assert!(matches!(d.next_packet(), PacketAttempt::EndOfStream));
}

#[test]
fn memory_decoder_reports_corrupt_packets_and_drops_them() {
    let signal = SignalSpec { rate: 44100, channels: 1 };
    let mut d = MemoryDecoder::new(numbered(12), signal, 4, vec![1]);
    assert!(matches!(d.next_packet(), PacketAttempt::Samples(_)));
    assert!(matches!(d.next_packet(), PacketAttempt::CorruptData));
    match d.next_packet() {
        PacketAttempt::Samples(p) => assert_eq!(p[0].bits, 8),
        _ => panic!("expected samples after the corrupt packet"),
    }
    assert!(matches!(d.next_packet(), PacketAttempt::EndOfStream));
}

#[test]
fn memory_decoder_seek_snaps_to_packet_boundaries() {
    let signal = SignalSpec { rate: 44100, channels: 1 };
    // 100 packets of 1024 frames
    let mut d = MemoryDecoder::new(numbered(102400), signal, 1024, Vec::new());
    // one second is frame 44100, snapped down to 43 * 1024 = 44032
    assert_eq!(d.seek(1000), Ok(44032));
    match d.next_packet() {
        PacketAttempt::Samples(p) => assert_eq!(p[0].bits, 44032),
        _ => panic!("expected samples at the seek target"),
    }
    // seeking beyond the stream clamps to its end, which then reports
    // the end of the stream
    assert_eq!(d.seek(1_000_000), Ok(102400));
    assert!(matches!(d.next_packet(), PacketAttempt::EndOfStream));
    // back to the start
    assert_eq!(d.seek(0), Ok(0));
    match d.next_packet() {
        PacketAttempt::Samples(p) => assert_eq!(p[0].bits, 0),
        _ => panic!("expected samples at the start"),
    }
}
