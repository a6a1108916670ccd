use audio_playback::events::PlaybackEvent;
use audio_playback::manager::{needs_adaptation, PlaybackManager};
use audio_playback::mapper::ChannelMappedSource;
use audio_playback::memory::MemoryDecoder;
use audio_playback::resampler::ResampledSource;
use audio_playback::sample::{silence, Sample};
use audio_playback::shared::{SharedState, TOTAL_UNKNOWN};
use audio_playback::source::{AudioSource, DecoderSource};
use audio_playback::timing::{SignalSpec, TimeBase};
use audio_playback::worker::{Act, Worker, WorkerMsg};

fn numbered(n: usize) -> Vec<Sample> {
    let mut v = Vec::with_capacity(n);
    for i in 0..n {
        v.push(Sample { bits: i as u32 });
    }
    v
}

/// One playback session over a scripted in-memory stream, driven
/// sequentially: the test stands in for the worker thread (by pumping the
/// message queue) and for the device render callback (by calling `write`).
struct Session {
    worker: Worker<MemoryDecoder>,
    worker_tx: crossbeam_channel::Sender<WorkerMsg>,
    worker_rx: crossbeam_channel::Receiver<WorkerMsg>,
    shared: SharedState,
    event_rx: crossbeam_channel::Receiver<PlaybackEvent>,
    event_tx: crossbeam_channel::Sender<PlaybackEvent>,
}

fn start_session(
    samples: Vec<Sample>,
    signal: SignalSpec,
    frames_per_packet: usize,
    corrupt_packets: Vec<usize>,
    ring_capacity: usize,
    event_capacity: Option<usize>,
) -> (Session, DecoderSource) {
    let decoder = MemoryDecoder::new(samples, signal, frames_per_packet, corrupt_packets);
    let (worker_tx, worker_rx) = crossbeam_channel::unbounded::<WorkerMsg>();
    let (event_tx, event_rx) = match event_capacity {
        Some(cap) => crossbeam_channel::bounded::<PlaybackEvent>(cap),
        None => crossbeam_channel::unbounded::<PlaybackEvent>(),
    };
    let worker = Worker::new(worker_tx.clone(), decoder, signal);
    let shared = SharedState::new(ring_capacity);
    let time_base = TimeBase { numer: 1, denom: signal.rate };
    let source = DecoderSource::new(
        String::from("memory-stream"),
        signal,
        time_base,
        event_tx.clone(),
        worker_tx.clone(),
    );
    let session = Session { worker, worker_tx, worker_rx, shared, event_rx, event_tx };
    (session, source)
}

/// Plays the decode worker's actor loop until its queue is drained or the
/// ring buffer is full; a full buffer re-schedules the read exactly as the
/// actor's delayed retry would. Returns true if the worker shut down.
fn pump(session: &mut Session) -> bool {
    let mut guard = 0usize;
    let mut retry_scheduled = false;
    while let Ok(msg) = session.worker_rx.try_recv() {
        guard += 1;
        assert!(guard < 1_000_000, "worker pump did not settle");
        match session.worker.handle(msg, &mut session.shared) {
            Ok(Act::Continue) => continue,
            Ok(Act::WaitRetry) => {
                // the actor would arm a retry timer and keep receiving;
                // later messages (a seek, a stop) are handled first
                retry_scheduled = true;
            },
            Ok(Act::Shutdown) => return true,
            Err(e) => panic!("worker failed: {:?}", e),
        }
    }
    if retry_scheduled {
        session.worker_tx.send(WorkerMsg::Read).unwrap();
    }
    false
}

/// Renders the whole stream through `source`, pumping the worker between
/// device buffers. Returns all rendered samples and the received events.
fn render_to_end<S: AudioSource>(
    session: &mut Session,
    source: &mut S,
    buffer_len: usize,
) -> (Vec<Sample>, Vec<PlaybackEvent>) {
    let mut rendered: Vec<Sample> = Vec::new();
    let mut idle_rounds = 0usize;
    let mut guard = 0usize;
    loop {
        guard += 1;
        assert!(guard < 1_000_000, "render loop did not settle");
        pump(session);
        let mut buffer = vec![silence(); buffer_len];
        let n = source.write(&mut session.shared, &mut buffer);
        assert!(n <= buffer.len());
        rendered.extend_from_slice(&buffer[..n]);
        if n == 0 {
            idle_rounds += 1;
            // a few extra rounds let retried event deliveries and the
            // worker's end-of-stream handling settle
            if idle_rounds > 8 {
                break;
            }
        } else {
            idle_rounds = 0;
        }
    }
    let mut events = Vec::new();
    while let Ok(e) = session.event_rx.try_recv() {
        events.push(e);
    }
    (rendered, events)
}

fn position_millis(events: &[PlaybackEvent]) -> Vec<u64> {
    events
        .iter()
        .filter_map(|e| match e {
            PlaybackEvent::Position { position_ms, .. } => Some(*position_ms),
            PlaybackEvent::EndOfFile => None,
        })
        .collect()
}

fn eof_count(events: &[PlaybackEvent]) -> usize {
    events.iter().filter(|e| matches!(e, PlaybackEvent::EndOfFile)).count()
}

#[test]
fn scenario_mono_44100_to_stereo_48000_device() {
    // a 10-second, 44.1 kHz mono stream on a 48 kHz stereo device
    let signal = SignalSpec { rate: 44100, channels: 1 };
    let (mut session, source) = start_session(
        numbered(441_000),
        signal,
        1024,
        Vec::new(),
        32_768,
        None,
    );
    assert!(needs_adaptation(44100, 1, 48000, 2));
    let resampled = ResampledSource::new(source, 48000);
    let mut mapped = ChannelMappedSource::new(resampled, 2);
    assert_eq!(mapped.sample_rate(), 48000);
    assert_eq!(mapped.channel_count(), 2);

    let (rendered, events) = render_to_end(&mut session, &mut mapped, 2048);

    // duration is preserved: 441000 * 48000 / 44100 = 480000 frames exactly
    assert_eq!(rendered.len(), 480_000 * 2);
    assert_eq!(mapped.inner.in_frames, 441_000);
    assert_eq!(mapped.inner.out_frames, 480_000);
    // exactly one end-of-file event, and nothing after it
    assert_eq!(eof_count(&events), 1);
    assert!(matches!(events.last(), Some(PlaybackEvent::EndOfFile)));
    // position reports increase monotonically
    let reports = position_millis(&events);
    assert!(reports.len() >= 5);
    for pair in reports.windows(2) {
        assert!(pair[0] <= pair[1]);
    }
    // the device stream carries input frame floor(j * 44100 / 48000) on the
    // first channel and silence on the second
    for j in 0..480_000usize {
        let expected = (j as u64 * 44100 / 48000) as u32;
        assert_eq!(rendered[2 * j].bits, expected, "frame {}", j);
        assert_eq!(rendered[2 * j + 1].bits, 0, "frame {}", j);
    }
}

#[test]
fn scenario_seek_forward_resumes_from_the_target() {
    // a 10-second mono stream rendered at its native rate
    let signal = SignalSpec { rate: 44100, channels: 1 };
    let (mut session, mut source) = start_session(
        numbered(441_000),
        signal,
        1024,
        Vec::new(),
        32_768,
        None,
    );
    let mut manager = PlaybackManager::new(session.event_tx.clone());
    manager.start_session(String::from("memory-stream"), session.worker_tx.clone());

    // play roughly one second
    let mut played = 0usize;
    while played < 44_100 {
        pump(&mut session);
        let mut buffer = vec![silence(); 4410];
        let n = source.write(&mut session.shared, &mut buffer);
        played += n;
    }

    // note the reports so far, then seek to five seconds
    let mut before_seek = Vec::new();
    while let Ok(e) = session.event_rx.try_recv() {
        before_seek.push(e);
    }
    let pre = position_millis(&before_seek);
    assert!(!pre.is_empty());
    assert!(*pre.last().unwrap() <= 1100);

    assert!(manager.seek(5000));
    pump(&mut session);

    // the optimistic report carries the request itself
    let optimistic = session.event_rx.try_recv().unwrap();
    match optimistic {
        PlaybackEvent::Position { position_ms, .. } => assert_eq!(position_ms, 5000),
        other => panic!("expected the optimistic report, got {:?}", other),
    }

    // decoding resumed at the packet boundary below five seconds
    assert_eq!(session.shared.position, 215 * 1024);

    let (_rendered, events) = render_to_end(&mut session, &mut source, 4410);
    let after = position_millis(&events);
    assert!(!after.is_empty());
    // reports resume near the seek target, not near one second: within one
    // reporting interval plus one device buffer of it
    assert!(after[0] >= 4900, "first report after seek at {} ms", after[0]);
    assert!(after[0] < 5000 + 900 + 100, "first report after seek at {} ms", after[0]);
    for pair in after.windows(2) {
        assert!(pair[0] <= pair[1]);
    }
    assert_eq!(eof_count(&events), 1);
}

#[test]
fn scenario_corrupt_packet_is_skipped_and_eof_still_fires() {
    // twenty packets; the sixth is corrupt and its samples are lost
    let signal = SignalSpec { rate: 44100, channels: 1 };
    let (mut session, mut source) = start_session(
        numbered(20_480),
        signal,
        1024,
        vec![5],
        8192,
        None,
    );
    let (rendered, events) = render_to_end(&mut session, &mut source, 1024);
    assert_eq!(rendered.len(), 19 * 1024);
    // decoding continued right past the lost packet
    assert_eq!(rendered[5 * 1024 - 1].bits, 5 * 1024 - 1);
    assert_eq!(rendered[5 * 1024].bits, 6 * 1024);
    assert_eq!(eof_count(&events), 1);
    assert!(matches!(events.last(), Some(PlaybackEvent::EndOfFile)));
}

#[test]
fn scenario_stop_before_any_decode_is_clean() {
    let signal = SignalSpec { rate: 44100, channels: 1 };
    let (mut session, mut source) = start_session(
        numbered(44_100),
        signal,
        1024,
        Vec::new(),
        8192,
        None,
    );
    // stop right after play: the queue holds the initial read and the stop
    assert!(source.stop());
    let first = session.worker_rx.try_recv().unwrap();
    assert!(matches!(first, WorkerMsg::Read));
    let act = session.worker.handle(first, &mut session.shared).unwrap();
    assert_eq!(act, Act::Continue);
    // the stop is processed before any sample reaches the ring buffer
    let second = session.worker_rx.try_recv().unwrap();
    assert!(matches!(second, WorkerMsg::Stop));
    let act = session.worker.handle(second, &mut session.shared).unwrap();
    assert_eq!(act, Act::Shutdown);
    assert_eq!(session.shared.ring.len(), 0);
    // no events were delivered
    assert!(session.event_rx.try_recv().is_err());
    assert_eq!(session.shared.total_samples, TOTAL_UNKNOWN);
}

#[test]
fn scenario_stop_while_waiting_for_space_shuts_down() {
    // a ring buffer far smaller than one packet forces backpressure
    let signal = SignalSpec { rate: 44100, channels: 1 };
    let (mut session, _source) = start_session(
        numbered(8192),
        signal,
        1024,
        Vec::new(),
        64,
        None,
    );
    // pump until the worker parks itself waiting for space
    let mut waited = false;
    let mut guard = 0usize;
    while !waited {
        guard += 1;
        assert!(guard < 10_000);
        let msg = session.worker_rx.try_recv().unwrap();
        match session.worker.handle(msg, &mut session.shared).unwrap() {
            Act::Continue => {},
            Act::WaitRetry => waited = true,
            Act::Shutdown => panic!("unexpected shutdown"),
        }
    }
    assert!(!session.worker.is_reading);
    assert_eq!(session.shared.ring.len(), 64);
    // stopping in this state terminates the actor immediately
    let act = session.worker.handle(WorkerMsg::Stop, &mut session.shared).unwrap();
    assert_eq!(act, Act::Shutdown);
}

#[test]
fn stereo_source_on_a_mono_device_keeps_the_first_channel() {
    let signal = SignalSpec { rate: 44100, channels: 2 };
    let (mut session, source) = start_session(
        numbered(4096),
        signal,
        256,
        Vec::new(),
        8192,
        None,
    );
    let mut mapped = ChannelMappedSource::new(source, 1);
    assert_eq!(mapped.channel_count(), 1);
    let (rendered, events) = render_to_end(&mut session, &mut mapped, 512);
    assert_eq!(rendered.len(), 2048);
    for f in 0..2048usize {
        assert_eq!(rendered[f].bits, (2 * f) as u32, "frame {}", f);
    }
    assert_eq!(eof_count(&events), 1);
}

#[test]
fn upsampling_by_two_doubles_the_frame_count_and_repeats_frames() {
    let signal = SignalSpec { rate: 22050, channels: 1 };
    let (mut session, source) = start_session(
        numbered(1000),
        signal,
        256,
        Vec::new(),
        4096,
        None,
    );
    let mut resampled = ResampledSource::new(source, 44100);
    let (rendered, events) = render_to_end(&mut session, &mut resampled, 500);
    // 1000 * 44100 / 22050 = 2000 output frames exactly
    assert_eq!(rendered.len(), 2000);
    for j in 0..2000usize {
        assert_eq!(rendered[j].bits, (j / 2) as u32, "frame {}", j);
    }
    assert_eq!(eof_count(&events), 1);
}

#[test]
fn downsampling_preserves_duration_within_one_frame() {
    // 48 kHz down to 44.1 kHz: 48000 input frames last one second, so the
    // output must hold one second at the new rate, within rounding
    let signal = SignalSpec { rate: 48000, channels: 1 };
    let (mut session, source) = start_session(
        numbered(48_000),
        signal,
        1024,
        Vec::new(),
        16_384,
        None,
    );
    let mut resampled = ResampledSource::new(source, 44100);
    let (rendered, events) = render_to_end(&mut session, &mut resampled, 1024);
    // ceil(48000 * 44100 / 48000) = 44100
    assert_eq!(rendered.len(), 44_100);
    // spot-check the frame selection: output frame j carries input frame
    // floor(j * 48000 / 44100)
    for j in [0usize, 1, 441, 44_099] {
        assert_eq!(rendered[j].bits, (j as u64 * 48000 / 44100) as u32, "frame {}", j);
    }
    assert_eq!(eof_count(&events), 1);
}

#[test]
fn full_event_channel_never_stalls_the_render_path() {
    let signal = SignalSpec { rate: 44100, channels: 1 };
    // a zero-capacity channel refuses every delivery attempt
    let (mut session, mut source) = start_session(
        numbered(88_200),
        signal,
        1024,
        Vec::new(),
        16_384,
        Some(0),
    );
    let mut rendered = 0usize;
    let mut guard = 0usize;
    let mut idle = 0usize;
    while idle < 8 {
        guard += 1;
        assert!(guard < 100_000);
        pump(&mut session);
        let mut buffer = vec![silence(); 4096];
        let n = source.write(&mut session.shared, &mut buffer);
        rendered += n;
        if n == 0 {
            idle += 1;
        } else {
            idle = 0;
        }
    }
    // every sample still reached the device; the reports were skipped
    assert_eq!(rendered, 88_200);
    assert!(session.event_rx.try_recv().is_err());
}
