use vstd::prelude::*;

use crate::channel::{send_msg, try_send_msg};
use crate::events::{
    eof_count, eof_is_last, is_eof_record, lemma_eof_count_push, lemma_eof_count_zero, EventRecord,
    PlaybackEvent,
};
use crate::sample::Sample;
use crate::shared::SharedState;
use crate::timing::{
    clamp_u64, report_interval_samples, report_interval_spec, samples_to_millis,
    samples_to_millis_spec, saturating_add, SignalSpec, TimeBase,
};
use crate::worker::WorkerMsg;

verus! {

/// A pull-based source of interleaved samples, driven by the render path.
///
/// `write` may never hand back more samples than the caller asked for, must
/// leave the session counters consistent, and must never change the
/// signal it produces mid-stream; every stage of the playback chain
/// (decoder source, resampler, channel mapper) proves this contract.
pub trait AudioSource: Sized {
    /// The signal this source produces.
    spec fn signal(&self) -> SignalSpec;

    /// The source's own well-formedness.
    spec fn wf(&self) -> bool;

    /// Fills the front of `output` with at most `output.len()` samples and
    /// returns how many; the caller treats the rest as silence. Called on
    /// the real-time render path: implementations stay allocation-free and
    /// non-blocking.
    fn write(&mut self, shared: &mut SharedState, output: &mut Vec<Sample>) -> (n: usize)
        requires
            old(self).wf(),
            old(shared).wf(),
        ensures
            final(self).wf(),
            final(shared).wf(),
            n <= old(output)@.len(),
            final(output)@.len() == old(output)@.len(),
            final(shared).ring.capacity() == old(shared).ring.capacity(),
            old(shared).position <= final(shared).position,
            final(shared).total_samples == old(shared).total_samples,
            final(self).signal() == old(self).signal(),
    ;

    /// How many interleaved channels each frame of this source carries.
    fn channel_count(&self) -> (c: u32)
        ensures
            c == self.signal().channels,
    ;

    /// Frames per second of this source.
    fn sample_rate(&self) -> (rate: u32)
        ensures
            rate == self.signal().rate,
    ;
}

/// When a position report is due: immediately after a (backward) seek put
/// the last report ahead of the play-head, and otherwise once the play-head
/// has advanced a full reporting interval past the last report.
pub open spec fn should_report_spec(reported: u64, pos: u64, precision: u64) -> bool {
    reported > pos || pos - reported >= precision
}

/// The audio source fed by a decode worker through the session's ring
/// buffer.
///
/// It drains the ring buffer on the render path, advances the shared
/// play-head, delivers rate-limited `Position` events and one `EndOfFile`
/// event — both without ever blocking: a report that does not fit into the
/// event channel is skipped and retried on a later threshold crossing.
/// After the end-of-file report every call returns zero samples.
pub struct DecoderSource {
    /// Path of the playing file, carried inside position events.
    pub file_path: String,
    /// The worker's message queue; [`DecoderSource::stop`] posts `Stop` here.
    pub worker_send: crossbeam_channel::Sender<WorkerMsg>,
    /// The event channel toward the controller.
    pub event_send: crossbeam_channel::Sender<PlaybackEvent>,
    /// The decoded signal.
    pub signal: SignalSpec,
    /// The decoder's time base, for turning sample counts into timestamps.
    pub time_base: TimeBase,
    /// The reporting threshold in interleaved samples.
    pub precision: u64,
    /// Play-head position of the last delivered position report;
    /// initially `u64::MAX`, which forces an early first report.
    pub reported: u64,
    /// Set once the end-of-file event has been delivered; from then on the
    /// source short-circuits.
    pub end_of_track: bool,
    /// Ghost log of every event this source has delivered, in order.
    pub emitted: Ghost<Seq<EventRecord>>,
    /// Ghost log of every sample this source has handed to the render
    /// path, in order: the played stream.
    pub delivered: Ghost<Seq<Sample>>,
    /// Ghost log of every message this source handed to its worker's
    /// queue, in order: the kick-start `Read` at construction, and a
    /// `Stop` per [`DecoderSource::stop`].
    pub worker_cmds: Ghost<Seq<WorkerMsg>>,
}

impl DecoderSource {
    /// Everything `write` relies on, and the event-log invariant: the log
    /// holds an end-of-file record exactly when the source has
    /// short-circuited, at most one of them, and only as its last entry.
    pub open spec fn inv(self) -> bool {
        &&& self.signal.valid()
        &&& self.time_base.valid()
        &&& self.precision == clamp_u64(
            report_interval_spec(self.signal.rate as int, self.signal.channels as int),
        )
        &&& eof_count(self.emitted@) == if self.end_of_track {
            1int
        } else {
            0int
        }
        &&& eof_is_last(self.emitted@)
    }

    /// A source for one stream. Sends the initial `Read` that kick-starts
    /// the decode worker; if the worker is already gone the send is a no-op
    /// and the stream simply stays empty.
    pub fn new(
        file_path: String,
        signal: SignalSpec,
        time_base: TimeBase,
        event_send: crossbeam_channel::Sender<PlaybackEvent>,
        worker_send: crossbeam_channel::Sender<WorkerMsg>,
    ) -> (s: DecoderSource)
        requires
            signal.valid(),
            time_base.valid(),
        ensures
            s.inv(),
            s.signal == signal,
            s.time_base == time_base,
            s.file_path == file_path,
            s.reported == u64::MAX,
            !s.end_of_track,
            s.emitted@ =~= Seq::<EventRecord>::empty(),
            s.delivered@ =~= Seq::<Sample>::empty(),
            s.worker_cmds@ =~= seq![WorkerMsg::Read],
    {
        let precision = report_interval_samples(signal);
        let _ = send_msg(&worker_send, WorkerMsg::Read);
        DecoderSource {
            file_path,
            worker_send,
            event_send,
            signal,
            time_base,
            precision,
            reported: u64::MAX,
            end_of_track: false,
            emitted: Ghost(Seq::empty()),
            delivered: Ghost(Seq::empty()),
            worker_cmds: Ghost(Seq::empty().push(WorkerMsg::Read)),
        }
    }

    /// Executable form of [`should_report_spec`] over this source's state.
    fn should_report(&self, pos: u64) -> (b: bool)
        ensures
            b == should_report_spec(self.reported, pos, self.precision),
    {
        self.reported > pos || pos - self.reported >= self.precision
    }

    /// Hands `Stop` to the decode worker's queue, so that replacing or
    /// dropping this source never leaks its decode thread. Returns whether
    /// the queue still accepted the message.
    pub fn stop(&mut self) -> (r: bool)
        ensures
            final(self).worker_cmds@ == old(self).worker_cmds@.push(WorkerMsg::Stop),
            final(self).emitted@ == old(self).emitted@,
            final(self).delivered@ == old(self).delivered@,
            final(self).file_path == old(self).file_path,
            final(self).signal == old(self).signal,
            final(self).time_base == old(self).time_base,
            final(self).precision == old(self).precision,
            final(self).reported == old(self).reported,
            final(self).end_of_track == old(self).end_of_track,
            final(self).event_send == old(self).event_send,
            final(self).worker_send == old(self).worker_send,
    {
        let r = match send_msg(&self.worker_send, WorkerMsg::Stop) {
            Ok(_) => true,
            Err(_) => false,
        };
        self.worker_cmds = Ghost(self.worker_cmds@.push(WorkerMsg::Stop));
        r
    }
}

impl AudioSource for DecoderSource {
    open spec fn signal(&self) -> SignalSpec {
        self.signal
    }

    open spec fn wf(&self) -> bool {
        self.inv()
    }

    /// Drains the ring buffer into `output`, advances the shared play-head
    /// by exactly the samples read, and delivers events as due: a
    /// `Position` report when the play-head has crossed the reporting
    /// threshold (skipped silently when the channel is full), and one
    /// `EndOfFile` once the play-head has reached the total-samples marker.
    /// After a delivered `EndOfFile` the source returns zero samples
    /// forever and delivers nothing more.
    fn write(&mut self, shared: &mut SharedState, output: &mut Vec<Sample>) -> (n: usize)
        ensures
            old(self).end_of_track ==> {
                &&& n == 0
                &&& *final(self) == *old(self)
                &&& *final(shared) == *old(shared)
                &&& final(output)@ == old(output)@
            },
            !old(self).end_of_track ==> {
                &&& n == vstd::math::min(old(output)@.len() as int, old(shared).ring@.len() as int)
                &&& (forall|i: int| 0 <= i < n ==> final(output)@[i] == old(shared).ring@[i])
                &&& (forall|i: int|
                    n <= i < old(output)@.len() ==> final(output)@[i] == old(output)@[i])
                &&& final(shared).ring@ == old(shared).ring@.skip(n as int)
                &&& final(shared).position == clamp_u64(old(shared).position + n)
                &&& (!should_report_spec(
                    old(self).reported,
                    final(shared).position,
                    old(self).precision,
                ) ==> final(self).reported == old(self).reported)
                &&& (final(shared).position < final(shared).total_samples
                    ==> !final(self).end_of_track)
                &&& ({
                    // no event went out
                    ||| {
                        &&& final(self).emitted@ == old(self).emitted@
                        &&& final(self).reported == old(self).reported
                        &&& !final(self).end_of_track
                    }
                    // a position report went out
                    ||| {
                        &&& final(self).emitted@ == old(self).emitted@.push(
                            EventRecord::Position {
                                millis: clamp_u64(
                                    samples_to_millis_spec(
                                        old(self).time_base,
                                        old(self).signal.channels as int,
                                        final(shared).position as int,
                                    ),
                                ) as u64,
                            },
                        )
                        &&& final(self).reported == final(shared).position
                        &&& should_report_spec(
                            old(self).reported,
                            final(shared).position,
                            old(self).precision,
                        )
                        &&& !final(self).end_of_track
                    }
                    // the end-of-file report went out
                    ||| {
                        &&& final(self).emitted@ == old(self).emitted@.push(EventRecord::EndOfFile)
                        &&& final(self).reported == old(self).reported
                        &&& final(self).end_of_track
                        &&& final(shared).position >= final(shared).total_samples
                    }
                    // a position report, then the end-of-file report
                    ||| {
                        &&& final(self).emitted@ == old(self).emitted@.push(
                            EventRecord::Position {
                                millis: clamp_u64(
                                    samples_to_millis_spec(
                                        old(self).time_base,
                                        old(self).signal.channels as int,
                                        final(shared).position as int,
                                    ),
                                ) as u64,
                            },
                        ).push(EventRecord::EndOfFile)
                        &&& final(self).reported == final(shared).position
                        &&& should_report_spec(
                            old(self).reported,
                            final(shared).position,
                            old(self).precision,
                        )
                        &&& final(self).end_of_track
                        &&& final(shared).position >= final(shared).total_samples
                    }
                })
                &&& final(self).file_path == old(self).file_path
                &&& final(self).signal == old(self).signal
                &&& final(self).time_base == old(self).time_base
                &&& final(self).precision == old(self).precision
                &&& final(self).delivered@ == old(self).delivered@ + final(output)@.subrange(
                    0,
                    n as int,
                )
                &&& final(self).worker_cmds@ == old(self).worker_cmds@
            },
    {
        if self.end_of_track {
            return 0;
        }
        let n = shared.ring.read(output);
        self.delivered = Ghost(self.delivered@ + output@.subrange(0, n as int));
        let position = saturating_add(shared.position, n as u64);
        shared.position = position;

        if self.should_report(position) {
            // Report the play-head, so the upper layers can visualize the
            // playback progress. This must never stall the render path: if
            // the channel is full right now, skip the report and let a
            // later threshold crossing retry it.
            let ms = samples_to_millis(self.time_base, self.signal.channels, position);
            let path = self.file_path.clone();
            match try_send_msg(
                &self.event_send,
                PlaybackEvent::Position { path, position_ms: ms },
            ) {
                Ok(_) => {
                    proof {
                        lemma_eof_count_push(
                            self.emitted@,
                            EventRecord::Position { millis: ms },
                        );
                        lemma_eof_count_zero(self.emitted@);
                    }
                    self.reported = position;
                    self.emitted = Ghost(
                        self.emitted@.push(EventRecord::Position { millis: ms }),
                    );
                },
                Err(_) => {},
            }
        }

        if position >= shared.total_samples {
            // The stream is over. Report it once; if the channel is full,
            // the next call comes back here and retries.
            match try_send_msg(&self.event_send, PlaybackEvent::EndOfFile) {
                Ok(_) => {
                    proof {
                        lemma_eof_count_push(self.emitted@, EventRecord::EndOfFile);
                        lemma_eof_count_zero(self.emitted@);
                    }
                    self.end_of_track = true;
                    self.emitted = Ghost(self.emitted@.push(EventRecord::EndOfFile));
                },
                Err(_) => {},
            }
        }
        n
    }

    fn channel_count(&self) -> (c: u32) {
        self.signal.channels
    }

    fn sample_rate(&self) -> (rate: u32) {
        self.signal.rate
    }
}

/// The end of a stream is reported exactly once, and nothing follows it:
/// once a source has short-circuited, its event log holds exactly one
/// end-of-file record, that record is the last entry, and (by `write`'s
/// contract) every further call returns zero samples and delivers nothing.
pub proof fn lemma_end_of_file_reported_once(s: DecoderSource)
    requires
        s.inv(),
        s.end_of_track,
    ensures
        eof_count(s.emitted@) == 1,
        eof_is_last(s.emitted@),
        s.emitted@.len() >= 1,
        is_eof_record(s.emitted@.last()),
{
    lemma_eof_count_zero(s.emitted@);
    if s.emitted@.len() >= 1 && !is_eof_record(s.emitted@.last()) {
        lemma_eof_count_push(s.emitted@.drop_last(), s.emitted@.last());
        assert(s.emitted@.drop_last().push(s.emitted@.last()) =~= s.emitted@);
    }
}

/// The first position report after a seek lies close to the seek target.
///
/// After a seek to `target` the play-head resumes there. Take the first
/// `write` call whose end position `pos` crosses the reporting threshold,
/// let `p0` be the previous call's end position (`target` itself for the
/// first call) and `w` bound the samples one call hands out. The reported
/// position is then within one reporting interval of the last delivered
/// report — and so within one interval of `target` itself whenever the
/// last report does not lie beyond the target — overshooting by at most
/// one buffer of samples.
pub proof fn lemma_first_report_after_seek(
    reported: u64,
    precision: u64,
    target: u64,
    p0: u64,
    pos: u64,
    w: u64,
)
    requires
        reported <= p0,
        target <= p0,
        p0 <= pos,
        pos - p0 <= w,
        !should_report_spec(reported, p0, precision),
        should_report_spec(reported, pos, precision),
    ensures
        pos < reported + precision + w,
        reported <= target ==> (pos as int) < target + precision + w,
{
}

} // verus!
