use vstd::prelude::*;

use crate::channel::send_msg;
use crate::error::Error;
use crate::sample::Sample;
use crate::shared::SharedState;
use crate::timing::{clamp_u64, frames_to_samples, saturating_add, SignalSpec};

verus! {

/// Control messages of the decode worker.
pub enum WorkerMsg {
    /// Continue draining the decoder into the ring buffer.
    Read,
    /// Move the decode cursor to the given stream time in milliseconds.
    Seek(u64),
    /// Terminate the worker; every later message is a no-op.
    Stop,
}

/// What the actor loop around a worker should do after one message.
#[derive(Clone, Copy, PartialEq, Eq, Structural, Debug)]
pub enum Act {
    /// Keep receiving messages.
    Continue,
    /// The ring buffer is full: wait [`RETRY_DELAY_MS`], then deliver a
    /// `Read` to the worker.
    WaitRetry,
    /// Exit the actor loop.
    Shutdown,
}

/// How long the actor loop waits before retrying a `Read` that found the
/// ring buffer full.
pub const RETRY_DELAY_MS: u64 = 500;

/// The outcome of one demux-and-decode attempt, as the decoder reports it.
pub enum PacketAttempt {
    /// A packet of the selected track, decoded into interleaved samples.
    Samples(Vec<Sample>),
    /// A packet of some other track; it is skipped.
    OtherTrack,
    /// A packet of the selected track failed to decode on invalid data; it
    /// is logged and skipped, and decoding continues with the next packet.
    CorruptData,
    /// A packet of the selected track failed to decode on a transient I/O
    /// error; it is skipped like invalid data.
    CorruptIo,
    /// The decoder failed in a way it cannot recover from.
    FatalDecodeError,
    /// The format reader failed; the stream cannot continue.
    FormatError,
    /// The natural end of the stream.
    EndOfStream,
}

/// What one attempt means for the stream: deliver the samples, skip the
/// packet and go on, or treat the stream as over.
#[derive(Clone, Copy, PartialEq, Eq, Structural, Debug)]
pub enum Disposition {
    Deliver,
    Skip,
    Terminate,
}

/// The packet-error policy: corrupt or foreign packets are skipped, format
/// and fatal decoder failures end the stream exactly as its natural end
/// does, and only a decoded packet of the selected track is delivered.
pub open spec fn disposition_of(a: PacketAttempt) -> Disposition {
    match a {
        PacketAttempt::Samples(_) => Disposition::Deliver,
        PacketAttempt::OtherTrack => Disposition::Skip,
        PacketAttempt::CorruptData => Disposition::Skip,
        PacketAttempt::CorruptIo => Disposition::Skip,
        PacketAttempt::FatalDecodeError => Disposition::Terminate,
        PacketAttempt::FormatError => Disposition::Terminate,
        PacketAttempt::EndOfStream => Disposition::Terminate,
    }
}

/// Executable form of [`disposition_of`].
pub fn classify(a: &PacketAttempt) -> (d: Disposition)
    ensures
        d == disposition_of(*a),
{
    match a {
        PacketAttempt::Samples(_) => Disposition::Deliver,
        PacketAttempt::OtherTrack => Disposition::Skip,
        PacketAttempt::CorruptData => Disposition::Skip,
        PacketAttempt::CorruptIo => Disposition::Skip,
        PacketAttempt::FatalDecodeError => Disposition::Terminate,
        PacketAttempt::FormatError => Disposition::Terminate,
        PacketAttempt::EndOfStream => Disposition::Terminate,
    }
}

/// The decoder a worker drains: format demux plus codec decode, seekable by
/// stream time. Implementations do the real, I/O-bound work outside the
/// engine; the worker logs every outcome it receives and its contracts fix
/// the reaction to each, so nothing is assumed of an implementation.
pub trait PacketDecoder: Sized {
    /// One demux-and-decode attempt. Total: a decoder in a state it cannot
    /// serve reports a terminal outcome instead of failing.
    fn next_packet(&mut self) -> PacketAttempt;

    /// Move the decode cursor to the given stream time; returns the frame
    /// timestamp actually reached, or an error when the decoder cannot
    /// seek there.
    fn seek(&mut self, time_ms: u64) -> Result<u64, Error>;
}

/// The decode worker: an actor owning the decoder, pulling packets from it
/// and pushing their samples into the session's ring buffer, driven by
/// [`WorkerMsg`] messages. Its host thread and message queue live outside
/// the engine; every decision the worker takes is here.
///
/// Two ghost logs record the worker's interactions with the decoder: every
/// pulled packet outcome and every seek result, in order. The contracts
/// below tie each step's effect to the last log entry, so the reaction to
/// each decoder outcome is pinned per value.
pub struct Worker<D: PacketDecoder> {
    /// The sending half of the worker's own message queue, used to
    /// re-schedule reading.
    pub this: crossbeam_channel::Sender<WorkerMsg>,
    /// The decoder packets are pulled from.
    pub input: D,
    /// Audio properties of the decoded signal.
    pub signal: SignalSpec,
    /// Samples of the last decoded packet.
    pub staged: Vec<Sample>,
    /// How much of `staged` has already been flushed into the ring buffer.
    pub staged_start: usize,
    /// Interleaved samples pushed into the ring buffer since the start of
    /// the stream (reset by seeks to the seek target).
    pub samples_written: u64,
    /// Whether the self-perpetuating read loop is running.
    pub is_reading: bool,
    /// Ghost log of every outcome pulled from the decoder, in order.
    pub pulled: Ghost<Seq<PacketAttempt>>,
    /// Ghost log of every decoder seek result, in order.
    pub sought: Ghost<Seq<Result<u64, Error>>>,
    /// Ghost log of every message the worker put on its own queue to
    /// re-schedule reading, in order.
    pub self_cmds: Ghost<Seq<WorkerMsg>>,
}

impl<D: PacketDecoder> Worker<D> {
    pub open spec fn wf(self) -> bool {
        &&& self.staged_start <= self.staged@.len()
        &&& self.signal.valid()
    }

    /// True while part of a decoded packet still awaits flushing.
    pub open spec fn pending(self) -> bool {
        self.staged_start < self.staged@.len()
    }

    /// True when the worker's own state is untouched; the decoder may still
    /// have moved (a failed seek can leave its cursor elsewhere), and the
    /// interaction logs are constrained separately.
    pub open spec fn state_unchanged(pre: Worker<D>, post: Worker<D>) -> bool {
        &&& post.signal == pre.signal
        &&& post.staged@ == pre.staged@
        &&& post.staged_start == pre.staged_start
        &&& post.samples_written == pre.samples_written
        &&& post.is_reading == pre.is_reading
        &&& post.this == pre.this
    }

    /// The reaction [`Worker::on_packet`] owes for one pulled outcome `a`:
    /// a delivered packet is staged whole and reading re-scheduled, a
    /// skippable packet only re-schedules reading, and a terminal outcome
    /// records the final sample count in the total-samples marker and
    /// parks the read loop. The ring buffer and the play-head are never
    /// touched here, and the only error is a dead message queue.
    pub open spec fn packet_reaction(
        pre: Worker<D>,
        pre_s: SharedState,
        a: PacketAttempt,
        post: Worker<D>,
        post_s: SharedState,
        r: Result<Act, Error>,
    ) -> bool {
        &&& post.signal == pre.signal
        &&& post.this == pre.this
        &&& post.samples_written == pre.samples_written
        &&& post_s.ring@ == pre_s.ring@
        &&& post_s.ring.capacity() == pre_s.ring.capacity()
        &&& post_s.position == pre_s.position
        &&& !(r matches Ok(Act::Shutdown))
        &&& !(r matches Ok(Act::WaitRetry))
        &&& ((r matches Err(_)) ==> (r matches Err(Error::SendError)))
        &&& match disposition_of(a) {
            Disposition::Deliver => {
                &&& (a matches PacketAttempt::Samples(p) && post.staged@ == p@)
                &&& post.staged_start == 0
                &&& post.is_reading
                &&& post_s.total_samples == pre_s.total_samples
                &&& ((r matches Ok(_)) ==> post.self_cmds@ == pre.self_cmds@.push(WorkerMsg::Read))
                &&& ((r matches Err(_)) ==> post.self_cmds@ == pre.self_cmds@)
            },
            Disposition::Skip => {
                &&& post.staged@ == pre.staged@
                &&& post.staged_start == pre.staged_start
                &&& post.is_reading
                &&& post_s.total_samples == pre_s.total_samples
                &&& ((r matches Ok(_)) ==> post.self_cmds@ == pre.self_cmds@.push(WorkerMsg::Read))
                &&& ((r matches Err(_)) ==> post.self_cmds@ == pre.self_cmds@)
            },
            Disposition::Terminate => {
                &&& post.staged@ == pre.staged@
                &&& post.staged_start == pre.staged_start
                &&& !post.is_reading
                &&& post_s.total_samples == post.samples_written
                &&& (r matches Ok(Act::Continue))
                &&& post.self_cmds@ == pre.self_cmds@
            },
        }
    }

    /// Everything one `Read` step guarantees. With samples staged, the ring
    /// buffer receives exactly the next staged subrange, as much as fits,
    /// and `WaitRetry` is answered exactly when nothing fits. With nothing
    /// staged, exactly one outcome is pulled from the decoder, appended to
    /// the `pulled` log, and answered as [`Worker::packet_reaction`] fixes.
    pub open spec fn read_step(
        pre: Worker<D>,
        pre_s: SharedState,
        post: Worker<D>,
        post_s: SharedState,
        r: Result<Act, Error>,
    ) -> bool {
        &&& post.signal == pre.signal
        &&& post.this == pre.this
        &&& post.sought@ == pre.sought@
        &&& post_s.ring.capacity() == pre_s.ring.capacity()
        &&& post_s.position == pre_s.position
        &&& !(r matches Ok(Act::Shutdown))
        &&& ((r matches Err(_)) ==> (r matches Err(Error::SendError)))
        &&& if pre.pending() {
            &&& post.pulled@ == pre.pulled@
            &&& post.staged@ == pre.staged@
            &&& post.staged_start == pre.staged_start + vstd::math::min(
                pre.staged@.len() - pre.staged_start,
                pre_s.ring.capacity() - pre_s.ring@.len(),
            )
            &&& post_s.ring@ == pre_s.ring@ + pre.staged@.subrange(
                pre.staged_start as int,
                post.staged_start as int,
            )
            &&& post.samples_written == clamp_u64(
                pre.samples_written + post.staged_start - pre.staged_start,
            )
            &&& post_s.total_samples == pre_s.total_samples
            &&& ((r matches Ok(Act::WaitRetry)) <==> post.staged_start == pre.staged_start)
            &&& ((r matches Ok(Act::WaitRetry)) ==> !post.is_reading)
            &&& (post.staged_start > pre.staged_start ==> post.is_reading)
            &&& ((r matches Ok(Act::Continue)) ==> post.self_cmds@ == pre.self_cmds@.push(
                WorkerMsg::Read,
            ))
            &&& (!(r matches Ok(Act::Continue)) ==> post.self_cmds@ == pre.self_cmds@)
        } else {
            &&& post.pulled@.len() == pre.pulled@.len() + 1
            &&& post.pulled@.subrange(0, pre.pulled@.len() as int) == pre.pulled@
            &&& Worker::packet_reaction(pre, pre_s, post.pulled@.last(), post, post_s, r)
        }
    }

    /// Everything one `Seek` step guarantees. Exactly one seek is asked of
    /// the decoder and its result appended to the `sought` log. A reached
    /// timestamp is applied as [`Worker::apply_seek`] fixes; a refusal
    /// leaves the worker and the session exactly as they were (playback
    /// continues from the prior position); a dead message queue while
    /// resuming the parked read loop also leaves everything untouched.
    pub open spec fn seek_step(
        pre: Worker<D>,
        pre_s: SharedState,
        time_ms: u64,
        post: Worker<D>,
        post_s: SharedState,
        r: Result<Act, Error>,
    ) -> bool {
        &&& post.signal == pre.signal
        &&& post.this == pre.this
        &&& post.pulled@ == pre.pulled@
        &&& post_s.ring.capacity() == pre_s.ring.capacity()
        &&& post_s.total_samples == pre_s.total_samples
        &&& !(r matches Ok(Act::Shutdown))
        &&& !(r matches Ok(Act::WaitRetry))
        &&& ((r matches Err(_)) ==> (r matches Err(Error::SendError)))
        &&& post.sought@.len() == pre.sought@.len() + 1
        &&& post.sought@.subrange(0, pre.sought@.len() as int) == pre.sought@
        &&& match post.sought@.last() {
            Ok(ts) => {
                // the decoder reached frame ts: it is applied, unless the
                // parked read loop could not be resumed
                ||| {
                    &&& (r matches Ok(Act::Continue))
                    &&& post_s.ring@.len() == 0
                    &&& !post.pending()
                    &&& post.staged@ == pre.staged@
                    &&& post.samples_written == clamp_u64(
                        ts as int * pre.signal.channels as int,
                    )
                    &&& post_s.position == post.samples_written
                    &&& post.is_reading == pre.is_reading
                    &&& post.self_cmds@ == (if pre.is_reading {
                        pre.self_cmds@
                    } else {
                        pre.self_cmds@.push(WorkerMsg::Read)
                    })
                }
                ||| {
                    &&& (r matches Err(Error::SendError))
                    &&& Worker::state_unchanged(pre, post)
                    &&& post.self_cmds@ == pre.self_cmds@
                    &&& post_s == pre_s
                }
            },
            Err(_) => {
                &&& (r matches Ok(Act::Continue))
                &&& Worker::state_unchanged(pre, post)
                &&& post.self_cmds@ == pre.self_cmds@
                &&& post_s == pre_s
            },
        }
    }

    /// A worker for one stream, with nothing staged, the read loop not yet
    /// running, and empty interaction logs.
    pub fn new(this: crossbeam_channel::Sender<WorkerMsg>, input: D, signal: SignalSpec) -> (w:
        Worker<D>)
        requires
            signal.valid(),
        ensures
            w.wf(),
            !w.pending(),
            w.signal == signal,
            w.samples_written == 0,
            !w.is_reading,
            w.pulled@ =~= Seq::<PacketAttempt>::empty(),
            w.sought@ =~= Seq::<Result<u64, Error>>::empty(),
            w.self_cmds@ =~= Seq::<WorkerMsg>::empty(),
    {
        Worker {
            this,
            input,
            signal,
            staged: Vec::new(),
            staged_start: 0,
            samples_written: 0,
            is_reading: false,
            pulled: Ghost(Seq::empty()),
            sought: Ghost(Seq::empty()),
            self_cmds: Ghost(Seq::empty()),
        }
    }

    /// One message. `Stop` answers `Shutdown` and touches nothing, whatever
    /// state the worker is in — including `WaitRetry` backpressure — and it
    /// is the only message that shuts the actor down; `Read` and `Seek`
    /// behave exactly as [`Worker::read_step`] and [`Worker::seek_step`]
    /// state.
    pub fn handle(&mut self, msg: WorkerMsg, shared: &mut SharedState) -> (r: Result<Act, Error>)
        requires
            old(self).wf(),
            old(shared).wf(),
        ensures
            final(self).wf(),
            final(shared).wf(),
            ((r matches Ok(Act::Shutdown)) <==> (msg matches WorkerMsg::Stop)),
            (msg matches WorkerMsg::Stop) ==> *final(self) == *old(self) && *final(shared) == *old(shared),
            (msg matches WorkerMsg::Read) ==> Worker::read_step(
                *old(self),
                *old(shared),
                *final(self),
                *final(shared),
                r,
            ),
            (msg matches WorkerMsg::Seek(t) ==> Worker::seek_step(
                *old(self),
                *old(shared),
                t,
                *final(self),
                *final(shared),
                r,
            )),
    {
        match msg {
            WorkerMsg::Read => self.on_read(shared),
            WorkerMsg::Seek(time_ms) => self.on_seek(time_ms, shared),
            WorkerMsg::Stop => Ok(Act::Shutdown),
        }
    }

    /// One step of the read loop; see [`Worker::read_step`].
    ///
    /// With samples staged: flush as much as fits into the ring buffer; on
    /// any progress re-schedule reading, on a full buffer answer
    /// `WaitRetry`. With nothing staged: pull one outcome from the
    /// decoder, log it, and react to it with [`Worker::on_packet`].
    pub fn on_read(&mut self, shared: &mut SharedState) -> (r: Result<Act, Error>)
        requires
            old(self).wf(),
            old(shared).wf(),
        ensures
            final(self).wf(),
            final(shared).wf(),
            Worker::read_step(*old(self), *old(shared), *final(self), *final(shared), r),
    {
        if self.staged_start < self.staged.len() {
            let n = shared.ring.write(&self.staged, self.staged_start);
            if n > 0 {
                self.samples_written = saturating_add(self.samples_written, n as u64);
                self.staged_start = self.staged_start + n;
                self.is_reading = true;
                match send_msg(&self.this, WorkerMsg::Read) {
                    Ok(_) => {
                        self.self_cmds = Ghost(self.self_cmds@.push(WorkerMsg::Read));
                        Ok(Act::Continue)
                    },
                    Err(_) => Err(Error::SendError),
                }
            } else {
                // Buffer is full. Ask for a delayed retry, and note that the
                // read loop is not running: a seek arriving while we wait
                // must kick-start reading again itself.
                self.is_reading = false;
                Ok(Act::WaitRetry)
            }
        } else {
            let attempt = self.input.next_packet();
            self.pulled = Ghost(self.pulled@.push(attempt));
            proof {
                assert(self.pulled@.subrange(0, old(self).pulled@.len() as int) =~= old(
                    self,
                ).pulled@);
            }
            self.on_packet(attempt, shared)
        }
    }

    /// Reacts to one pulled decoder outcome, exactly as
    /// [`Worker::packet_reaction`] fixes per value: stage a delivered
    /// packet whole, skip past a corrupt or foreign one, or record the
    /// final sample count and go idle on a terminal one.
    pub fn on_packet(&mut self, attempt: PacketAttempt, shared: &mut SharedState) -> (r: Result<
        Act,
        Error,
    >)
        requires
            old(self).wf(),
            old(shared).wf(),
        ensures
            final(self).wf(),
            final(shared).wf(),
            final(self).pulled@ == old(self).pulled@,
            final(self).sought@ == old(self).sought@,
            Worker::packet_reaction(
                *old(self),
                *old(shared),
                attempt,
                *final(self),
                *final(shared),
                r,
            ),
    {
        match classify(&attempt) {
            Disposition::Deliver => {
                if let PacketAttempt::Samples(samples) = attempt {
                    self.staged = samples;
                    self.staged_start = 0;
                }
                self.is_reading = true;
                match send_msg(&self.this, WorkerMsg::Read) {
                    Ok(_) => {
                        self.self_cmds = Ghost(self.self_cmds@.push(WorkerMsg::Read));
                        Ok(Act::Continue)
                    },
                    Err(_) => Err(Error::SendError),
                }
            },
            Disposition::Skip => {
                self.is_reading = true;
                match send_msg(&self.this, WorkerMsg::Read) {
                    Ok(_) => {
                        self.self_cmds = Ghost(self.self_cmds@.push(WorkerMsg::Read));
                        Ok(Act::Continue)
                    },
                    Err(_) => Err(Error::SendError),
                }
            },
            Disposition::Terminate => {
                self.is_reading = false;
                shared.total_samples = self.samples_written;
                Ok(Act::Continue)
            },
        }
    }

    /// Reacts to a seek request; see [`Worker::seek_step`]. Asks the
    /// decoder to seek, logs the result, and on success applies the
    /// reached timestamp with [`Worker::apply_seek`]. A decoder that
    /// cannot seek leaves everything as it was.
    pub fn on_seek(&mut self, time_ms: u64, shared: &mut SharedState) -> (r: Result<Act, Error>)
        requires
            old(self).wf(),
            old(shared).wf(),
        ensures
            final(self).wf(),
            final(shared).wf(),
            Worker::seek_step(*old(self), *old(shared), time_ms, *final(self), *final(shared), r),
    {
        let result = self.input.seek(time_ms);
        self.sought = Ghost(self.sought@.push(result));
        proof {
            assert(self.sought@.subrange(0, old(self).sought@.len() as int) =~= old(self).sought@);
        }
        match result {
            Ok(timestamp) => {
                match self.apply_seek(timestamp, shared) {
                    Ok(_) => Ok(Act::Continue),
                    Err(e) => Err(e),
                }
            },
            Err(_) => {
                // Seek failures are recoverable: the request is dropped and
                // playback continues where it was.
                Ok(Act::Continue)
            },
        }
    }

    /// Applies a successful decoder seek that reached the frame timestamp
    /// `timestamp`: discards any staged packet, resets the written-sample
    /// counter and the shared play-head to the target (in interleaved
    /// samples), empties the ring buffer, and resumes reading if the read
    /// loop is not running.
    pub fn apply_seek(&mut self, timestamp: u64, shared: &mut SharedState) -> (r: Result<(), Error>)
        requires
            old(self).wf(),
            old(shared).wf(),
        ensures
            final(self).wf(),
            final(shared).wf(),
            final(shared).ring.capacity() == old(shared).ring.capacity(),
            final(self).signal == old(self).signal,
            final(self).this == old(self).this,
            final(shared).total_samples == old(shared).total_samples,
            final(self).pulled@ == old(self).pulled@,
            final(self).sought@ == old(self).sought@,
            ((r matches Err(_)) ==> (r matches Err(Error::SendError))),
            (r matches Ok(_)) ==> final(self).self_cmds@ == (if old(self).is_reading {
                old(self).self_cmds@
            } else {
                old(self).self_cmds@.push(WorkerMsg::Read)
            }),
            (r matches Ok(_)) ==> {
                &&& final(shared).ring@ =~= Seq::<Sample>::empty()
                &&& !final(self).pending()
                &&& final(self).staged@ == old(self).staged@
                &&& final(self).is_reading == old(self).is_reading
                &&& final(self).samples_written == clamp_u64(
                    timestamp as int * old(self).signal.channels as int,
                )
                &&& final(shared).position == final(self).samples_written
            },
            (r matches Err(_)) ==> {
                &&& *final(self) == *old(self)
                &&& *final(shared) == *old(shared)
                &&& !old(self).is_reading
            },
    {
        if !self.is_reading {
            // The read loop is parked (idle or waiting for space): it must
            // be kick-started explicitly, or playback would stall here.
            if let Err(_) = send_msg(&self.this, WorkerMsg::Read) {
                return Err(Error::SendError);
            }
            self.self_cmds = Ghost(self.self_cmds@.push(WorkerMsg::Read));
        }
        let len = self.staged.len();
        self.staged_start = len;
        let position = frames_to_samples(timestamp, self.signal.channels);
        self.samples_written = position;
        shared.position = position;
        shared.ring.clear();
        Ok(())
    }
}

} // verus!
