use vstd::prelude::*;

use crate::resampler::FRAME_LIMIT;
use crate::sample::{is_silence, silence, Sample};
use crate::shared::SharedState;
use crate::source::AudioSource;
use crate::timing::SignalSpec;

verus! {

/// One frame mapped onto `out_channels` channels: channel `k` carries the
/// source's channel `k` where the source has one, and silence otherwise —
/// the first `min(in, out)` channels are preserved unaltered, the rest of
/// the device's channels are silenced, and extra source channels are
/// dropped.
pub open spec fn mapped_frame(frame: Seq<Sample>, out_channels: int) -> Seq<Sample> {
    Seq::new(
        out_channels as nat,
        |k: int|
            if k < frame.len() {
                frame[k]
            } else {
                Sample { bits: 0 }
            },
    )
}

/// Mapping a mono frame into a stereo device yields exactly two output
/// channels: the first carries the source sample unaltered, the second is
/// silent — a deterministic map that never changes amplitude.
pub proof fn lemma_mono_to_stereo(frame: Seq<Sample>)
    requires
        frame.len() == 1,
    ensures
        mapped_frame(frame, 2).len() == 2,
        mapped_frame(frame, 2)[0] == frame[0],
        is_silence(mapped_frame(frame, 2)[1]),
{
}

/// The frame-for-frame channel-mapping law between two sample streams:
/// for each of the first `frames` frames, output channel `k` carries input
/// channel `k` where the input has one and silence otherwise.
pub open spec fn stream_mapped(
    in_log: Seq<Sample>,
    out_log: Seq<Sample>,
    in_c: int,
    out_c: int,
    frames: int,
) -> bool {
    forall|f: int, k: int|
        0 <= f < frames && 0 <= k < out_c ==> #[trigger] out_log[f * out_c + k] == (if k < in_c {
            in_log[f * in_c + k]
        } else {
            Sample { bits: 0 }
        })
}

/// Extending the input stream beyond the frames already mapped never
/// disturbs the mapping of those frames.
proof fn lemma_stream_mapped_extend_input(
    in1: Seq<Sample>,
    in2: Seq<Sample>,
    out_log: Seq<Sample>,
    in_c: int,
    out_c: int,
    frames: int,
)
    requires
        0 <= frames,
        0 <= in_c,
        in1.is_prefix_of(in2),
        frames * in_c <= in1.len(),
        stream_mapped(in1, out_log, in_c, out_c, frames),
    ensures
        stream_mapped(in2, out_log, in_c, out_c, frames),
{
    assert forall|f: int, k: int| 0 <= f < frames && 0 <= k < out_c implies #[trigger] out_log[f
        * out_c + k] == (if k < in_c {
        in2[f * in_c + k]
    } else {
        Sample { bits: 0 }
    }) by {
        if k < in_c {
            assert(0 <= f * in_c + k && f * in_c + k < frames * in_c) by (nonlinear_arith)
                requires
                    0 <= f < frames,
                    0 <= k < in_c,
            ;
            assert(in1[f * in_c + k] == in2[f * in_c + k]);
        }
    }
}

/// The content law of the whole adaptation chain. When one stream is the
/// rate-converted image of the source stream (the resampler's law) and a
/// second stream is the channel-mapped image of the first (the mapper's
/// law), every device sample is pinned: output frame `f`, channel `k`
/// carries the source's channel `k` of frame `floor(f * from / to)` where
/// the source has that channel, and silence otherwise.
pub proof fn lemma_chain_content(
    source_log: Seq<Sample>,
    resampled_log: Seq<Sample>,
    device_log: Seq<Sample>,
    in_c: int,
    out_c: int,
    from: int,
    to: int,
    frames: int,
    resampled_frames: int,
)
    requires
        1 <= to,
        0 <= from,
        1 <= in_c,
        0 <= frames <= resampled_frames,
        crate::resampler::stream_resampled(
            source_log,
            resampled_log,
            in_c,
            from,
            to,
            resampled_frames,
        ),
        stream_mapped(resampled_log, device_log, in_c, out_c, frames),
    ensures
        forall|f: int, k: int|
            0 <= f < frames && 0 <= k < out_c ==> #[trigger] device_log[f * out_c + k] == (if k
                < in_c {
                source_log[(f * from / to) * in_c + k]
            } else {
                Sample { bits: 0 }
            }),
{
    assert forall|f: int, k: int| 0 <= f < frames && 0 <= k < out_c implies #[trigger] device_log[f
        * out_c + k] == (if k < in_c {
        source_log[(f * from / to) * in_c + k]
    } else {
        Sample { bits: 0 }
    }) by {
        if k < in_c {
            assert(device_log[f * out_c + k] == resampled_log[f * in_c + k]);
            assert(resampled_log[f * in_c + k] == source_log[(f * from / to) * in_c + k]);
        }
    }
}

/// An audio source that adapts its inner source's channel count to the
/// output device's: frame for frame, each output frame is
/// [`mapped_frame`] of the corresponding input frame. The type's invariant
/// carries the whole-stream form of that law over the two ghost logs.
pub struct ChannelMappedSource<S: AudioSource> {
    /// The source being adapted.
    pub inner: S,
    /// Channels per frame of the inner source.
    pub in_channels: u32,
    /// Channels per frame this source produces.
    pub out_channels: u32,
    /// A partial input frame still being assembled from inner reads.
    pub fill: Vec<Sample>,
    /// Frames mapped so far.
    pub frames: u64,
    /// Ghost log of every sample pulled from the inner source, in order.
    pub in_log: Ghost<Seq<Sample>>,
    /// Ghost log of every sample this source has produced, in order.
    pub out_log: Ghost<Seq<Sample>>,
}

impl<S: AudioSource> ChannelMappedSource<S> {
    pub open spec fn inv(self) -> bool {
        &&& self.inner.wf()
        &&& self.inner.signal().valid()
        &&& self.in_channels == self.inner.signal().channels
        &&& self.out_channels >= 1
        &&& self.fill@.len() <= self.in_channels
        &&& self.frames <= FRAME_LIMIT
        &&& self.fill@ == self.in_log@.skip(self.frames as int * self.in_channels as int)
        &&& self.in_log@.len() == self.frames as int * self.in_channels as int + self.fill@.len()
        &&& self.out_log@.len() == self.frames as int * self.out_channels as int
        &&& stream_mapped(
            self.in_log@,
            self.out_log@,
            self.in_channels as int,
            self.out_channels as int,
            self.frames as int,
        )
    }

    /// Wraps `inner`, producing `out_channels` channels at its rate.
    pub fn new(inner: S, out_channels: u32) -> (r: ChannelMappedSource<S>)
        requires
            inner.wf(),
            inner.signal().valid(),
            out_channels >= 1,
        ensures
            r.inv(),
            r.signal() == (SignalSpec { rate: inner.signal().rate, channels: out_channels }),
            r.frames == 0,
            r.in_log@ =~= Seq::<Sample>::empty(),
            r.out_log@ =~= Seq::<Sample>::empty(),
    {
        let in_channels = inner.channel_count();
        let r = ChannelMappedSource {
            inner,
            in_channels,
            out_channels,
            fill: Vec::new(),
            frames: 0,
            in_log: Ghost(Seq::empty()),
            out_log: Ghost(Seq::empty()),
        };
        proof {
            assert(r.fill@ =~= r.in_log@.skip(0));
        }
        r
    }
}

impl<S: AudioSource> AudioSource for ChannelMappedSource<S> {
    open spec fn signal(&self) -> SignalSpec {
        SignalSpec { rate: self.inner.signal().rate, channels: self.out_channels }
    }

    open spec fn wf(&self) -> bool {
        self.inv()
    }

    /// Produces whole mapped frames until the output buffer is full or the
    /// inner source runs dry. What was written is exactly the continuation
    /// of the produced stream, and the invariant's [`stream_mapped`] ties
    /// every produced sample to the consumed stream: the first
    /// `min(in, out)` channels are preserved, the rest are silenced.
    fn write(&mut self, shared: &mut SharedState, output: &mut Vec<Sample>) -> (n: usize)
        ensures
            n as int == (final(self).frames - old(self).frames) * old(self).out_channels as int,
            final(self).out_channels == old(self).out_channels,
            final(self).in_channels == old(self).in_channels,
            old(self).frames <= final(self).frames,
            old(self).in_log@.is_prefix_of(final(self).in_log@),
            final(self).out_log@ == old(self).out_log@ + final(output)@.subrange(0, n as int),
            forall|f: int, k: int|
                0 <= f < final(self).frames - old(self).frames
                    && vstd::math::min(
                    old(self).in_channels as int,
                    old(self).out_channels as int,
                ) <= k < old(self).out_channels as int ==> is_silence(
                    #[trigger] final(output)@[f * old(self).out_channels as int + k],
                ),
    {
        let in_c = self.in_channels as usize;
        let out_c = self.out_channels as usize;
        let total = output.len();
        let ghost sig0 = self.inner.signal();
        let ghost pos0 = shared.position;
        let ghost total0 = shared.total_samples;
        let ghost cap0 = shared.ring.capacity();
        let ghost frames0 = self.frames;
        let ghost outch0 = self.out_channels;
        let ghost in_log0 = self.in_log@;
        let ghost out_log0 = self.out_log@;
        let mut produced: usize = 0;
        while out_c <= total - produced
            invariant
                self.inv(),
                shared.wf(),
                self.inner.signal() == sig0,
                self.in_channels as usize == in_c,
                self.out_channels as usize == out_c,
                self.out_channels == outch0,
                in_c >= 1,
                out_c >= 1,
                shared.ring.capacity() == cap0,
                shared.total_samples == total0,
                pos0 <= shared.position,
                output@.len() == total,
                produced <= total,
                self.frames >= frames0,
                produced as int == (self.frames - frames0) * out_c as int,
                in_log0.is_prefix_of(self.in_log@),
                self.out_log@ == out_log0 + output@.subrange(0, produced as int),
                forall|f: int, k: int|
                    0 <= f < self.frames - frames0 && vstd::math::min(in_c as int, out_c as int)
                        <= k < out_c as int ==> is_silence(
                        #[trigger] output@[f * out_c as int + k],
                    ),
            ensures
                self.inv(),
                shared.wf(),
                self.inner.signal() == sig0,
                self.in_channels as usize == in_c,
                self.out_channels as usize == out_c,
                self.out_channels == outch0,
                shared.ring.capacity() == cap0,
                shared.total_samples == total0,
                pos0 <= shared.position,
                output@.len() == total,
                produced <= total,
                self.frames >= frames0,
                produced as int == (self.frames - frames0) * out_c as int,
                in_log0.is_prefix_of(self.in_log@),
                self.out_log@ == out_log0 + output@.subrange(0, produced as int),
                forall|f: int, k: int|
                    0 <= f < self.frames - frames0 && vstd::math::min(in_c as int, out_c as int)
                        <= k < out_c as int ==> is_silence(
                        #[trigger] output@[f * out_c as int + k],
                    ),
            decreases total - produced,
        {
            let ghost framesb = self.frames;
            let mut starved = false;
            while self.fill.len() < in_c
                invariant
                    self.inv(),
                    shared.wf(),
                    self.inner.signal() == sig0,
                    self.in_channels as usize == in_c,
                    self.out_channels as usize == out_c,
                    self.out_channels == outch0,
                    in_c >= 1,
                    out_c >= 1,
                    shared.ring.capacity() == cap0,
                    shared.total_samples == total0,
                    pos0 <= shared.position,
                    output@.len() == total,
                    produced <= total,
                    self.frames == framesb,
                    self.frames >= frames0,
                    produced as int == (self.frames - frames0) * out_c as int,
                    in_log0.is_prefix_of(self.in_log@),
                    self.out_log@ == out_log0 + output@.subrange(0, produced as int),
                    forall|f: int, k: int|
                        0 <= f < self.frames - frames0 && vstd::math::min(in_c as int, out_c as int)
                            <= k < out_c as int ==> is_silence(
                            #[trigger] output@[f * out_c as int + k],
                        ),
                ensures
                    self.inv(),
                    shared.wf(),
                    self.inner.signal() == sig0,
                    self.in_channels as usize == in_c,
                    self.out_channels as usize == out_c,
                    self.out_channels == outch0,
                    shared.ring.capacity() == cap0,
                    shared.total_samples == total0,
                    pos0 <= shared.position,
                    output@.len() == total,
                    produced <= total,
                    self.frames == framesb,
                    self.frames >= frames0,
                    produced as int == (self.frames - frames0) * out_c as int,
                    in_log0.is_prefix_of(self.in_log@),
                    self.out_log@ == out_log0 + output@.subrange(0, produced as int),
                    starved || self.fill@.len() == in_c,
                    forall|f: int, k: int|
                        0 <= f < self.frames - frames0 && vstd::math::min(in_c as int, out_c as int)
                            <= k < out_c as int ==> is_silence(
                            #[trigger] output@[f * out_c as int + k],
                        ),
                decreases in_c - self.fill.len(),
            {
                let missing = in_c - self.fill.len();
                let mut tmp: Vec<Sample> = Vec::new();
                let mut t: usize = 0;
                while t < missing
                    invariant
                        t <= missing,
                        tmp@.len() == t,
                    decreases missing - t,
                {
                    tmp.push(silence());
                    t = t + 1;
                }
                let k = self.inner.write(shared, &mut tmp);
                if k == 0 {
                    starved = true;
                    break ;
                }
                tmp.truncate(k);
                proof {
                    lemma_stream_mapped_extend_input(
                        self.in_log@,
                        self.in_log@ + tmp@,
                        self.out_log@,
                        in_c as int,
                        out_c as int,
                        self.frames as int,
                    );
                }
                self.in_log = Ghost(self.in_log@ + tmp@);
                self.fill.append(&mut tmp);
                proof {
                    assert(self.fill@ =~= self.in_log@.skip(
                        self.frames as int * self.in_channels as int,
                    ));
                }
            }
            if starved {
                break ;
            }
            if self.frames >= FRAME_LIMIT {
                break ;
            }
            let ghost out_snap = output@;
            let mut kk: usize = 0;
            while kk < out_c
                invariant
                    kk <= out_c,
                    produced + out_c <= total,
                    output@.len() == total,
                    out_snap.len() == total,
                    self.fill@.len() == in_c,
                    self.in_channels as usize == in_c,
                    forall|i: int| 0 <= i < produced ==> output@[i] == out_snap[i],
                    forall|k2: int|
                        in_c as int <= k2 < kk as int ==> is_silence(
                            #[trigger] output@[produced + k2],
                        ),
                    forall|k2: int|
                        0 <= k2 < kk as int && k2 < in_c as int ==> output@[produced + k2]
                            == self.fill@[k2],
                decreases out_c - kk,
            {
                if kk < in_c {
                    output[produced + kk] = self.fill[kk];
                } else {
                    output[produced + kk] = silence();
                }
                kk = kk + 1;
            }
            let ghost newframe = Seq::new(
                out_c as nat,
                |k: int|
                    if k < in_c as int {
                        self.fill@[k]
                    } else {
                        Sample { bits: 0 }
                    },
            );
            proof {
                let oc = out_c as int;
                let ic = in_c as int;
                let fr = self.frames as int;
                // the emitted region of the output equals the new frame
                assert forall|k: int| 0 <= k < oc implies output@[produced + k] == newframe[k] by {
                    if k < ic {
                    } else {
                        assert(is_silence(output@[produced + k]));
                    }
                }
                // the completed frame sits at the end of the consumed log
                assert forall|k: int| 0 <= k < ic implies self.fill@[k] == self.in_log@[fr * ic
                    + k] by {
                    assert(self.fill@[k] == self.in_log@.skip(fr * ic)[k]);
                }
            }
            self.out_log = Ghost(self.out_log@ + newframe);
            self.fill.clear();
            self.frames = self.frames + 1;
            let ghost produced_old = produced as int;
            produced = produced + out_c;
            proof {
                let oc = out_c as int;
                let ic = in_c as int;
                let nf = self.frames - frames0;
                let fr = self.frames as int - 1;
                assert(produced as int == nf * oc) by (nonlinear_arith)
                    requires
                        produced_old == (nf - 1) * oc,
                        produced as int == produced_old + oc,
                ;
                assert(self.out_log@.len() == self.frames as int * oc) by (nonlinear_arith)
                    requires
                        self.out_log@.len() == (self.frames as int - 1) * oc + oc,
                ;
                assert(self.in_log@.len() == self.frames as int * ic + self.fill@.len())
                    by (nonlinear_arith)
                    requires
                        self.in_log@.len() == (self.frames as int - 1) * ic + ic,
                        self.fill@.len() == 0,
                ;
                assert(self.fill@ =~= self.in_log@.skip(self.frames as int * ic));
                // the stream-mapping law extends to the new frame
                assert forall|f: int, k: int| 0 <= f < self.frames as int && 0 <= k < oc implies
                    #[trigger] self.out_log@[f * oc + k] == (if k < ic {
                    self.in_log@[f * ic + k]
                } else {
                    Sample { bits: 0 }
                }) by {
                    if f < fr {
                        assert(0 <= f * oc + k && f * oc + k < fr * oc) by (nonlinear_arith)
                            requires
                                0 <= f < fr,
                                0 <= k < oc,
                        ;
                    } else {
                        assert(f * oc + k == fr * oc + k) by (nonlinear_arith)
                            requires
                                f == fr,
                        ;
                        assert(self.out_log@[fr * oc + k] == newframe[k]);
                    }
                }
                // what the output now holds is the produced continuation
                assert(output@.subrange(0, produced as int) =~= out_snap.subrange(
                    0,
                    produced_old,
                ) + newframe);
                assert((out_log0 + out_snap.subrange(0, produced_old)) + newframe =~= out_log0 + (
                out_snap.subrange(0, produced_old) + newframe));
                assert(self.out_log@ == out_log0 + output@.subrange(0, produced as int));
                // the silencing clause covers the new frame too
                assert forall|f: int, k: int|
                    0 <= f < nf && vstd::math::min(ic, oc) <= k < oc implies is_silence(
                    #[trigger] output@[f * oc + k],
                ) by {
                    if f < nf - 1 {
                        assert(0 <= f * oc + k && f * oc + k < produced_old) by (nonlinear_arith)
                            requires
                                0 <= f,
                                f <= nf - 2,
                                0 <= k < oc,
                                produced_old == (nf - 1) * oc,
                        ;
                        assert(output@[f * oc + k] == out_snap[f * oc + k]);
                    } else {
                        assert(f * oc + k == produced_old + k) by (nonlinear_arith)
                            requires
                                f == nf - 1,
                                produced_old == (nf - 1) * oc,
                        ;
                        assert(vstd::math::min(ic, oc) <= k);
                        assert(is_silence(output@[produced_old + k]));
                    }
                }
            }
        }
        produced
    }

    fn channel_count(&self) -> (c: u32) {
        self.out_channels
    }

    fn sample_rate(&self) -> (rate: u32) {
        self.inner.sample_rate()
    }
}

} // verus!
