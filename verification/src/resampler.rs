use vstd::prelude::*;

use crate::sample::{silence, Sample};
use crate::shared::SharedState;
use crate::source::AudioSource;
use crate::timing::SignalSpec;

verus! {

/// The resampler and the channel mapper stop producing after this many
/// frames (about seven hundred years of audio at studio rates), so that
/// their frame counters never overflow.
pub const FRAME_LIMIT: u64 = 0x100_0000_0000;

/// The rate-conversion law between two sample streams: output frame `j`
/// carries input frame `floor(j * from / to)`, channel for channel.
pub open spec fn stream_resampled(
    in_log: Seq<Sample>,
    out_log: Seq<Sample>,
    ch: int,
    from: int,
    to: int,
    out_frames: int,
) -> bool {
    forall|j: int, k: int|
        0 <= j < out_frames && 0 <= k < ch ==> #[trigger] out_log[j * ch + k] == in_log[(j * from
            / to) * ch + k]
}

/// Extending the input stream beyond the frames already consumed never
/// disturbs the rate-conversion law for the frames already produced.
proof fn lemma_stream_resampled_extend_input(
    in1: Seq<Sample>,
    in2: Seq<Sample>,
    out_log: Seq<Sample>,
    ch: int,
    from: int,
    to: int,
    out_frames: int,
    in_frames: int,
)
    requires
        0 <= out_frames,
        1 <= ch,
        1 <= to,
        0 <= from,
        in1.is_prefix_of(in2),
        in_frames * ch <= in1.len(),
        forall|j: int|
            0 <= j < out_frames ==> #[trigger] (j * from / to) < in_frames,
        stream_resampled(in1, out_log, ch, from, to, out_frames),
    ensures
        stream_resampled(in2, out_log, ch, from, to, out_frames),
{
    assert forall|j: int, k: int| 0 <= j < out_frames && 0 <= k < ch implies #[trigger] out_log[j
        * ch + k] == in2[(j * from / to) * ch + k] by {
        let q = j * from / to;
        assert(j * from >= 0) by (nonlinear_arith)
            requires
                j >= 0,
                from >= 0,
        ;
        vstd::arithmetic::div_mod::lemma_div_pos_is_pos(j * from, to);
        assert(q < in_frames);
        assert(0 <= q * ch + k && q * ch + k < in_frames * ch) by (nonlinear_arith)
            requires
                0 <= q,
                q < in_frames,
                0 <= k < ch,
        ;
        assert(in1[q * ch + k] == in2[q * ch + k]);
    }
}

/// An audio source that converts its inner source from `from_rate` to
/// `to_rate` frames per second by frame repetition and omission: output
/// frame `j` carries input frame `floor(j * from_rate / to_rate)`, so the
/// stream's duration is preserved exactly up to one frame of rounding. The
/// type's invariant carries the whole-stream form of that law over the two
/// ghost logs.
///
/// The mapping is driven incrementally by the accumulator `acc`, which
/// maintains `acc == out_frames * from_rate - in_frames * to_rate +
/// to_rate`: a frame can be emitted while `acc < to_rate` (the current
/// input frame is still the right one), and more input is needed once
/// `acc >= to_rate`.
pub struct ResampledSource<S: AudioSource> {
    /// The source being resampled.
    pub inner: S,
    /// The inner source's rate, frames per second.
    pub from_rate: u32,
    /// The produced rate, frames per second.
    pub to_rate: u32,
    /// Channels per frame, unchanged from the inner source.
    pub channels: u32,
    /// The input frame that feeds the next output frame.
    pub cur_frame: Vec<Sample>,
    /// A partial input frame still being assembled from inner reads.
    pub fill: Vec<Sample>,
    /// The rate-conversion accumulator; see the type's invariant.
    pub acc: u64,
    /// Input frames fully consumed.
    pub in_frames: u64,
    /// Output frames emitted.
    pub out_frames: u64,
    /// Ghost log of every sample pulled from the inner source, in order.
    pub in_log: Ghost<Seq<Sample>>,
    /// Ghost log of every sample this source has produced, in order.
    pub out_log: Ghost<Seq<Sample>>,
}

impl<S: AudioSource> ResampledSource<S> {
    pub open spec fn inv(self) -> bool {
        &&& self.inner.wf()
        &&& self.inner.signal().valid()
        &&& self.channels == self.inner.signal().channels
        &&& self.from_rate == self.inner.signal().rate
        &&& self.to_rate >= 1
        &&& self.cur_frame@.len() == self.channels
        &&& self.fill@.len() < self.channels
        &&& self.acc as int == self.out_frames as int * self.from_rate as int
            - self.in_frames as int * self.to_rate as int + self.to_rate as int
        &&& (self.acc as int) < self.to_rate as int + self.from_rate as int
        &&& self.in_frames <= FRAME_LIMIT
        &&& self.out_frames <= FRAME_LIMIT
        &&& self.in_log@.len() == self.in_frames as int * self.channels as int + self.fill@.len()
        &&& self.fill@ == self.in_log@.skip(self.in_frames as int * self.channels as int)
        &&& (self.in_frames >= 1 ==> self.cur_frame@ == self.in_log@.subrange(
            (self.in_frames as int - 1) * self.channels as int,
            self.in_frames as int * self.channels as int,
        ))
        &&& self.out_log@.len() == self.out_frames as int * self.channels as int
        &&& (forall|j: int|
            0 <= j < self.out_frames as int ==> #[trigger] (j * self.from_rate as int
                / self.to_rate as int) < self.in_frames as int)
        &&& stream_resampled(
            self.in_log@,
            self.out_log@,
            self.channels as int,
            self.from_rate as int,
            self.to_rate as int,
            self.out_frames as int,
        )
    }

    /// True when no further frame can be produced before more input
    /// frames arrive from the inner source.
    pub open spec fn needs_input(self) -> bool {
        self.acc >= self.to_rate
    }

    /// Wraps `inner`, producing the same channels at `to_rate` frames per
    /// second.
    pub fn new(inner: S, to_rate: u32) -> (r: ResampledSource<S>)
        requires
            inner.wf(),
            inner.signal().valid(),
            to_rate >= 1,
        ensures
            r.inv(),
            r.signal() == (SignalSpec { rate: to_rate, channels: inner.signal().channels }),
            r.in_frames == 0,
            r.out_frames == 0,
            r.in_log@ =~= Seq::<Sample>::empty(),
            r.out_log@ =~= Seq::<Sample>::empty(),
    {
        let channels = inner.channel_count();
        let from_rate = inner.sample_rate();
        let mut cur_frame: Vec<Sample> = Vec::new();
        let mut k: u32 = 0;
        while k < channels
            invariant
                k <= channels,
                cur_frame@.len() == k,
            decreases channels - k,
        {
            cur_frame.push(silence());
            k = k + 1;
        }
        let r = ResampledSource {
            inner,
            from_rate,
            to_rate,
            channels,
            cur_frame,
            fill: Vec::new(),
            acc: to_rate as u64,
            in_frames: 0,
            out_frames: 0,
            in_log: Ghost(Seq::empty()),
            out_log: Ghost(Seq::empty()),
        };
        proof {
            let ch = r.channels as int;
            let from = r.from_rate as int;
            let t2 = r.to_rate as int;
            assert(0 * ch == 0 && 0 * from == 0 && 0 * t2 == 0) by (nonlinear_arith);
            assert(r.fill@ =~= r.in_log@.skip(0 * ch));
            assert(r.out_log@.len() == 0 * ch);
            assert(r.in_log@.len() == 0 * ch + r.fill@.len());
            assert(r.acc as int == 0 * from - 0 * t2 + t2);
            assert(r.inner.wf());
            assert(r.cur_frame@.len() == r.channels);
            assert(stream_resampled(r.in_log@, r.out_log@, ch, from, t2, 0));
        }
        r
    }
}

/// Resampling preserves total duration: once a well-formed resampler can
/// produce nothing more without input (as at the end of the stream), its
/// output frame count is exactly `in_frames * to_rate / from_rate` rounded
/// up — within one frame of the real-valued target, however long the
/// stream ran.
pub proof fn lemma_resampling_preserves_duration<S: AudioSource>(r: ResampledSource<S>)
    requires
        r.inv(),
        r.needs_input(),
        r.from_rate >= 1,
    ensures
        (r.out_frames as int) * (r.from_rate as int) >= (r.in_frames as int) * (r.to_rate as int),
        (r.out_frames as int) * (r.from_rate as int) < (r.in_frames as int) * (r.to_rate as int)
            + r.from_rate as int,
        r.out_frames as int == ((r.in_frames as int) * (r.to_rate as int) + r.from_rate as int
            - 1) / (r.from_rate as int),
{
    let from = r.from_rate as int;
    let to = r.to_rate as int;
    let inf = r.in_frames as int;
    let out = r.out_frames as int;
    assert(out * from >= inf * to);
    assert(out * from < inf * to + from);
    assert(out == (inf * to + from - 1) / from) by (nonlinear_arith)
        requires
            from >= 1,
            to >= 1,
            inf >= 0,
            out >= 0,
            out * from >= inf * to,
            out * from < inf * to + from,
    ;
}

impl<S: AudioSource> AudioSource for ResampledSource<S> {
    open spec fn signal(&self) -> SignalSpec {
        SignalSpec { rate: self.to_rate, channels: self.channels }
    }

    open spec fn wf(&self) -> bool {
        self.inv()
    }

    /// Produces whole frames at the target rate until the output buffer is
    /// full or the inner source runs dry. What was written is exactly the
    /// continuation of the produced stream, and the invariant's
    /// [`stream_resampled`] ties every produced sample to the consumed
    /// stream: output frame `j` is a copy of input frame
    /// `floor(j * from_rate / to_rate)`.
    fn write(&mut self, shared: &mut SharedState, output: &mut Vec<Sample>) -> (n: usize)
        ensures
            n as int == (final(self).out_frames - old(self).out_frames) * old(self).channels as int,
            final(self).channels == old(self).channels,
            final(self).to_rate == old(self).to_rate,
            final(self).from_rate == old(self).from_rate,
            old(self).out_frames <= final(self).out_frames,
            old(self).in_frames <= final(self).in_frames,
            old(self).in_log@.is_prefix_of(final(self).in_log@),
            final(self).out_log@ == old(self).out_log@ + final(output)@.subrange(0, n as int),
    {
        let out_c = self.channels as usize;
        let total = output.len();
        let ghost sig0 = self.inner.signal();
        let ghost pos0 = shared.position;
        let ghost total0 = shared.total_samples;
        let ghost cap0 = shared.ring.capacity();
        let ghost out0 = self.out_frames;
        let ghost in0 = self.in_frames;
        let ghost to0 = self.to_rate;
        let ghost in_log0 = self.in_log@;
        let ghost out_log0 = self.out_log@;
        let mut produced: usize = 0;
        while out_c <= total - produced
            invariant
                self.inv(),
                shared.wf(),
                self.inner.signal() == sig0,
                self.channels as usize == out_c,
                self.to_rate == to0,
                out_c >= 1,
                shared.ring.capacity() == cap0,
                shared.total_samples == total0,
                pos0 <= shared.position,
                output@.len() == total,
                produced <= total,
                self.out_frames >= out0,
                self.in_frames >= in0,
                produced as int == (self.out_frames - out0) * out_c as int,
                in_log0.is_prefix_of(self.in_log@),
                self.out_log@ == out_log0 + output@.subrange(0, produced as int),
            ensures
                self.inv(),
                shared.wf(),
                self.inner.signal() == sig0,
                self.channels as usize == out_c,
                self.to_rate == to0,
                shared.ring.capacity() == cap0,
                shared.total_samples == total0,
                pos0 <= shared.position,
                output@.len() == total,
                produced <= total,
                self.out_frames >= out0,
                self.in_frames >= in0,
                produced as int == (self.out_frames - out0) * out_c as int,
                in_log0.is_prefix_of(self.in_log@),
                self.out_log@ == out_log0 + output@.subrange(0, produced as int),
            decreases total - produced,
        {
            let ghost outb = self.out_frames;
            let mut starved = false;
            while self.acc >= self.to_rate as u64
                invariant
                    self.inv(),
                    shared.wf(),
                    self.inner.signal() == sig0,
                    self.channels as usize == out_c,
                    self.to_rate == to0,
                    out_c >= 1,
                    shared.ring.capacity() == cap0,
                    shared.total_samples == total0,
                    pos0 <= shared.position,
                    output@.len() == total,
                    produced <= total,
                    self.out_frames == outb,
                    self.in_frames >= in0,
                    in_log0.is_prefix_of(self.in_log@),
                    self.out_log@ == out_log0 + output@.subrange(0, produced as int),
                ensures
                    self.inv(),
                    shared.wf(),
                    self.inner.signal() == sig0,
                    self.channels as usize == out_c,
                    self.to_rate == to0,
                    out_c >= 1,
                    shared.ring.capacity() == cap0,
                    shared.total_samples == total0,
                    pos0 <= shared.position,
                    output@.len() == total,
                    produced <= total,
                    self.out_frames == outb,
                    self.in_frames >= in0,
                    in_log0.is_prefix_of(self.in_log@),
                    self.out_log@ == out_log0 + output@.subrange(0, produced as int),
                    starved || self.acc < self.to_rate as u64,
                decreases self.acc, self.channels - self.fill.len(),
            {
                if self.in_frames >= FRAME_LIMIT {
                    starved = true;
                    break ;
                }
                let missing = out_c - self.fill.len();
                let mut tmp: Vec<Sample> = Vec::new();
                let mut t: usize = 0;
                while t < missing
                    invariant
                        t <= missing,
                        tmp@.len() == t,
                    decreases missing - t,
                {
                    tmp.push(silence());
                    t = t + 1;
                }
                let k = self.inner.write(shared, &mut tmp);
                if k == 0 {
                    starved = true;
                    break ;
                }
                tmp.truncate(k);
                proof {
                    let ch = self.channels as int;
                    let inf = self.in_frames as int;
                    lemma_stream_resampled_extend_input(
                        self.in_log@,
                        self.in_log@ + tmp@,
                        self.out_log@,
                        ch,
                        self.from_rate as int,
                        self.to_rate as int,
                        self.out_frames as int,
                        inf,
                    );
                    if self.in_frames >= 1 {
                        assert(inf * ch - (inf - 1) * ch == ch) by (nonlinear_arith);
                        assert((inf - 1) * ch >= 0) by (nonlinear_arith)
                            requires
                                inf >= 1,
                                ch >= 0,
                        ;
                        assert forall|i: int| 0 <= i < ch implies #[trigger] (self.in_log@
                            + tmp@)[(inf - 1) * ch + i] == self.in_log@[(inf - 1) * ch + i] by {}
                        assert(self.cur_frame@ =~= (self.in_log@ + tmp@).subrange(
                            (inf - 1) * ch,
                            inf * ch,
                        ));
                    }
                }
                self.in_log = Ghost(self.in_log@ + tmp@);
                self.fill.append(&mut tmp);
                proof {
                    assert(self.fill@ =~= self.in_log@.skip(
                        self.in_frames as int * self.channels as int,
                    ));
                }
                if self.fill.len() == out_c {
                    proof {
                        let inf = self.in_frames as int;
                        let t2 = self.to_rate as int;
                        let ch = self.channels as int;
                        assert((inf + 1) * t2 == inf * t2 + t2) by (nonlinear_arith);
                        assert((inf + 1) * ch == inf * ch + ch) by (nonlinear_arith);
                        // the completed frame sits at the end of the log
                        assert(self.fill@ =~= self.in_log@.subrange(inf * ch, inf * ch + ch));
                    }
                    let mut next: Vec<Sample> = Vec::new();
                    core::mem::swap(&mut self.fill, &mut next);
                    self.cur_frame = next;
                    self.in_frames = self.in_frames + 1;
                    self.acc = self.acc - self.to_rate as u64;
                    proof {
                        assert(self.fill@ =~= self.in_log@.skip(
                            self.in_frames as int * self.channels as int,
                        ));
                    }
                }
            }
            if starved {
                break ;
            }
            if self.out_frames >= FRAME_LIMIT {
                break ;
            }
            let ghost out_snap = output@;
            let mut ch: usize = 0;
            while ch < out_c
                invariant
                    ch <= out_c,
                    produced + out_c <= total,
                    output@.len() == total,
                    out_snap.len() == total,
                    self.cur_frame@.len() == out_c,
                    forall|i: int| 0 <= i < produced ==> output@[i] == out_snap[i],
                    forall|k2: int|
                        0 <= k2 < ch as int ==> output@[produced + k2] == self.cur_frame@[k2],
                decreases out_c - ch,
            {
                output[produced + ch] = self.cur_frame[ch];
                ch = ch + 1;
            }
            proof {
                let j = self.out_frames as int;
                let inf = self.in_frames as int;
                let from = self.from_rate as int;
                let t2 = self.to_rate as int;
                let chn = out_c as int;
                let a = self.acc as int;
                // the accumulator identifies the input frame feeding j
                assert((inf - 1) * t2 == inf * t2 - t2) by (nonlinear_arith);
                assert(j * from == (inf - 1) * t2 + a);
                assert(j * from >= 0) by (nonlinear_arith)
                    requires
                        j >= 0,
                        from >= 0,
                ;
                assert(inf >= 1) by (nonlinear_arith)
                    requires
                        j * from >= 0,
                        j * from == (inf - 1) * t2 + a,
                        0 <= a < t2,
                ;
                vstd::arithmetic::div_mod::lemma_fundamental_div_mod_converse(
                    j * from,
                    t2,
                    inf - 1,
                    a,
                );
                assert(j * from / t2 == inf - 1);
            }
            let ghost newframe = self.cur_frame@;
            self.out_log = Ghost(self.out_log@ + newframe);
            let ghost produced_old = produced as int;
            produced = produced + out_c;
            self.out_frames = self.out_frames + 1;
            self.acc = self.acc + self.from_rate as u64;
            proof {
                let oc = out_c as int;
                let chn = oc;
                let jj = self.out_frames as int - 1;
                let inf = self.in_frames as int;
                let from = self.from_rate as int;
                let t2 = self.to_rate as int;
                assert(produced as int == (self.out_frames - out0) * oc) by (nonlinear_arith)
                    requires
                        produced_old == (self.out_frames - 1 - out0) * oc,
                        produced as int == produced_old + oc,
                ;
                assert(self.out_log@.len() == self.out_frames as int * oc) by (nonlinear_arith)
                    requires
                        self.out_log@.len() == (self.out_frames as int - 1) * oc + oc,
                ;
                assert((jj + 1) * from == jj * from + from) by (nonlinear_arith);
                assert((self.out_frames as int) * from == jj * from + from);
                // the rate-conversion law extends to the new frame
                assert forall|j2: int, k: int|
                    0 <= j2 < self.out_frames as int && 0 <= k < chn implies #[trigger] self.out_log@[
                    j2 * chn + k] == self.in_log@[(j2 * from / t2) * chn + k] by {
                    if j2 < jj {
                        assert(0 <= j2 * chn + k && j2 * chn + k < jj * chn) by (nonlinear_arith)
                            requires
                                0 <= j2 < jj,
                                0 <= k < chn,
                        ;
                    } else {
                        assert(j2 * chn + k == jj * chn + k) by (nonlinear_arith)
                            requires
                                j2 == jj,
                        ;
                        assert(self.out_log@[jj * chn + k] == newframe[k]);
                        assert(newframe == self.in_log@.subrange((inf - 1) * chn, inf * chn));
                        assert(inf * chn - (inf - 1) * chn == chn) by (nonlinear_arith);
                        assert(self.in_log@.subrange((inf - 1) * chn, inf * chn)[k]
                            == self.in_log@[(inf - 1) * chn + k]);
                        assert(newframe[k] == self.in_log@[(inf - 1) * chn + k]);
                        assert(j2 * from / t2 == inf - 1);
                    }
                }
                // the frame-selection bound extends to the new frame
                assert forall|j2: int| 0 <= j2 < self.out_frames as int implies #[trigger] (j2
                    * from / t2) < inf by {
                    if j2 == jj {
                        assert(j2 * from / t2 == inf - 1);
                    }
                }
                // what the output now holds is the produced continuation
                assert(output@.subrange(0, produced as int) =~= out_snap.subrange(
                    0,
                    produced_old,
                ) + newframe);
                assert((out_log0 + out_snap.subrange(0, produced_old)) + newframe =~= out_log0 + (
                out_snap.subrange(0, produced_old) + newframe));
                assert(self.out_log@ == out_log0 + output@.subrange(0, produced as int));
            }
        }
        produced
    }

    fn channel_count(&self) -> (c: u32) {
        self.channels
    }

    fn sample_rate(&self) -> (rate: u32) {
        self.to_rate
    }
}

} // verus!
