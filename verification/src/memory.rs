use vstd::prelude::*;

use crate::error::Error;
use crate::sample::Sample;
use crate::timing::SignalSpec;
use crate::worker::{PacketAttempt, PacketDecoder};

verus! {

/// A decoder over interleaved samples held in memory: the whole stream is
/// known up front and served packet by packet, `frames_per_packet` frames
/// at a time. Chosen packets can be marked corrupt, in which case the
/// decoder reports invalid data for them and their samples are lost — the
/// same observable behaviour a damaged packet has in a real container.
///
/// Seeks always succeed and land on the packet boundary at or before the
/// requested time.
pub struct MemoryDecoder {
    /// The interleaved samples of the whole stream.
    pub samples: Vec<Sample>,
    /// The stream's signal.
    pub signal: SignalSpec,
    /// Frames served per packet.
    pub frames_per_packet: usize,
    /// The read cursor, in frames.
    pub frame_cursor: usize,
    /// Indices of packets that report invalid data instead of samples.
    pub corrupt_packets: Vec<usize>,
}

impl MemoryDecoder {
    pub open spec fn inv(self) -> bool {
        &&& self.signal.valid()
        &&& self.frames_per_packet >= 1
        &&& self.samples@.len() as int % (self.signal.channels as int) == 0
        &&& self.frame_cursor <= self.total_frames()
    }

    /// How many frames the stream holds.
    pub open spec fn total_frames(self) -> nat {
        self.samples@.len() / (self.signal.channels as nat)
    }

    /// The packet index the cursor stands in.
    pub open spec fn packet_index(self) -> nat {
        (self.frame_cursor as nat) / (self.frames_per_packet as nat)
    }

    pub open spec fn is_corrupt(self, packet: nat) -> bool {
        exists|i: int| 0 <= i < self.corrupt_packets@.len() && self.corrupt_packets@[i] == packet
    }

    /// A decoder over `samples`, positioned at the start.
    pub fn new(
        samples: Vec<Sample>,
        signal: SignalSpec,
        frames_per_packet: usize,
        corrupt_packets: Vec<usize>,
    ) -> (d: MemoryDecoder)
        requires
            signal.valid(),
            frames_per_packet >= 1,
            samples@.len() as int % (signal.channels as int) == 0,
        ensures
            d.inv(),
            d.samples@ == samples@,
            d.signal == signal,
            d.frames_per_packet == frames_per_packet,
            d.frame_cursor == 0,
            d.corrupt_packets@ == corrupt_packets@,
    {
        MemoryDecoder { samples, signal, frames_per_packet, frame_cursor: 0, corrupt_packets }
    }

    /// Whether the packet the cursor stands in is marked corrupt.
    fn cursor_packet_corrupt(&self) -> (b: bool)
        requires
            self.frames_per_packet >= 1,
        ensures
            b == self.is_corrupt(self.packet_index()),
    {
        let packet = self.frame_cursor / self.frames_per_packet;
        let mut i: usize = 0;
        let mut found = false;
        while i < self.corrupt_packets.len()
            invariant
                i <= self.corrupt_packets@.len(),
                found == exists|j: int|
                    0 <= j < i && self.corrupt_packets@[j] == packet,
            decreases self.corrupt_packets@.len() - i,
        {
            if self.corrupt_packets[i] == packet {
                found = true;
            }
            i = i + 1;
        }
        found
    }
}

impl PacketDecoder for MemoryDecoder {
    /// Serves the next packet: at the end of the samples the stream is
    /// over; a corrupt packet advances the cursor and reports invalid
    /// data; any other packet delivers its samples exactly as they stand
    /// in memory. A decoder whose parameters are ill-formed only ever
    /// reports the end of the stream.
    fn next_packet(&mut self) -> (r: PacketAttempt)
        ensures
            final(self).samples@ == old(self).samples@,
            final(self).signal == old(self).signal,
            final(self).frames_per_packet == old(self).frames_per_packet,
            final(self).corrupt_packets@ == old(self).corrupt_packets@,
            old(self).inv() ==> final(self).inv(),
            old(self).inv() && old(self).frame_cursor == old(self).total_frames() ==> {
                &&& (r matches PacketAttempt::EndOfStream)
                &&& final(self).frame_cursor == old(self).frame_cursor
            },
            old(self).inv() && old(self).frame_cursor < old(self).total_frames() ==> {
                &&& final(self).frame_cursor == vstd::math::min(
                    old(self).frame_cursor + old(self).frames_per_packet,
                    old(self).total_frames() as int,
                )
                &&& (old(self).is_corrupt(old(self).packet_index()) ==> (
                r matches PacketAttempt::CorruptData))
                &&& (!old(self).is_corrupt(old(self).packet_index()) ==> (r matches
                    PacketAttempt::Samples(p) && p@ == old(self).samples@.subrange(
                    old(self).frame_cursor as int * old(self).signal.channels as int,
                    final(self).frame_cursor as int * old(self).signal.channels as int,
                )))
            },
    {
        let channels = self.signal.channels as usize;
        if channels == 0 || self.frames_per_packet == 0 {
            return PacketAttempt::EndOfStream;
        }
        let total_samples = self.samples.len();
        let total_frames = total_samples / channels;
        proof {
            vstd::arithmetic::div_mod::lemma_fundamental_div_mod(
                self.samples@.len() as int,
                self.signal.channels as int,
            );
        }
        if self.frame_cursor >= total_frames {
            return PacketAttempt::EndOfStream;
        }
        let remaining = total_frames - self.frame_cursor;
        let count = if self.frames_per_packet < remaining {
            self.frames_per_packet
        } else {
            remaining
        };
        let corrupt = self.cursor_packet_corrupt();
        let ghost start_frame = self.frame_cursor as int;
        proof {
            let ch = channels as int;
            let tf = total_frames as int;
            let len = self.samples@.len() as int;
            assert(len == ch * (len / ch) + len % ch);
            assert(tf * ch <= len) by (nonlinear_arith)
                requires
                    ch >= 1,
                    len >= ch * (len / ch),
                    tf == len / ch,
            ;
            assert(0 <= start_frame * ch && start_frame * ch <= (start_frame + count) * ch && (
            start_frame + count) * ch <= tf * ch) by (nonlinear_arith)
                requires
                    ch >= 1,
                    0 <= start_frame,
                    count >= 0,
                    start_frame + count <= tf,
            ;
        }
        let start = self.frame_cursor * channels;
        let end = (self.frame_cursor + count) * channels;
        self.frame_cursor = self.frame_cursor + count;
        if corrupt {
            return PacketAttempt::CorruptData;
        }
        let mut packet: Vec<Sample> = Vec::new();
        let mut i: usize = start;
        while i < end
            invariant
                start <= i <= end,
                end <= self.samples@.len(),
                packet@ == self.samples@.subrange(start as int, i as int),
            decreases end - i,
        {
            packet.push(self.samples[i]);
            i = i + 1;
        }
        PacketAttempt::Samples(packet)
    }

    /// Seeks to the packet boundary at or before the requested time; never
    /// fails. The reached frame timestamp is returned.
    fn seek(&mut self, time_ms: u64) -> (r: Result<u64, Error>)
        ensures
            final(self).samples@ == old(self).samples@,
            final(self).signal == old(self).signal,
            final(self).frames_per_packet == old(self).frames_per_packet,
            final(self).corrupt_packets@ == old(self).corrupt_packets@,
            (r matches Ok(ts) && ts == final(self).frame_cursor),
            old(self).inv() ==> final(self).inv(),
            old(self).inv() ==> final(self).frame_cursor as int == vstd::math::min(
                time_ms as int * old(self).signal.rate as int / 1000,
                old(self).total_frames() as int / old(self).frames_per_packet as int * old(
                    self,
                ).frames_per_packet as int,
            ) / old(self).frames_per_packet as int * old(self).frames_per_packet as int,
    {
        if self.signal.channels == 0 || self.frames_per_packet == 0 {
            return Ok(self.frame_cursor as u64);
        }
        let rate = self.signal.rate as u128;
        proof {
            assert((time_ms as int) * (rate as int) < u128::MAX) by (nonlinear_arith)
                requires
                    time_ms <= u64::MAX,
                    rate <= u32::MAX,
            ;
        }
        let wide: u128 = time_ms as u128 * rate / 1000;
        let channels = self.signal.channels as usize;
        let total_frames = self.samples.len() / channels;
        proof {
            let fpp = self.frames_per_packet as int;
            let tf = total_frames as int;
            assert(0 <= tf / fpp * fpp && tf / fpp * fpp <= tf) by (nonlinear_arith)
                requires
                    fpp >= 1,
                    0 <= tf,
            ;
        }
        let packets_total = total_frames / self.frames_per_packet;
        let max_start = packets_total * self.frames_per_packet;
        let target = if wide > max_start as u128 {
            max_start as u128
        } else {
            wide
        };
        let target_usize = target as usize;
        proof {
            let fpp = self.frames_per_packet as int;
            let t = target_usize as int;
            assert(0 <= t / fpp * fpp && t / fpp * fpp <= t) by (nonlinear_arith)
                requires
                    fpp >= 1,
                    t >= 0,
            ;
        }
        let snapped = target_usize / self.frames_per_packet * self.frames_per_packet;
        self.frame_cursor = snapped;
        Ok(snapped as u64)
    }
}

} // verus!
