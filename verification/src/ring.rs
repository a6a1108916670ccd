use vstd::prelude::*;

use crate::sample::Sample;

verus! {

/// Physical slot of logical position `i` in a wrap-around buffer whose
/// oldest element sits at `head`. Defined for `head + i < 2 * cap`, which
/// covers every logical position of a buffer holding at most `cap` items.
pub open spec fn slot_of(head: int, cap: int, i: int) -> int {
    if head + i < cap {
        head + i
    } else {
        head + i - cap
    }
}

/// Fixed-capacity FIFO queue of interleaved samples.
///
/// This is the single high-frequency structure between the decode worker
/// (which writes) and the render path (which reads). Its view is the
/// sequence of unread samples, oldest first; the writer can never overwrite
/// unread data and the reader can never read beyond written data, because
/// `write` and `read` are bounded by the free space and the fill level.
pub struct RingBuffer {
    buf: Vec<Sample>,
    head: usize,
    len: usize,
}

impl View for RingBuffer {
    type V = Seq<Sample>;

    closed spec fn view(&self) -> Seq<Sample> {
        Seq::new(self.len as nat, |i: int| self.buf@[slot_of(self.head as int, self.buf@.len() as int, i)])
    }
}

impl RingBuffer {
    /// How many samples the buffer can hold at once; fixed for its lifetime.
    pub closed spec fn capacity(self) -> int {
        self.buf@.len() as int
    }

    pub closed spec fn wf(self) -> bool {
        &&& self.buf@.len() > 0
        &&& self.buf@.len() <= usize::MAX / 2
        &&& (self.head as int) < self.buf@.len()
        &&& (self.len as int) <= self.buf@.len()
    }

    /// A buffer of `capacity` samples, initially empty.
    pub fn new(capacity: usize) -> (r: RingBuffer)
        requires
            0 < capacity <= usize::MAX / 2,
        ensures
            r.wf(),
            r@ =~= Seq::<Sample>::empty(),
            r.capacity() == capacity,
    {
        let mut buf: Vec<Sample> = Vec::new();
        let mut k: usize = 0;
        while k < capacity
            invariant
                k <= capacity,
                buf@.len() == k,
            decreases capacity - k,
        {
            buf.push(Sample { bits: 0 });
            k = k + 1;
        }
        RingBuffer { buf, head: 0, len: 0 }
    }

    /// The number of unread samples.
    pub fn len(&self) -> (n: usize)
        ensures
            n == self@.len(),
    {
        self.len
    }

    /// The fixed capacity.
    pub fn capacity_len(&self) -> (n: usize)
        ensures
            n == self.capacity(),
    {
        self.buf.len()
    }

    /// Appends as much of `data[from..]` as fits; partial writes are the
    /// caller's backpressure signal. Returns how many samples were taken.
    pub fn write(&mut self, data: &Vec<Sample>, from: usize) -> (n: usize)
        requires
            old(self).wf(),
            from <= data@.len(),
        ensures
            final(self).wf(),
            final(self).capacity() == old(self).capacity(),
            n == vstd::math::min(data@.len() - from, old(self).capacity() - old(self)@.len()),
            final(self)@ =~= old(self)@ + data@.subrange(from as int, from as int + n),
    {
        let cap = self.buf.len();
        let avail = cap - self.len;
        let want = data.len() - from;
        let n = if want < avail { want } else { avail };
        let ghost head0 = self.head as int;
        let ghost len0 = self.len as int;
        let ghost buf0 = self.buf@;
        let mut pos = self.head + self.len;
        if pos >= cap {
            pos = pos - cap;
        }
        let mut k: usize = 0;
        while k < n
            invariant
                k <= n,
                n + len0 <= cap,
                from + n <= data@.len(),
                data@.len() <= usize::MAX,
                0 <= head0 < cap,
                0 <= len0 <= cap,
                cap <= usize::MAX / 2,
                self.head as int == head0,
                self.len as int == len0,
                self.buf@.len() == cap,
                buf0.len() == cap,
                pos == slot_of(head0, cap as int, len0 + k),
                forall|i: int| 0 <= i < len0 ==> self.buf@[#[trigger] slot_of(head0, cap as int, i)] == buf0[slot_of(head0, cap as int, i)],
                forall|j: int| 0 <= j < k ==> self.buf@[#[trigger] slot_of(head0, cap as int, len0 + j)] == data@[from + j],
            decreases n - k,
        {
            assert forall|a: int, b: int| 0 <= a < cap && 0 <= b < cap && a != b implies slot_of(
                head0,
                cap as int,
                a,
            ) != slot_of(head0, cap as int, b) by {}
            self.buf[pos] = data[from + k];
            k = k + 1;
            pos = pos + 1;
            if pos == cap {
                pos = 0;
            }
        }
        self.len = self.len + n;
        proof {
            let rhs = old(self)@ + data@.subrange(from as int, from as int + n);
            assert(self@.len() == rhs.len());
            assert forall|i: int| 0 <= i < self@.len() implies self@[i] == rhs[i] by {
                if i < len0 {
                    assert(self@[i] == self.buf@[slot_of(head0, cap as int, i)]);
                    assert(old(self)@[i] == buf0[slot_of(head0, cap as int, i)]);
                } else {
                    let j = i - len0;
                    assert(self.buf@[slot_of(head0, cap as int, len0 + j)] == data@[from + j]);
                    assert(self@[i] == self.buf@[slot_of(head0, cap as int, i)]);
                    assert(rhs[i] == data@.subrange(from as int, from as int + n)[i - len0]);
                }
            }
            assert(self@ =~= rhs);
        }
        n
    }

    /// Fills the front of `out` with the oldest unread samples, up to
    /// `out.len()`. Returns how many samples were read; the rest of `out`
    /// is left as it was.
    pub fn read(&mut self, out: &mut Vec<Sample>) -> (n: usize)
        requires
            old(self).wf(),
        ensures
            final(self).wf(),
            final(self).capacity() == old(self).capacity(),
            n == vstd::math::min(old(out)@.len() as int, old(self)@.len() as int),
            final(out)@.len() == old(out)@.len(),
            forall|i: int| 0 <= i < n ==> final(out)@[i] == old(self)@[i],
            forall|i: int| n <= i < old(out)@.len() ==> final(out)@[i] == old(out)@[i],
            final(self)@ =~= old(self)@.skip(n as int),
    {
        let cap = self.buf.len();
        let n = if out.len() < self.len {
            out.len()
        } else {
            self.len
        };
        let ghost head0 = self.head as int;
        let ghost len0 = self.len as int;
        let ghost out0 = out@;
        let mut pos = self.head;
        let mut k: usize = 0;
        while k < n
            invariant
                k <= n,
                n <= len0,
                n <= out@.len(),
                0 <= head0 < cap,
                0 <= len0 <= cap,
                cap <= usize::MAX / 2,
                self.head as int == head0,
                self.len as int == len0,
                self.buf@.len() == cap,
                out@.len() == out0.len(),
                pos == slot_of(head0, cap as int, k as int),
                forall|i: int| 0 <= i < k ==> out@[i] == self@[i],
                forall|i: int| k <= i < out0.len() ==> out@[i] == out0[i],
            decreases n - k,
        {
            out[k] = self.buf[pos];
            k = k + 1;
            pos = pos + 1;
            if pos == cap {
                pos = 0;
            }
        }
        let mut new_head = self.head + n;
        if new_head >= cap {
            new_head = new_head - cap;
        }
        self.head = new_head;
        self.len = self.len - n;
        assert(self@ =~= old(self)@.skip(n as int)) by {
            assert forall|i: int| 0 <= i < self@.len() implies self@[i] == old(self)@[i + n] by {
                assert(slot_of(self.head as int, cap as int, i) == slot_of(head0, cap as int, i + n));
            }
        }
        n
    }

    /// Drops every unread sample; used when a seek makes the buffered
    /// samples stale.
    pub fn clear(&mut self)
        requires
            old(self).wf(),
        ensures
            final(self).wf(),
            final(self).capacity() == old(self).capacity(),
            final(self)@ =~= Seq::<Sample>::empty(),
    {
        self.len = 0;
    }
}

} // verus!
