//! Circular delay line: the ring buffer behind the send delay, the echo
//! delay plugin and the comb and all-pass stages of the reverb. It stores
//! values of any copyable type; the audio code keeps audio samples in it.

use vstd::prelude::*;

verus! {

/// A ring buffer with a write position. Reading at delay `d` gives the value
/// written `d` writes ago (for `1 <= d <= len`).
pub struct DelayLine<T> {
    buffer: Vec<T>,
    write_pos: usize,
}

/// Abstract state of a delay line: its slots and the slot written next.
pub struct DelayLineView<T> {
    pub slots: Seq<T>,
    pub write_pos: int,
}

impl<T> View for DelayLine<T> {
    type V = DelayLineView<T>;

    closed spec fn view(&self) -> DelayLineView<T> {
        DelayLineView { slots: self.buffer@, write_pos: self.write_pos as int }
    }
}

impl<T> DelayLineView<T> {
    /// Number of slots.
    pub open spec fn len(self) -> int {
        self.slots.len() as int
    }

    /// The write position lies in the buffer (or is 0 for an empty buffer).
    pub open spec fn wf(self) -> bool {
        &&& 0 <= self.write_pos
        &&& (self.len() == 0 ==> self.write_pos == 0)
        &&& (self.len() > 0 ==> self.write_pos < self.len())
    }

    /// The slot read at delay `d`.
    pub open spec fn tap_index(self, d: int) -> int {
        (self.write_pos + self.len() - d) % self.len()
    }

    /// The value read at delay `d`.
    pub open spec fn tapped(self, d: int) -> T {
        self.slots[self.tap_index(d)]
    }

    /// The state after writing each value of `xs` in turn.
    pub open spec fn pushed_all(self, xs: Seq<T>) -> DelayLineView<T>
        decreases xs.len(),
    {
        if xs.len() == 0 {
            self
        } else {
            self.pushed_all(xs.drop_last()).pushed(xs.last())
        }
    }

    /// The state after writing `x`: it lands in the write slot and the
    /// position moves on by one, wrapping at the end.
    pub open spec fn pushed(self, x: T) -> DelayLineView<T> {
        DelayLineView { slots: self.slots.update(self.write_pos, x), write_pos: (self.write_pos + 1) % self.len() }
    }
}

impl<T: Copy> DelayLine<T> {
    /// A delay line of `len` slots, all holding `init`, writing at slot 0.
    pub fn new(len: usize, init: T) -> (r: DelayLine<T>)
        ensures
            r@.slots == Seq::new(len as nat, |i: int| init),
            r@.write_pos == 0,
            r@.wf(),
    {
        let mut buffer: Vec<T> = Vec::new();
        let mut i: usize = 0;
        while i < len
            invariant
                i <= len,
                buffer@ == Seq::new(i as nat, |k: int| init),
            decreases len - i,
        {
            buffer.push(init);
            i = i + 1;
            assert(buffer@ =~= Seq::new(i as nat, |k: int| init));
        }
        DelayLine { buffer, write_pos: 0 }
    }

    /// Number of slots.
    pub fn len(&self) -> (r: usize)
        ensures
            r == self@.len(),
    {
        self.buffer.len()
    }

    /// The write position.
    pub fn write_pos(&self) -> (r: usize)
        ensures
            r == self@.write_pos,
    {
        self.write_pos
    }

    /// The value at delay `delay` behind the write position (the slot
    /// `(write_pos + len - delay) mod len`). A delay of 0 or of the full
    /// length reads the slot about to be overwritten.
    pub fn tap(&self, delay: usize) -> (r: T)
        requires
            self@.wf(),
            self@.len() > 0,
            delay <= self@.write_pos + self@.len(),
        ensures
            r == self@.tapped(delay as int),
    {
        let len = self.buffer.len();
        let w = self.write_pos;
        let idx = if delay <= w { w - delay } else { len - (delay - w) };
        proof {
            let n = len as int;
            if delay <= w {
                vstd::arithmetic::div_mod::lemma_mod_add_multiples_vanish((w - delay) as int, n);
                vstd::arithmetic::div_mod::lemma_small_mod((w - delay) as nat, n as nat);
            } else {
                vstd::arithmetic::div_mod::lemma_small_mod(idx as nat, n as nat);
            }
        }
        self.buffer[idx]
    }

    /// Writes `x` at the write position and moves the position on by one.
    pub fn push(&mut self, x: T)
        requires
            old(self)@.wf(),
            old(self)@.len() > 0,
        ensures
            final(self)@ == old(self)@.pushed(x),
            final(self)@.wf(),
    {
        let len = self.buffer.len();
        self.buffer.set(self.write_pos, x);
        self.write_pos = (self.write_pos + 1) % len;
    }

    /// Overwrites every slot with `x`; the write position is kept.
    pub fn fill(&mut self, x: T)
        requires
            old(self)@.wf(),
        ensures
            final(self)@.slots == Seq::new(old(self)@.len() as nat, |i: int| x),
            final(self)@.write_pos == old(self)@.write_pos,
            final(self)@.wf(),
    {
        let len = self.buffer.len();
        let mut i: usize = 0;
        while i < len
            invariant
                len == self.buffer.len(),
                i <= len,
                self.buffer@.len() == old(self)@.len(),
                self.write_pos == old(self)@.write_pos,
                forall|k: int| 0 <= k < i ==> self.buffer@[k] == x,
            decreases len - i,
        {
            self.buffer.set(i, x);
            i = i + 1;
        }
        assert(self.buffer@ =~= Seq::new(old(self)@.len() as nat, |i: int| x));
    }

    /// Moves the write position back to slot 0.
    pub fn rewind(&mut self)
        ensures
            final(self)@.slots == old(self)@.slots,
            final(self)@.write_pos == 0,
            final(self)@.wf(),
    {
        self.write_pos = 0;
    }
}

/// What a read gives back of a write: right after writing `x`, the value at
/// delay 1 is `x`, and every older value has moved one step further back.
pub proof fn law_read_after_write<T>(line: DelayLineView<T>, x: T)
    requires
        line.wf(),
        line.len() > 0,
    ensures
        line.pushed(x).tapped(1) == x,
        forall|d: int| 1 <= d < line.len() ==> #[trigger] line.pushed(x).tapped(d + 1) == line.tapped(d),
        line.pushed(x).wf(),
{
    let n = line.len();
    let w = line.write_pos;
    let after = line.pushed(x);
    assert(after.slots.len() == n);
    let w1 = (w + 1) % n;
    if w + 1 < n {
        vstd::arithmetic::div_mod::lemma_small_mod((w + 1) as nat, n as nat);
        assert(w1 == w + 1);
    } else {
        vstd::arithmetic::div_mod::lemma_mod_self_0(n);
        assert(w1 == 0);
    }
    vstd::arithmetic::div_mod::lemma_small_mod(w as nat, n as nat);
    if w + 1 < n {
        vstd::arithmetic::div_mod::lemma_mod_add_multiples_vanish(w, n);
    }
    assert((w1 + n - 1) % n == w);
    assert forall|d: int| 1 <= d < n implies #[trigger] after.tapped(d + 1) == line.tapped(d) by {
        let i_new = (w1 + n - (d + 1)) % n;
        let i_old = (w + n - d) % n;
        assert(i_new == i_old) by {
            if w + 1 < n {
                assert(w1 + n - (d + 1) == w + n - d);
            } else {
                assert(w1 + n - (d + 1) == w + n - d - n);
                vstd::arithmetic::div_mod::lemma_mod_sub_multiples_vanish(w + n - d, n);
            }
        }
        vstd::arithmetic::div_mod::lemma_mod_bound(w + n - d, n);
        assert(i_old != w) by {
            if w + n - d < n {
                vstd::arithmetic::div_mod::lemma_small_mod((w + n - d) as nat, n as nat);
            } else {
                vstd::arithmetic::div_mod::lemma_mod_sub_multiples_vanish(w + n - d, n);
                vstd::arithmetic::div_mod::lemma_small_mod((w - d) as nat, n as nat);
            }
        }
    }
}

/// Writing keeps the number of slots and a well-formed write position.
proof fn lemma_pushed_all_wf<T>(line: DelayLineView<T>, xs: Seq<T>)
    requires
        line.wf(),
        line.len() > 0,
    ensures
        line.pushed_all(xs).wf(),
        line.pushed_all(xs).len() == line.len(),
    decreases xs.len(),
{
    if xs.len() > 0 {
        lemma_pushed_all_wf(line, xs.drop_last());
        law_read_after_write(line.pushed_all(xs.drop_last()), xs.last());
    }
}

/// A delay line echoes its input: after writing the values `xs` in turn,
/// the value at delay `d` is the one written `d` writes ago, for every delay
/// up to the line's length and the number of writes.
pub proof fn law_delay_echoes_input<T>(line: DelayLineView<T>, xs: Seq<T>, d: int)
    requires
        line.wf(),
        line.len() > 0,
        1 <= d <= xs.len(),
        d <= line.len(),
    ensures
        line.pushed_all(xs).tapped(d) == xs[xs.len() - d],
    decreases xs.len(),
{
    let ys = xs.drop_last();
    let before = line.pushed_all(ys);
    lemma_pushed_all_wf(line, ys);
    law_read_after_write(before, xs.last());
    if d > 1 {
        law_delay_echoes_input(line, ys, d - 1);
        assert(before.pushed(xs.last()).tapped((d - 1) + 1) == before.tapped(d - 1));
    }
}

} // verus!
