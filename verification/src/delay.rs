//! Realtime-safe circular delay line.
//!
//! Samples are stored as their IEEE-754 bit patterns (`u32`): the delay line
//! only moves samples around, so storing the bit pattern keeps every sample
//! exact while the index arithmetic is verified.

use vstd::prelude::*;

verus! {

/// Circular delay buffer. Allocation happens only in [`DelayLine::prepare`].
#[derive(Debug)]
pub struct DelayLine {
    buffer: Vec<u32>,
    write_pos: usize,
}

/// Contents of `s` read circularly starting at `start`: element `k` is
/// `s[(start + k) % s.len()]`.
pub open spec fn rotate_from(s: Seq<u32>, start: int) -> Seq<u32> {
    Seq::new(s.len(), |k: int| s[(start + k) % (s.len() as int)])
}

/// `n` silent samples.
pub open spec fn silence(n: nat) -> Seq<u32> {
    Seq::new(n, |k: int| 0u32)
}

/// Delay history after one more sample `x` enters a full line: the oldest
/// sample falls out and `x` becomes the newest. An empty line stays empty.
pub open spec fn shift_in(history: Seq<u32>, x: u32) -> Seq<u32> {
    if history.len() == 0 {
        history
    } else {
        history.drop_first().push(x)
    }
}

/// The sample a delay line with history `history` yields for a requested
/// delay of `delay` samples: the delay is clamped to `len - 1`, delay `d >= 1`
/// gives the `d`-th most recent sample, and delay 0 gives the oldest one.
pub open spec fn delayed_sample(history: Seq<u32>, delay: int) -> u32 {
    let len = history.len() as int;
    if len == 0 {
        0u32
    } else {
        let d = if delay < len - 1 { delay } else { len - 1 };
        history[(len - d) % len]
    }
}

/// Wrapping an index that is less than two laps past the start.
proof fn lemma_wrap_once(a: int, len: int)
    requires
        0 < len,
        0 <= a < 2 * len,
    ensures
        a % len == (if a < len { a } else { a - len }),
{
    if a < len {
        vstd::arithmetic::div_mod::lemma_small_mod(a as nat, len as nat);
    } else {
        vstd::arithmetic::div_mod::lemma_small_mod((a - len) as nat, len as nat);
        vstd::arithmetic::div_mod::lemma_mod_sub_multiples_vanish(a, len);
    }
}

impl DelayLine {
    /// The write position always points at a slot of the storage.
    pub closed spec fn wf(&self) -> bool {
        &&& self.buffer@.len() == 0 ==> self.write_pos == 0
        &&& self.buffer@.len() > 0 ==> self.write_pos < self.buffer@.len()
    }

    /// The storage buffer in memory order.
    pub closed spec fn storage(&self) -> Seq<u32> {
        self.buffer@
    }

    /// Index of the slot the next sample is written to.
    pub closed spec fn write_index(&self) -> int {
        self.write_pos as int
    }

    /// The stored samples from oldest to newest.
    pub open spec fn view(&self) -> Seq<u32> {
        rotate_from(self.storage(), self.write_index())
    }

    /// Creates an empty delay line; call [`DelayLine::prepare`] before use.
    pub fn new() -> (r: Self)
        ensures
            r.wf(),
            r.storage() == Seq::<u32>::empty(),
            r.write_index() == 0,
            r@ == Seq::<u32>::empty(),
    {
        let r = DelayLine { buffer: Vec::new(), write_pos: 0 };
        assert(r@ =~= Seq::<u32>::empty());
        r
    }

    /// Allocates enough storage for `max_delay_samples`. A one-sample guard is
    /// added so `delay == len - 1` is always readable. Existing samples in the
    /// kept part of the storage are retained; new slots are silent.
    pub fn prepare(&mut self, max_delay_samples: usize)
        requires
            old(self).wf(),
            max_delay_samples < usize::MAX,
        ensures
            final(self).wf(),
            ({
                let n = (if max_delay_samples > 1 { max_delay_samples } else { 1 }) + 1;
                &&& final(self).storage() == (if n <= old(self).storage().len() {
                    old(self).storage().take(n)
                } else {
                    old(self).storage() + silence((n - old(self).storage().len()) as nat)
                })
                &&& final(self).write_index() == 0
                &&& final(self)@ == final(self).storage()
            }),
    {
        let n = if max_delay_samples > 1 { max_delay_samples } else { 1 } + 1;
        let ghost old_buf = self.buffer@;
        self.buffer.resize(n, 0u32);
        self.write_pos = 0;
        proof {
            if n > old_buf.len() {
                assert forall|i: int| old_buf.len() <= i < n implies self.buffer@[i] == 0u32 by {
                    assert(cloned::<u32>(0u32, self.buffer@[i]));
                }
                assert(self.buffer@ =~= old_buf + silence((n - old_buf.len()) as nat)) by {
                    assert(self.buffer@.subrange(0, old_buf.len() as int) == old_buf);
                    assert forall|i: int| 0 <= i < old_buf.len() implies self.buffer@[i] == old_buf[i] by {
                        assert(self.buffer@.subrange(0, old_buf.len() as int)[i] == self.buffer@[i]);
                    }
                }
            } else {
                assert(self.buffer@ =~= old_buf.take(n as int));
            }
            assert forall|k: int| 0 <= k < self.buffer@.len() implies #[trigger] self@[k] == self.buffer@[k] by {
                vstd::arithmetic::div_mod::lemma_small_mod(k as nat, self.buffer@.len());
            }
            assert(self@ =~= self.buffer@);
        }
    }

    /// Silences every slot and rewinds the write position.
    pub fn clear(&mut self)
        requires
            old(self).wf(),
        ensures
            final(self).wf(),
            final(self).storage() == silence(old(self).storage().len()),
            final(self).write_index() == 0,
            final(self)@ == silence(old(self)@.len()),
    {
        let len = self.buffer.len();
        let mut i: usize = 0;
        while i < len
            invariant
                len == self.buffer@.len(),
                len == old(self).buffer@.len(),
                0 <= i <= len,
                forall|k: int| 0 <= k < i ==> self.buffer@[k] == 0u32,
            decreases len - i,
        {
            self.buffer.set(i, 0u32);
            i = i + 1;
        }
        self.write_pos = 0;
        proof {
            assert(self.buffer@ =~= silence(len as nat));
            assert(self@ =~= silence(len as nat));
        }
    }

    /// Number of slots (the maximum delay plus the guard slot).
    pub fn len(&self) -> (r: usize)
        ensures
            r == self@.len(),
            r == self.storage().len(),
    {
        self.buffer.len()
    }

    /// Whether no storage has been allocated yet.
    pub fn is_empty(&self) -> (r: bool)
        ensures
            r == (self@.len() == 0),
    {
        self.buffer.len() == 0
    }

    /// Writes the sample `x` into the slot after the newest one, overwriting
    /// the oldest sample. Does nothing while no storage is allocated.
    pub fn push(&mut self, x: u32)
        requires
            old(self).wf(),
        ensures
            final(self).wf(),
            final(self)@ == shift_in(old(self)@, x),
            final(self).storage().len() == old(self).storage().len(),
            old(self).storage().len() > 0 ==> final(self).storage() == old(self).storage().update(
                old(self).write_index(),
                x,
            ),
            old(self).storage().len() > 0 ==> final(self).write_index() == (old(self).write_index()
                + 1) % (old(self).storage().len() as int),
            old(self).storage().len() == 0 ==> *final(self) == *old(self),
    {
        if self.buffer.len() == 0 {
            return;
        }
        let ghost old_view = self@;
        let ghost w = self.write_pos as int;
        let ghost len = self.buffer@.len() as int;
        self.buffer.set(self.write_pos, x);
        self.write_pos = self.write_pos + 1;
        if self.write_pos >= self.buffer.len() {
            self.write_pos = 0;
        }
        proof {
            lemma_wrap_once(w + 1, len);
            let nw = self.write_pos as int;
            assert forall|k: int| 0 <= k < len implies #[trigger] self@[k] == shift_in(old_view, x)[k] by {
                lemma_wrap_once(nw + k, len);
                if k < len - 1 {
                    lemma_wrap_once(w + (k + 1), len);
                } else {
                }
            }
            assert(self@ =~= shift_in(old_view, x));
        }
    }

    /// Returns the sample written `delay_samples` pushes ago (the delay is
    /// clamped to `len() - 1`; delay 0 reads the oldest sample). Returns the
    /// silent sample 0 while no storage is allocated.
    pub fn read_int(&self, delay_samples: usize) -> (r: u32)
        requires
            self.wf(),
        ensures
            r == delayed_sample(self@, delay_samples as int),
    {
        if self.buffer.len() == 0 {
            return 0u32;
        }
        let len = self.buffer.len();
        let delay = if delay_samples < len - 1 { delay_samples } else { len - 1 };
        let idx = if delay <= self.write_pos {
            self.write_pos - delay
        } else {
            self.write_pos + (len - delay)
        };
        proof {
            let w = self.write_pos as int;
            let l = len as int;
            let d = delay as int;
            lemma_wrap_once(l - d, l);
            let k = (l - d) % l;
            lemma_wrap_once(w + k, l);
        }
        self.buffer[idx]
    }

    /// Returns the sample written `delay_samples` pushes ago and then writes
    /// `input`; with a delay of 0 the input passes straight through.
    pub fn process_int(&mut self, input: u32, delay_samples: usize) -> (r: u32)
        requires
            old(self).wf(),
        ensures
            final(self).wf(),
            r == (if delay_samples == 0 { input } else { delayed_sample(old(self)@, delay_samples as int) }),
            final(self)@ == shift_in(old(self)@, input),
            final(self).storage().len() == old(self).storage().len(),
    {
        if delay_samples == 0 {
            self.push(input);
            input
        } else {
            let out = self.read_int(delay_samples);
            self.push(input);
            out
        }
    }
}

/// Delay history after the samples `xs` are pushed in order.
pub open spec fn shift_in_all(history: Seq<u32>, xs: Seq<u32>) -> Seq<u32>
    decreases xs.len(),
{
    if xs.len() == 0 {
        history
    } else {
        shift_in(shift_in_all(history, xs.drop_last()), xs.last())
    }
}

/// A non-empty delay line always holds exactly the most recent `len` samples
/// of everything it has seen: its previous history followed by the pushed
/// samples `xs`, of which the last `len` remain.
pub proof fn lemma_history_is_latest_window(history: Seq<u32>, xs: Seq<u32>)
    requires
        history.len() > 0,
    ensures
        shift_in_all(history, xs) == (history + xs).subrange(
            xs.len() as int,
            (xs.len() + history.len()) as int,
        ),
    decreases xs.len(),
{
    if xs.len() == 0 {
        assert((history + xs).subrange(0, history.len() as int) =~= history);
    } else {
        let prev = xs.drop_last();
        lemma_history_is_latest_window(history, prev);
        let n = history.len() as int;
        let m = xs.len() as int;
        assert(history + xs =~= (history + prev).push(xs.last()));
        assert(shift_in_all(history, xs) =~= (history + xs).subrange(m, m + n));
    }
}

/// Reading a delay of `d` samples (`1 <= d < len`) after at least `d` pushes
/// yields the sample pushed `d` pushes ago.
pub proof fn lemma_delay_returns_pushed_sample(history: Seq<u32>, xs: Seq<u32>, d: int)
    requires
        history.len() > 0,
        1 <= d < history.len(),
        d <= xs.len(),
    ensures
        delayed_sample(shift_in_all(history, xs), d) == xs[xs.len() - d],
{
    lemma_history_is_latest_window(history, xs);
    let n = history.len() as int;
    let m = xs.len() as int;
    vstd::arithmetic::div_mod::lemma_small_mod((n - d) as nat, n as nat);
    assert((history + xs)[m + n - d] == xs[m - d]);
}

/// A silenced (freshly prepared or cleared) delay line reads silence at
/// every delay.
pub proof fn lemma_silence_reads_silence(n: nat, d: int)
    ensures
        delayed_sample(silence(n), d) == 0u32,
{
    if n > 0 {
        let len = n as int;
        let dd = if d < len - 1 { d } else { len - 1 };
        if 0 <= dd {
            vstd::arithmetic::div_mod::lemma_small_mod(0, n);
        }
        assert(0 <= (len - dd) % len < len);
    }
}

impl Clone for DelayLine {
    fn clone(&self) -> (r: Self)
        ensures
            r.storage() == self.storage(),
            r.write_index() == self.write_index(),
            r@ == self@,
            self.wf() ==> r.wf(),
    {
        let buffer = self.buffer.clone();
        proof {
            assert forall|i: int| 0 <= i < buffer@.len() implies buffer@[i] == self.buffer@[i] by {
                assert(cloned::<u32>(self.buffer@[i], buffer@[i]));
            }
            assert(buffer@ =~= self.buffer@);
        }
        DelayLine { buffer, write_pos: self.write_pos }
    }
}

impl Default for DelayLine {
    fn default() -> (r: Self)
        ensures
            r.wf(),
            r@ == Seq::<u32>::empty(),
    {
        DelayLine::new()
    }
}

} // verus!
