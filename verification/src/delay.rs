//! The delay line and the delay effect.
//!
//! [`DelayLine`] is a fixed-capacity circular buffer: `update` overwrites the
//! slot under the write cursor and advances it, `get(k)` reads the sample
//! written `k` updates ago, saturating at the capacity for larger `k`.
//! [`Delay`] wraps a line of fixed-point samples with time, feedback and mix
//! controls, forming a feedback comb filter with a linear dry/wet crossfade.

use vstd::prelude::*;
use vstd::arithmetic::div_mod::{lemma_small_mod, lemma_mod_self_0};
use crate::fixed::{FX_ONE, FX_MAX, fx_in_range, fx_mul_spec, fx_clamp_spec, fx_mul, fx_clamp,
    lemma_fx_mul_zero, lemma_fx_mul_one, lemma_fx_mul_frac_bound};

verus! {

/// The mathematical content of a delay line: the stored samples and the
/// position of the write cursor.
pub struct RingView<T> {
    pub entries: Seq<T>,
    pub head: int,
}

impl<T> RingView<T> {
    pub open spec fn wf(self) -> bool {
        &&& self.entries.len() >= 1
        &&& 0 <= self.head < self.entries.len()
    }

    /// The sample written `offset` updates ago. Offsets beyond the capacity
    /// saturate: the oldest sample still held is returned, never an error.
    pub open spec fn sample_at(self, offset: int) -> T {
        let len = self.entries.len() as int;
        let off = if offset > len {
            len
        } else {
            offset
        };
        let idx = if off > self.head {
            len - off + self.head
        } else {
            self.head - off
        };
        self.entries[idx]
    }

    /// The ring after one write: the slot under the cursor is overwritten and
    /// the cursor advances, wrapping at the capacity.
    pub open spec fn updated(self, input: T) -> RingView<T> {
        RingView {
            entries: self.entries.update(self.head, input),
            head: if self.head + 1 == self.entries.len() {
                0
            } else {
                self.head + 1
            },
        }
    }

    /// The ring after a whole sequence of writes, oldest first.
    pub open spec fn after_updates(self, inputs: Seq<T>) -> RingView<T>
        decreases inputs.len(),
    {
        if inputs.len() == 0 {
            self
        } else {
            self.after_updates(inputs.drop_last()).updated(inputs.last())
        }
    }
}

/// A write keeps the ring well formed and leaves the capacity unchanged.
pub proof fn lemma_updated_wf<T>(r: RingView<T>, x: T)
    requires
        r.wf(),
    ensures
        r.updated(x).wf(),
        r.updated(x).entries.len() == r.entries.len(),
{
}

/// One write shifts every held sample one step further into the past: the
/// newest sample is the value just written, and the sample `k` updates ago is
/// the one that was `k - 1` updates ago before the write.
pub proof fn lemma_updated_sample<T>(r: RingView<T>, x: T, k: int)
    requires
        r.wf(),
        1 <= k <= r.entries.len(),
    ensures
        r.updated(x).sample_at(k) == if k == 1 {
            x
        } else {
            r.sample_at(k - 1)
        },
{
}

/// A sequence of writes keeps the ring well formed.
pub proof fn lemma_after_updates_wf<T>(r: RingView<T>, inputs: Seq<T>)
    requires
        r.wf(),
    ensures
        r.after_updates(inputs).wf(),
        r.after_updates(inputs).entries.len() == r.entries.len(),
    decreases inputs.len(),
{
    if inputs.len() > 0 {
        lemma_after_updates_wf(r, inputs.drop_last());
        lemma_updated_wf(r.after_updates(inputs.drop_last()), inputs.last());
    }
}

/// For a line of capacity `N` that has seen the writes `inputs`, `sample_at(k)`
/// with `k <= N` is exactly the value written `k` updates ago.
pub proof fn lemma_sample_after_updates<T>(r: RingView<T>, inputs: Seq<T>, k: int)
    requires
        r.wf(),
        1 <= k <= inputs.len(),
        k <= r.entries.len(),
    ensures
        r.after_updates(inputs).sample_at(k) == inputs[inputs.len() - k],
    decreases inputs.len(),
{
    let prev = r.after_updates(inputs.drop_last());
    lemma_after_updates_wf(r, inputs.drop_last());
    lemma_updated_sample(prev, inputs.last(), k);
    if k > 1 {
        lemma_sample_after_updates(r, inputs.drop_last(), k - 1);
    }
}

/// Offsets beyond the capacity saturate: `sample_at(k)` for `k > N` returns
/// the same value as `sample_at(N)`.
pub proof fn lemma_sample_saturates<T>(r: RingView<T>, k: int)
    requires
        r.wf(),
        k > r.entries.len(),
    ensures
        r.sample_at(k) == r.sample_at(r.entries.len() as int),
{
}

/// A fixed-capacity circular sample buffer with a write cursor.
pub struct DelayLine<T> {
    pub buffer: Vec<T>,
    pub head: usize,
}

impl<T: Copy> View for DelayLine<T> {
    type V = RingView<T>;

    open spec fn view(&self) -> RingView<T> {
        RingView { entries: self.buffer@, head: self.head as int }
    }
}

impl<T: Copy> DelayLine<T> {
    pub open spec fn wf(self) -> bool {
        self@.wf()
    }

    /// A new line over the given buffer, with the cursor on the first slot.
    /// The buffer's length is the line's capacity and must not be zero.
    pub fn new(buffer: Vec<T>) -> (r: DelayLine<T>)
        requires
            buffer@.len() >= 1,
        ensures
            r@.entries == buffer@,
            r@.head == 0,
            r.wf(),
    {
        DelayLine { buffer, head: 0 }
    }

    /// Writes `input` at the cursor and advances it modulo the capacity.
    pub fn update(&mut self, input: T)
        requires
            old(self).wf(),
        ensures
            final(self)@ == old(self)@.updated(input),
            final(self).wf(),
    {
        let len = self.buffer.len();
        self.buffer.set(self.head, input);
        proof {
            if self.head + 1 < len {
                lemma_small_mod((self.head + 1) as nat, len as nat);
            } else {
                lemma_mod_self_0(len as int);
            }
        }
        self.head = (self.head + 1) % len;
    }

    /// Returns the sample written `delay_samples` updates ago, saturating at
    /// the capacity when `delay_samples` exceeds it.
    pub fn get(&self, delay_samples: usize) -> (r: T)
        requires
            self.wf(),
        ensures
            r == self@.sample_at(delay_samples as int),
    {
        let len = self.buffer.len();
        let offset = if delay_samples > len {
            len
        } else {
            delay_samples
        };
        let index = if offset > self.head {
            len - offset + self.head
        } else {
            self.head - offset
        };
        self.buffer[index]
    }
}

/// A feedback comb filter: a delay line plus time, feedback and mix controls.
///
/// `process` reads the sample delayed by the configured offset, writes
/// `input + delayed * feedback` back into the line, and crossfades
/// `delayed * mix + input * (1 - mix)` to the output. `feedback` and `mix`
/// are fractions in `[0, FX_ONE]`, validated by the caller.
pub struct Delay {
    pub delay_samples: usize,
    pub delay_seconds: i64,
    pub feedback: i64,
    pub mix: i64,
    pub delayline: DelayLine<i64>,
    pub sample_rate: u32,
}

impl Delay {
    pub open spec fn wf(self) -> bool {
        &&& self.delayline.wf()
        &&& forall|i: int| 0 <= i < self.delayline@.entries.len() ==> fx_in_range(
            #[trigger] self.delayline@.entries[i] as int,
        )
        &&& 1 <= self.delay_samples
        &&& 0 <= self.feedback <= FX_ONE
        &&& 0 <= self.mix <= FX_ONE
        &&& 0 <= self.delay_seconds <= FX_MAX
        &&& self.sample_rate >= 1
    }

    /// The sample the configured offset reaches into the line.
    pub open spec fn delayed_sample(self) -> int {
        self.delayline@.sample_at(self.delay_samples as int) as int
    }

    /// What `process` returns: the dry/wet crossfade of the input with the
    /// delayed sample.
    pub open spec fn process_out_spec(self, input: int) -> int {
        fx_mul_spec(self.delayed_sample(), self.mix as int) + fx_mul_spec(
            input,
            FX_ONE as int - self.mix as int,
        )
    }

    /// What `process` writes into the line: the input plus the recirculated
    /// delayed sample, clamped into the audio range.
    pub open spec fn process_stored_spec(self, input: int) -> int {
        fx_clamp_spec(input + fx_mul_spec(self.delayed_sample(), self.feedback as int))
    }

    /// The integer sample offset that a time of `seconds` maps to: the exact
    /// product with the sample rate, truncated, floored at one sample and
    /// saturated at the line's capacity.
    pub open spec fn offset_of_seconds(seconds: int, sample_rate: int, capacity: int) -> int {
        let raw = seconds * sample_rate / (FX_ONE as int);
        if raw >= capacity {
            capacity
        } else if raw == 0 {
            1
        } else {
            raw
        }
    }

    /// A new effect over the given buffer: one sample of delay, no feedback,
    /// fully dry.
    pub fn new(sample_rate: u32, buffer: Vec<i64>) -> (r: Delay)
        requires
            sample_rate >= 1,
            buffer@.len() >= 1,
            forall|i: int| 0 <= i < buffer@.len() ==> fx_in_range(#[trigger] buffer@[i] as int),
        ensures
            r.delay_samples == 1,
            r.delay_seconds == FX_ONE as int / sample_rate as int,
            r.feedback == 0,
            r.mix == 0,
            r.sample_rate == sample_rate,
            r.delayline@.entries == buffer@,
            r.delayline@.head == 0,
            r.wf(),
    {
        let delay_seconds = ((FX_ONE as u64) / (sample_rate as u64)) as i64;
        Delay {
            delay_samples: 1,
            delay_seconds,
            feedback: 0,
            mix: 0,
            delayline: DelayLine::new(buffer),
            sample_rate,
        }
    }

    /// Sets the delay time and recomputes the sample offset, which is kept at
    /// one sample or more so the effect never reads the slot it is about to
    /// overwrite.
    pub fn set_delay_seconds(&mut self, delay_seconds: i64)
        requires
            old(self).wf(),
            0 <= delay_seconds <= FX_MAX,
        ensures
            final(self).delay_seconds == delay_seconds,
            final(self).delay_samples as int == Delay::offset_of_seconds(
                delay_seconds as int,
                old(self).sample_rate as int,
                old(self).delayline@.entries.len() as int,
            ),
            final(self).feedback == old(self).feedback,
            final(self).mix == old(self).mix,
            final(self).delayline == old(self).delayline,
            final(self).sample_rate == old(self).sample_rate,
            final(self).wf(),
    {
        proof {
            assert((delay_seconds as int) * (self.sample_rate as int) <= (FX_MAX as int) * (u32::MAX as int))
                by (nonlinear_arith)
                requires 0 <= delay_seconds as int <= FX_MAX as int, 0 <= self.sample_rate as int <= u32::MAX as int;
        }
        let raw: u128 = (delay_seconds as u128) * (self.sample_rate as u128) / (FX_ONE as u128);
        let len = self.delayline.buffer.len();
        let samples: usize = if raw >= len as u128 {
            len
        } else if raw == 0 {
            1
        } else {
            raw as usize
        };
        self.delay_seconds = delay_seconds;
        self.delay_samples = samples;
    }

    pub fn get_delay_seconds(&self) -> (r: i64)
        ensures
            r == self.delay_seconds,
    {
        self.delay_seconds
    }

    /// Sets the recirculation amount, a fraction in `[0, FX_ONE]` that the
    /// caller has validated.
    pub fn set_feedback(&mut self, feedback: i64)
        requires
            old(self).wf(),
            0 <= feedback <= FX_ONE,
        ensures
            *final(self) == (Delay { feedback, ..*old(self) }),
            final(self).wf(),
    {
        self.feedback = feedback;
    }

    pub fn get_feedback(&self) -> (r: i64)
        ensures
            r == self.feedback,
    {
        self.feedback
    }

    /// Sets the dry/wet crossfade, a fraction in `[0, FX_ONE]` that the
    /// caller has validated.
    pub fn set_mix(&mut self, mix: i64)
        requires
            old(self).wf(),
            0 <= mix <= FX_ONE,
        ensures
            *final(self) == (Delay { mix, ..*old(self) }),
            final(self).wf(),
    {
        self.mix = mix;
    }

    pub fn get_mix(&self) -> (r: i64)
        ensures
            r == self.mix,
    {
        self.mix
    }

    /// One sample of the comb filter: reads the delayed sample, recirculates
    /// it into the line scaled by `feedback`, and returns the dry/wet
    /// crossfade.
    pub fn process(&mut self, input: i64) -> (r: i64)
        requires
            old(self).wf(),
            fx_in_range(input as int),
        ensures
            r as int == old(self).process_out_spec(input as int),
            final(self).delayline@ == old(self).delayline@.updated(
                old(self).process_stored_spec(input as int) as i64,
            ),
            final(self).delay_samples == old(self).delay_samples,
            final(self).delay_seconds == old(self).delay_seconds,
            final(self).feedback == old(self).feedback,
            final(self).mix == old(self).mix,
            final(self).sample_rate == old(self).sample_rate,
            final(self).wf(),
            -2 * (FX_MAX as int) <= r as int <= 2 * (FX_MAX as int),
    {
        let sample = self.delayline.get(self.delay_samples);
        proof {
            lemma_fx_mul_frac_bound(sample as int, self.feedback as int, FX_MAX as int);
            lemma_fx_mul_frac_bound(sample as int, self.mix as int, FX_MAX as int);
            lemma_fx_mul_frac_bound(input as int, FX_ONE as int - self.mix as int, FX_MAX as int);
        }
        let recirculated = fx_mul(sample, self.feedback);
        let stored = fx_clamp(input + recirculated);
        self.delayline.update(stored);
        let wet = fx_mul(sample, self.mix);
        let dry = fx_mul(input, FX_ONE - self.mix);
        wet + dry
    }
}

/// With `feedback` at zero the effect never recirculates: the line stores the
/// dry input itself, and the output is the plain crossfade
/// `delayed * mix + input * (1 - mix)`.
pub proof fn lemma_process_no_feedback(d: Delay, input: int)
    requires
        d.wf(),
        d.feedback == 0,
        fx_in_range(input),
    ensures
        d.process_stored_spec(input) == input,
        d.process_out_spec(input) == fx_mul_spec(d.delayed_sample(), d.mix as int) + fx_mul_spec(
            input,
            FX_ONE as int - d.mix as int,
        ),
{
    lemma_fx_mul_zero(d.delayed_sample());
}

/// With `mix` at zero the output is the raw input, whatever the feedback.
pub proof fn lemma_process_dry(d: Delay, input: int)
    requires
        d.wf(),
        d.mix == 0,
    ensures
        d.process_out_spec(input) == input,
{
    lemma_fx_mul_zero(d.delayed_sample());
    lemma_fx_mul_one(input);
}

/// With `mix` at one and `feedback` at zero the output is the pure delayed
/// input.
pub proof fn lemma_process_wet(d: Delay, input: int)
    requires
        d.wf(),
        d.mix == FX_ONE,
        d.feedback == 0,
        fx_in_range(input),
    ensures
        d.process_out_spec(input) == d.delayed_sample(),
        d.process_stored_spec(input) == input,
{
    lemma_fx_mul_one(d.delayed_sample());
    lemma_fx_mul_zero(input);
    lemma_fx_mul_zero(d.delayed_sample());
}

} // verus!
