//! The processor: voice allocation, event dispatch, mixing, and the shared
//! effect chain.
//!
//! The synthesizer owns the pool of voices, the free-running LFO, the delay
//! effect (one line per channel) and the event queue. Once per audio block it
//! drains the pending events in arrival order — so every sample of the block
//! sees one consistent parameter snapshot — then advances every sounding
//! voice sample by sample, sums their outputs linearly, and passes the mix
//! through the delay. Everything it does is a pure function of its state and
//! the events it is fed: the output stream is bit-for-bit reproducible.

use vstd::prelude::*;
use crate::delay::{Delay, RingView};
use crate::event::{Event, EventQueue, ParamRef};
use crate::fixed::{FX_ONE, FX_MAX, fx_in_range, fx_mul, fx_mul_spec};
use crate::oscillator::{
    PHASE_ONE, phase_increment, phase_increment_spec, waveform_value, waveform_value_spec,
};
use crate::program::{Program, apply_param_spec, default_program, default_program_spec};
use crate::voice::{Voice, VoiceState};

verus! {

/// Most voices a pool may hold: keeps the linear mix inside the audio range.
pub const MAX_VOICES: usize = 32;

/// One stereo output sample.
#[derive(Clone, Copy, PartialEq, Eq, Structural, Debug)]
pub struct Frame {
    pub left: i64,
    pub right: i64,
}

/// The mathematical content of one delay channel.
pub struct DelayView {
    pub ring: RingView<i64>,
    pub samples: int,
    pub seconds: int,
    pub feedback: int,
    pub mix: int,
}

/// The mathematical content of the whole synthesizer.
pub struct SynthView {
    pub sample_rate: int,
    pub program: Program,
    pub voices: Seq<Voice>,
    pub lfo_phase: int,
    pub delay_left: DelayView,
    pub delay_right: DelayView,
    pub pending: Seq<Event>,
    pub queue_capacity: int,
}

/// The view of one delay channel.
pub open spec fn delay_view(d: Delay) -> DelayView {
    DelayView {
        ring: d.delayline@,
        samples: d.delay_samples as int,
        seconds: d.delay_seconds as int,
        feedback: d.feedback as int,
        mix: d.mix as int,
    }
}

/// One step of a delay channel: what it emits and how its ring moves on.
pub open spec fn delay_step_spec(d: DelayView, input: int) -> (DelayView, int) {
    let s = d.ring.sample_at(d.samples) as int;
    let out = fx_mul_spec(s, d.mix) + fx_mul_spec(input, FX_ONE as int - d.mix);
    let stored = crate::fixed::fx_clamp_spec(input + fx_mul_spec(s, d.feedback));
    (DelayView { ring: d.ring.updated(stored as i64), ..d }, out)
}

/// A delay channel re-synced to the program's delay parameters.
pub open spec fn delay_synced_spec(d: DelayView, p: Program, sample_rate: int) -> DelayView {
    DelayView {
        samples: Delay::offset_of_seconds(
            p.delay.time as int,
            sample_rate,
            d.ring.entries.len() as int,
        ),
        seconds: p.delay.time as int,
        feedback: p.delay.feedback as int,
        mix: p.delay.mix as int,
        ..d
    }
}

/// The first index at or after `i` whose voice is in `st`, or -1.
pub open spec fn first_index_in_state(voices: Seq<Voice>, st: VoiceState, i: int) -> int
    decreases voices.len() - i,
{
    if i < 0 || i >= voices.len() {
        -1
    } else if voices[i].state == st {
        i
    } else {
        first_index_in_state(voices, st, i + 1)
    }
}

/// The first index at or after `i` holding an Active voice at `pitch`, or -1.
pub open spec fn first_active_with_pitch(voices: Seq<Voice>, pitch: u8, i: int) -> int
    decreases voices.len() - i,
{
    if i < 0 || i >= voices.len() {
        -1
    } else if voices[i].state == VoiceState::Active && voices[i].pitch == pitch {
        i
    } else {
        first_active_with_pitch(voices, pitch, i + 1)
    }
}

/// The longest-sounding Active voice at or after `i`: the earliest index of
/// greatest age, or -1 when none is Active.
pub open spec fn oldest_active_from(voices: Seq<Voice>, i: int) -> int
    decreases voices.len() - i,
{
    if i < 0 || i >= voices.len() {
        -1
    } else {
        let rest = oldest_active_from(voices, i + 1);
        if voices[i].state != VoiceState::Active {
            rest
        } else if rest == -1 || voices[i].age >= voices[rest].age {
            i
        } else {
            rest
        }
    }
}

/// Where a note-on lands: a Free voice if any, else a Releasing voice (the
/// gentlest steal), else the longest-sounding Active voice.
pub open spec fn alloc_index_spec(voices: Seq<Voice>) -> int {
    let free = first_index_in_state(voices, VoiceState::Free, 0);
    if free >= 0 {
        free
    } else {
        let releasing = first_index_in_state(voices, VoiceState::Releasing, 0);
        if releasing >= 0 {
            releasing
        } else {
            oldest_active_from(voices, 0)
        }
    }
}

/// A velocity clamped to a fraction.
pub open spec fn clamp_velocity_spec(v: int) -> int {
    if v < 0 {
        0
    } else if v > FX_ONE as int {
        FX_ONE as int
    } else {
        v
    }
}

/// A note-on: the chosen voice latches the note. A pitch outside the playable
/// range is a malformed event and is ignored.
pub open spec fn apply_note_on_spec(s: SynthView, pitch: u8, velocity: int) -> SynthView {
    if pitch > 127 {
        s
    } else {
        let idx = alloc_index_spec(s.voices);
        if idx < 0 {
            s
        } else {
            SynthView {
                voices: s.voices.update(
                    idx,
                    s.voices[idx].note_on_spec(
                        pitch,
                        clamp_velocity_spec(velocity) as i64,
                        s.program,
                        s.sample_rate,
                    ),
                ),
                ..s
            }
        }
    }
}

/// A note-off: the first Active voice at that pitch starts releasing; with
/// no match the event is a no-op, not a fault.
pub open spec fn apply_note_off_spec(s: SynthView, pitch: u8) -> SynthView {
    let idx = first_active_with_pitch(s.voices, pitch, 0);
    if idx < 0 {
        s
    } else {
        SynthView { voices: s.voices.update(idx, s.voices[idx].note_off_spec()), ..s }
    }
}

/// A parameter change: the program takes the clamped value and the delay
/// channels are re-synced to it.
pub open spec fn apply_param_change_spec(s: SynthView, param: ParamRef, value: int) -> SynthView {
    let p = apply_param_spec(s.program, param, value);
    SynthView {
        program: p,
        delay_left: delay_synced_spec(s.delay_left, p, s.sample_rate),
        delay_right: delay_synced_spec(s.delay_right, p, s.sample_rate),
        ..s
    }
}

/// One event applied to the engine.
pub open spec fn apply_event_spec(s: SynthView, e: Event) -> SynthView {
    match e {
        Event::NoteOn { pitch, velocity } => apply_note_on_spec(s, pitch, velocity as int),
        Event::NoteOff { pitch } => apply_note_off_spec(s, pitch),
        Event::ParamChange { param, value } => apply_param_change_spec(s, param, value as int),
    }
}

/// The first `n` of a sequence of events applied in arrival order.
pub open spec fn apply_events_prefix(s: SynthView, events: Seq<Event>, n: int) -> SynthView
    decreases n,
{
    if n <= 0 {
        s
    } else {
        apply_event_spec(apply_events_prefix(s, events, n - 1), events[n - 1])
    }
}

/// The LFO's output at the engine's current phase: the program's waveform
/// scaled by its depth.
pub open spec fn lfo_value_spec(s: SynthView) -> int {
    fx_mul_spec(waveform_value_spec(s.program.lfo.shape, s.lfo_phase), s.program.lfo.depth as int)
}

/// The first `n` voices advanced one sample: the advanced voices, and the
/// linear sums of their stereo contributions.
pub open spec fn mix_prefix(voices: Seq<Voice>, p: Program, sr: int, lfo: int, n: int) -> (
    Seq<Voice>,
    int,
    int,
)
    decreases n,
{
    if n <= 0 {
        (Seq::empty(), 0, 0)
    } else {
        let prev = mix_prefix(voices, p, sr, lfo, n - 1);
        let stepped = voices[n - 1].render_spec(p, sr, lfo);
        (prev.0.push(stepped.0), prev.1 + stepped.1, prev.2 + stepped.2)
    }
}

/// One sample of the whole engine: the LFO advances, every voice advances
/// and is summed, and the mix passes through the delay.
pub open spec fn step_sample_spec(s: SynthView) -> (SynthView, Frame) {
    let lfo = lfo_value_spec(s);
    let inc = phase_increment_spec(s.program.lfo.rate as int, s.sample_rate);
    let phase_next = if s.lfo_phase + inc >= PHASE_ONE as int {
        s.lfo_phase + inc - PHASE_ONE as int
    } else {
        s.lfo_phase + inc
    };
    let mixed = mix_prefix(s.voices, s.program, s.sample_rate, lfo, s.voices.len() as int);
    let stepped_left = delay_step_spec(s.delay_left, mixed.1);
    let stepped_right = delay_step_spec(s.delay_right, mixed.2);
    (
        SynthView {
            voices: mixed.0,
            lfo_phase: phase_next,
            delay_left: stepped_left.0,
            delay_right: stepped_right.0,
            ..s
        },
        Frame { left: stepped_left.1 as i64, right: stepped_right.1 as i64 },
    )
}

/// `n` samples of the engine, collecting the frames.
pub open spec fn run_samples_spec(s: SynthView, n: int) -> (SynthView, Seq<Frame>)
    decreases n,
{
    if n <= 0 {
        (s, Seq::empty())
    } else {
        let prev = run_samples_spec(s, n - 1);
        let stepped = step_sample_spec(prev.0);
        (stepped.0, prev.1.push(stepped.1))
    }
}

/// A whole block: every pending event is applied in arrival order and the
/// queue emptied, then `n` samples are produced under that one consistent
/// parameter snapshot.
pub open spec fn run_block_spec(s: SynthView, n: int) -> (SynthView, Seq<Frame>) {
    let drained = apply_events_prefix(s, s.pending, s.pending.len() as int);
    let cleared = SynthView { pending: Seq::empty(), ..drained };
    run_samples_spec(cleared, n)
}

/// The polyphonic synthesizer engine.
pub struct Synth {
    pub sample_rate: u32,
    pub program: Program,
    pub voices: Vec<Voice>,
    pub lfo_phase: u64,
    pub delay_left: Delay,
    pub delay_right: Delay,
    pub queue: EventQueue,
}

impl View for Synth {
    type V = SynthView;

    open spec fn view(&self) -> SynthView {
        SynthView {
            sample_rate: self.sample_rate as int,
            program: self.program,
            voices: self.voices@,
            lfo_phase: self.lfo_phase as int,
            delay_left: delay_view(self.delay_left),
            delay_right: delay_view(self.delay_right),
            pending: self.queue.items@,
            queue_capacity: self.queue.capacity as int,
        }
    }
}

/// One delay channel is tied to the program: its parameters are the
/// program's delay parameters, its offset derived from them.
pub open spec fn delay_wf(d: Delay, p: Program, sample_rate: int) -> bool {
    &&& d.wf()
    &&& d.sample_rate as int == sample_rate
    &&& d.delay_seconds == p.delay.time
    &&& d.feedback == p.delay.feedback
    &&& d.mix == p.delay.mix
    &&& d.delay_samples as int == Delay::offset_of_seconds(
        p.delay.time as int,
        sample_rate,
        d.delayline@.entries.len() as int,
    )
}

/// The view of a fresh delay channel at a sample rate, synced to a program.
pub open spec fn initial_delay_view_spec(sample_rate: int, p: Program) -> DelayView {
    DelayView {
        ring: RingView { entries: Seq::new(sample_rate as nat, |i: int| 0i64), head: 0 },
        samples: Delay::offset_of_seconds(p.delay.time as int, sample_rate, sample_rate),
        seconds: p.delay.time as int,
        feedback: p.delay.feedback as int,
        mix: p.delay.mix as int,
    }
}

/// The view of a freshly constructed engine: everything it will ever do is a
/// function of this value and the events it is fed.
pub open spec fn initial_synth_view_spec(
    sample_rate: int,
    num_voices: int,
    queue_capacity: int,
) -> SynthView {
    SynthView {
        sample_rate,
        program: default_program_spec(),
        voices: Seq::new(num_voices as nat, |i: int| Voice::initial_spec()),
        lfo_phase: 0,
        delay_left: initial_delay_view_spec(sample_rate, default_program_spec()),
        delay_right: initial_delay_view_spec(sample_rate, default_program_spec()),
        pending: Seq::empty(),
        queue_capacity,
    }
}

impl Synth {
    pub open spec fn wf(self) -> bool {
        &&& self.sample_rate >= 1
        &&& self.program.wf()
        &&& 1 <= self.voices@.len() <= MAX_VOICES
        &&& forall|i: int| 0 <= i < self.voices@.len() ==> (#[trigger] self.voices@[i]).wf()
        &&& self.lfo_phase < PHASE_ONE
        &&& delay_wf(self.delay_left, self.program, self.sample_rate as int)
        &&& delay_wf(self.delay_right, self.program, self.sample_rate as int)
        &&& self.queue.wf()
    }

    /// A fresh engine: the default program, a silent pool of `num_voices`
    /// voices, one second of delay capacity per channel, and an empty queue.
    pub fn new(sample_rate: u32, num_voices: usize, queue_capacity: usize) -> (r: Synth)
        requires
            1 <= sample_rate,
            1 <= num_voices <= MAX_VOICES,
        ensures
            r@ == initial_synth_view_spec(
                sample_rate as int,
                num_voices as int,
                queue_capacity as int,
            ),
            r.wf(),
    {
        let program = default_program();
        let mut voices: Vec<Voice> = Vec::new();
        let mut i: usize = 0;
        while i < num_voices
            invariant
                i <= num_voices,
                voices@.len() == i,
                forall|j: int| 0 <= j < i ==> (#[trigger] voices@[j]) == Voice::initial_spec(),
            decreases num_voices - i,
        {
            voices.push(Voice::new());
            i = i + 1;
        }
        let mut buf_left: Vec<i64> = Vec::new();
        let mut k: usize = 0;
        let capacity: usize = sample_rate as usize;
        while k < capacity
            invariant
                k <= capacity,
                buf_left@.len() == k,
                forall|j: int| 0 <= j < k ==> buf_left@[j] == 0i64,
            decreases capacity - k,
        {
            buf_left.push(0);
            k = k + 1;
        }
        let mut buf_right: Vec<i64> = Vec::new();
        let mut k2: usize = 0;
        while k2 < capacity
            invariant
                k2 <= capacity,
                buf_right@.len() == k2,
                forall|j: int| 0 <= j < k2 ==> buf_right@[j] == 0i64,
            decreases capacity - k2,
        {
            buf_right.push(0);
            k2 = k2 + 1;
        }
        proof {
            assert(capacity >= 1);
            assert(forall|j: int| 0 <= j < buf_left@.len() ==> fx_in_range(
                #[trigger] buf_left@[j] as int,
            ));
            assert(forall|j: int| 0 <= j < buf_right@.len() ==> fx_in_range(
                #[trigger] buf_right@[j] as int,
            ));
        }
        let mut delay_left = Delay::new(sample_rate, buf_left);
        let mut delay_right = Delay::new(sample_rate, buf_right);
        delay_left.set_delay_seconds(program.delay.time);
        delay_left.set_feedback(program.delay.feedback);
        delay_left.set_mix(program.delay.mix);
        delay_right.set_delay_seconds(program.delay.time);
        delay_right.set_feedback(program.delay.feedback);
        delay_right.set_mix(program.delay.mix);
        let r = Synth {
            sample_rate,
            program,
            voices,
            lfo_phase: 0,
            delay_left,
            delay_right,
            queue: EventQueue::new(queue_capacity),
        };
        proof {
            assert(r@.voices =~= Seq::new(num_voices as nat, |i: int| Voice::initial_spec()));
            assert(r@.delay_left.ring.entries =~= Seq::new(sample_rate as nat, |i: int| 0i64));
            assert(r@.delay_right.ring.entries =~= Seq::new(sample_rate as nat, |i: int| 0i64));
            assert(forall|j: int| 0 <= j < num_voices as int ==> (#[trigger] r@.voices[j]).wf());
        }
        r
    }

    /// Hands an event to the engine; it is applied at the next block
    /// boundary. A full queue refuses the event rather than blocking.
    pub fn enqueue(&mut self, event: Event) -> (accepted: bool)
        requires
            old(self).wf(),
        ensures
            accepted == (old(self)@.pending.len() < old(self)@.queue_capacity),
            accepted ==> final(self)@ == (SynthView {
                pending: old(self)@.pending.push(event),
                ..old(self)@
            }),
            !accepted ==> final(self)@ == old(self)@,
            final(self).wf(),
    {
        self.queue.enqueue(event)
    }

    /// Replaces the active program wholesale — an atomic swap observed at a
    /// block boundary, never a partial edit — and re-syncs the delay channels
    /// and the LFO's starting phase to it.
    pub fn set_program(&mut self, program: Program)
        requires
            old(self).wf(),
            program.wf(),
        ensures
            final(self)@ == (SynthView {
                program,
                lfo_phase: lfo_phase_of_param_spec(program.lfo.phase as int),
                delay_left: delay_synced_spec(old(self)@.delay_left, program, old(self)@.sample_rate),
                delay_right: delay_synced_spec(
                    old(self)@.delay_right,
                    program,
                    old(self)@.sample_rate,
                ),
                ..old(self)@
            }),
            final(self).wf(),
    {
        self.program = program;
        self.sync_delays();
        proof {
            assert(FX_ONE == 65536);
            assert(PHASE_ONE == 0x1_0000_0000);
        }
        let scaled: u64 = (self.program.lfo.phase as u64) * 65536;
        self.lfo_phase = if scaled >= PHASE_ONE {
            0
        } else {
            scaled
        };
    }

    /// Re-derives both delay channels' settings from the program.
    fn sync_delays(&mut self)
        requires
            old(self).delay_left.wf(),
            old(self).delay_right.wf(),
            old(self).program.wf(),
        ensures
            *final(self) == (Synth {
                delay_left: final(self).delay_left,
                delay_right: final(self).delay_right,
                ..*old(self)
            }),
            delay_view(final(self).delay_left) == delay_synced_spec(
                delay_view(old(self).delay_left),
                old(self).program,
                old(self).delay_left.sample_rate as int,
            ),
            delay_view(final(self).delay_right) == delay_synced_spec(
                delay_view(old(self).delay_right),
                old(self).program,
                old(self).delay_right.sample_rate as int,
            ),
            delay_wf(final(self).delay_left, old(self).program, old(self).delay_left.sample_rate as int),
            delay_wf(
                final(self).delay_right,
                old(self).program,
                old(self).delay_right.sample_rate as int,
            ),
    {
        proof {
            assert(FX_ONE == 65536);
            assert(FX_MAX == 0x100_0000_0000);
        }
        let time = self.program.delay.time;
        let feedback = self.program.delay.feedback;
        let mix = self.program.delay.mix;
        self.delay_left.set_delay_seconds(time);
        self.delay_left.set_feedback(feedback);
        self.delay_left.set_mix(mix);
        self.delay_right.set_delay_seconds(time);
        self.delay_right.set_feedback(feedback);
        self.delay_right.set_mix(mix);
    }

    /// Applies one event to the engine state.
    fn apply_event(&mut self, event: Event)
        requires
            old(self).wf(),
        ensures
            final(self)@ == apply_event_spec(old(self)@, event),
            final(self).queue == old(self).queue,
            final(self).wf(),
    {
        match event {
            Event::NoteOn { pitch, velocity } => {
                if pitch <= 127 {
                    let velocity_c: i64 = if velocity < 0 {
                        0
                    } else if velocity > FX_ONE {
                        FX_ONE
                    } else {
                        velocity
                    };
                    let idx_opt = self.alloc_voice();
                    match idx_opt {
                        Some(idx) => {
                            let mut v = self.voices[idx];
                            v.note_on(pitch, velocity_c, &self.program, self.sample_rate);
                            self.voices.set(idx, v);
                        },
                        None => {},
                    }
                }
            },
            Event::NoteOff { pitch } => {
                let idx_opt = self.find_active_with_pitch(pitch);
                match idx_opt {
                    Some(idx) => {
                        let mut v = self.voices[idx];
                        v.note_off();
                        self.voices.set(idx, v);
                    },
                    None => {},
                }
            },
            Event::ParamChange { param, value } => {
                self.program = self.program.with_param(param, value);
                self.sync_delays();
            },
        }
    }

    /// Picks the voice a note-on lands on, by the steal policy: a Free voice
    /// first, then a Releasing one, then the longest-sounding Active voice.
    /// A non-empty pool always yields a voice.
    fn alloc_voice(&self) -> (r: Option<usize>)
        requires
            self.wf(),
        ensures
            match r {
                Some(b) => alloc_index_spec(self@.voices) == b as int && (b as int)
                    < self@.voices.len(),
                None => false,
            },
    {
        let free = self.find_first_in_state(VoiceState::Free);
        match free {
            Some(i) => Some(i),
            None => {
                let releasing = self.find_first_in_state(VoiceState::Releasing);
                match releasing {
                    Some(i) => Some(i),
                    None => {
                        let oldest = self.find_oldest_active();
                        proof {
                            lemma_first_index_none(self@.voices, VoiceState::Free, 0);
                            lemma_first_index_none(self@.voices, VoiceState::Releasing, 0);
                            assert(self@.voices[0].state == VoiceState::Active);
                            lemma_oldest_active_bounds(self@.voices, 0);
                        }
                        oldest
                    },
                }
            },
        }
    }

    /// Finds the first voice in the given state.
    fn find_first_in_state(&self, st: VoiceState) -> (r: Option<usize>)
        ensures
            match r {
                Some(b) => first_index_in_state(self@.voices, st, 0) == b as int && (b as int)
                    < self@.voices.len(),
                None => first_index_in_state(self@.voices, st, 0) == -1,
            },
    {
        let n = self.voices.len();
        let mut i: usize = 0;
        while i < n
            invariant
                i <= n,
                n == self@.voices.len(),
                first_index_in_state(self@.voices, st, 0) == first_index_in_state(
                    self@.voices,
                    st,
                    i as int,
                ),
            decreases n - i,
        {
            if self.voices[i].state == st {
                return Some(i);
            }
            i = i + 1;
        }
        None
    }

    /// Finds the first Active voice sounding the given pitch.
    fn find_active_with_pitch(&self, pitch: u8) -> (r: Option<usize>)
        ensures
            match r {
                Some(b) => first_active_with_pitch(self@.voices, pitch, 0) == b as int && (
                b as int) < self@.voices.len(),
                None => first_active_with_pitch(self@.voices, pitch, 0) == -1,
            },
    {
        let n = self.voices.len();
        let mut i: usize = 0;
        while i < n
            invariant
                i <= n,
                n == self@.voices.len(),
                first_active_with_pitch(self@.voices, pitch, 0) == first_active_with_pitch(
                    self@.voices,
                    pitch,
                    i as int,
                ),
            decreases n - i,
        {
            if self.voices[i].state == VoiceState::Active && self.voices[i].pitch == pitch {
                return Some(i);
            }
            i = i + 1;
        }
        None
    }

    /// Finds the longest-sounding Active voice, the earliest on equal ages.
    fn find_oldest_active(&self) -> (r: Option<usize>)
        ensures
            match r {
                Some(b) => oldest_active_from(self@.voices, 0) == b as int && (b as int)
                    < self@.voices.len(),
                None => oldest_active_from(self@.voices, 0) == -1,
            },
    {
        let n = self.voices.len();
        let mut best: Option<usize> = None;
        let mut i: usize = n;
        while i > 0
            invariant
                i <= n,
                n == self@.voices.len(),
                match best {
                    Some(b) => oldest_active_from(self@.voices, i as int) == b as int && (
                    b as int) < n as int,
                    None => oldest_active_from(self@.voices, i as int) == -1,
                },
            decreases i,
        {
            i = i - 1;
            if self.voices[i].state == VoiceState::Active {
                let take: bool = match best {
                    Some(b) => self.voices[i].age >= self.voices[b].age,
                    None => true,
                };
                if take {
                    best = Some(i);
                }
            }
            proof {
                lemma_oldest_active_bounds(self@.voices, i as int);
            }
        }
        best
    }

    /// Advances the whole engine one sample and returns the stereo frame.
    fn step_sample(&mut self) -> (out: Frame)
        requires
            old(self).wf(),
        ensures
            final(self)@ == step_sample_spec(old(self)@).0,
            out == step_sample_spec(old(self)@).1,
            final(self).queue == old(self).queue,
            final(self).wf(),
    {
        proof {
            assert(FX_ONE == 65536);
            assert(FX_MAX == 0x100_0000_0000);
        }
        // The LFO's value at the current phase, then the phase advances.
        let lfo_raw = waveform_value(self.program.lfo.shape, self.lfo_phase);
        proof {
            crate::fixed::lemma_fx_mul_frac_bound(lfo_raw as int, self.program.lfo.depth as int, FX_ONE as int);
        }
        let lfo = fx_mul(lfo_raw, self.program.lfo.depth);
        let inc = phase_increment(self.program.lfo.rate, self.sample_rate);
        let advanced = self.lfo_phase + inc;
        self.lfo_phase = if advanced >= PHASE_ONE {
            advanced - PHASE_ONE
        } else {
            advanced
        };
        // Advance and mix every voice.
        let ghost voices0 = old(self)@.voices;
        let ghost p0 = old(self)@.program;
        let ghost sr0 = old(self)@.sample_rate;
        let ghost phase1 = self.lfo_phase;
        let n = self.voices.len();
        let mut suml: i64 = 0;
        let mut sumr: i64 = 0;
        let mut vi: usize = 0;
        while vi < n
            invariant
                vi <= n,
                n == self.voices@.len(),
                self.voices@.len() == voices0.len(),
                n <= MAX_VOICES,
                self.program == p0,
                self.sample_rate as int == sr0,
                p0.wf(),
                self.sample_rate >= 1,
                -FX_ONE <= lfo <= FX_ONE,
                forall|j: int| 0 <= j < self.voices@.len() ==> (#[trigger] self.voices@[j]).wf(),
                mix_prefix(voices0, p0, sr0, lfo as int, vi as int).0 =~= self.voices@.subrange(
                    0,
                    vi as int,
                ),
                suml as int == mix_prefix(voices0, p0, sr0, lfo as int, vi as int).1,
                sumr as int == mix_prefix(voices0, p0, sr0, lfo as int, vi as int).2,
                -(vi as int) * (FX_ONE as int) <= suml as int <= (vi as int) * (FX_ONE as int),
                -(vi as int) * (FX_ONE as int) <= sumr as int <= (vi as int) * (FX_ONE as int),
                forall|j: int| vi <= j < self.voices@.len() ==> self.voices@[j] == voices0[j],
                self.delay_left == old(self).delay_left,
                self.delay_right == old(self).delay_right,
                self.queue == old(self).queue,
                self.lfo_phase == phase1,
                delay_wf(self.delay_left, p0, sr0),
                delay_wf(self.delay_right, p0, sr0),
            decreases n - vi,
        {
            let ghost prefix_before = self.voices@.subrange(0, vi as int);
            let mut v = self.voices[vi];
            proof {
                assert(v == voices0[vi as int]);
            }
            let vout = v.render(&self.program, self.sample_rate, lfo);
            self.voices.set(vi, v);
            proof {
                assert(self.voices@.subrange(0, vi as int) =~= prefix_before);
                assert(self.voices@.subrange(0, vi as int + 1) =~= prefix_before.push(v));
                assert(mix_prefix(voices0, p0, sr0, lfo as int, vi as int + 1).0 =~= mix_prefix(
                    voices0,
                    p0,
                    sr0,
                    lfo as int,
                    vi as int,
                ).0.push(v));
            }
            suml = suml + vout.0;
            sumr = sumr + vout.1;
            vi = vi + 1;
        }
        proof {
            assert(self.voices@.subrange(0, n as int) =~= self.voices@);
            assert((n as int) * (FX_ONE as int) <= 32 * 65536) by (nonlinear_arith)
                requires 0 <= n as int <= 32, FX_ONE as int == 65536;
            assert(fx_in_range(suml as int));
            assert(fx_in_range(sumr as int));
        }
        // The mixed block output passes through the shared delay effect.
        let out_left = self.delay_left.process(suml);
        let out_right = self.delay_right.process(sumr);
        Frame { left: out_left, right: out_right }
    }

    /// Processes one audio block: drains the pending events in arrival order
    /// — every sample of the block sees that one parameter snapshot — then
    /// renders `n` frames.
    pub fn process_block(&mut self, n: usize) -> (out: Vec<Frame>)
        requires
            old(self).wf(),
        ensures
            final(self)@ == run_block_spec(old(self)@, n as int).0,
            out@ == run_block_spec(old(self)@, n as int).1,
            final(self).wf(),
    {
        let ghost s0 = old(self)@;
        let n_events = self.queue.items.len();
        let mut i: usize = 0;
        while i < n_events
            invariant
                i <= n_events,
                n_events == s0.pending.len(),
                self.queue.items@ == s0.pending,
                self.queue.capacity as int == s0.queue_capacity,
                self@ == apply_events_prefix(s0, s0.pending, i as int),
                self.wf(),
            decreases n_events - i,
        {
            let event = self.queue.items[i];
            proof {
                assert(self.queue.items@[i as int] == s0.pending[i as int]);
            }
            self.apply_event(event);
            i = i + 1;
        }
        self.queue.clear();
        let ghost s1 = SynthView {
            pending: Seq::<Event>::empty(),
            ..apply_events_prefix(s0, s0.pending, s0.pending.len() as int)
        };
        proof {
            assert(self@ == s1);
        }
        let mut out: Vec<Frame> = Vec::new();
        let mut k: usize = 0;
        while k < n
            invariant
                k <= n,
                self@ == run_samples_spec(s1, k as int).0,
                out@ == run_samples_spec(s1, k as int).1,
                self.wf(),
            decreases n - k,
        {
            let frame = self.step_sample();
            out.push(frame);
            k = k + 1;
        }
        out
    }
}

/// The LFO phase a program's phase parameter selects.
pub open spec fn lfo_phase_of_param_spec(phase: int) -> int {
    if phase * 65536 >= PHASE_ONE as int {
        0
    } else {
        phase * 65536
    }
}

/// When the search reports no index, no voice at or after `i` is in `st`.
pub proof fn lemma_first_index_none(voices: Seq<Voice>, st: VoiceState, i: int)
    requires
        first_index_in_state(voices, st, i) == -1,
        0 <= i,
    ensures
        forall|j: int| i <= j < voices.len() ==> (#[trigger] voices[j]).state != st,
    decreases voices.len() - i,
{
    if i < voices.len() {
        lemma_first_index_none(voices, st, i + 1);
    }
}

/// The oldest-Active search returns either -1 with no Active voice at or
/// after `i`, or a valid index holding an Active voice.
pub proof fn lemma_oldest_active_bounds(voices: Seq<Voice>, i: int)
    requires
        0 <= i,
    ensures
        oldest_active_from(voices, i) == -1 ==> forall|j: int|
            i <= j < voices.len() ==> (#[trigger] voices[j]).state != VoiceState::Active,
        oldest_active_from(voices, i) != -1 ==> i <= oldest_active_from(voices, i) < voices.len()
            && voices[oldest_active_from(voices, i)].state == VoiceState::Active,
    decreases voices.len() - i,
{
    if i < voices.len() {
        lemma_oldest_active_bounds(voices, i + 1);
    }
}

/// A note-on never goes unanswered: with any voice in the pool the chosen
/// index is valid, and the chosen voice comes out Active at the note's pitch
/// — also under a full pool, where the steal policy yields a voice rather
/// than rejecting the note.
pub proof fn lemma_note_on_always_activates(s: SynthView, pitch: u8, velocity: int)
    requires
        s.voices.len() >= 1,
        pitch <= 127,
    ensures
        0 <= alloc_index_spec(s.voices) < s.voices.len(),
        apply_note_on_spec(s, pitch, velocity).voices[alloc_index_spec(s.voices)].state
            == VoiceState::Active,
        apply_note_on_spec(s, pitch, velocity).voices[alloc_index_spec(s.voices)].pitch == pitch,
{
    let free = first_index_in_state(s.voices, VoiceState::Free, 0);
    let releasing = first_index_in_state(s.voices, VoiceState::Releasing, 0);
    lemma_first_index_bounds(s.voices, VoiceState::Free, 0);
    lemma_first_index_bounds(s.voices, VoiceState::Releasing, 0);
    if free < 0 && releasing < 0 {
        lemma_first_index_none(s.voices, VoiceState::Free, 0);
        lemma_first_index_none(s.voices, VoiceState::Releasing, 0);
        assert(s.voices[0].state == VoiceState::Active);
        lemma_oldest_active_bounds(s.voices, 0);
    }
}

/// A found first-index is in range and holds the sought state.
pub proof fn lemma_first_index_bounds(voices: Seq<Voice>, st: VoiceState, i: int)
    requires
        0 <= i,
    ensures
        first_index_in_state(voices, st, i) != -1 ==> i <= first_index_in_state(voices, st, i)
            < voices.len() && voices[first_index_in_state(voices, st, i)].state == st,
    decreases voices.len() - i,
{
    if i < voices.len() {
        lemma_first_index_bounds(voices, st, i + 1);
    }
}

/// A note-off with no matching Active voice changes nothing: a malformed
/// event is a no-op, not a fault.
pub proof fn lemma_note_off_no_match_noop(s: SynthView, pitch: u8)
    requires
        forall|j: int| 0 <= j < s.voices.len() ==> !((#[trigger] s.voices[j]).state
            == VoiceState::Active && s.voices[j].pitch == pitch),
    ensures
        apply_note_off_spec(s, pitch) == s,
{
    lemma_first_active_none(s.voices, pitch, 0);
}

/// When no Active voice sounds `pitch`, the search reports none.
pub proof fn lemma_first_active_none(voices: Seq<Voice>, pitch: u8, i: int)
    requires
        0 <= i,
        forall|j: int| 0 <= j < voices.len() ==> !((#[trigger] voices[j]).state
            == VoiceState::Active && voices[j].pitch == pitch),
    ensures
        first_active_with_pitch(voices, pitch, i) == -1,
    decreases voices.len() - i,
{
    if i < voices.len() {
        lemma_first_active_none(voices, pitch, i + 1);
    }
}

/// A block of `n` samples yields exactly `n` frames: one value per channel
/// per time step, never more, never fewer.
pub proof fn lemma_block_length(s: SynthView, n: int)
    requires
        n >= 0,
    ensures
        run_samples_spec(s, n).1.len() == n,
        run_block_spec(s, n).1.len() == n,
    decreases n,
{
    if n > 0 {
        lemma_block_length(s, n - 1);
        let drained = apply_events_prefix(s, s.pending, s.pending.len() as int);
        let cleared = SynthView { pending: Seq::empty(), ..drained };
        lemma_block_length(cleared, n - 1);
    }
}

/// Determinism: the engine's whole behaviour is a function of its state and
/// the events it was fed — no clock, no scheduling, no hidden source. Two
/// engines in the same state, given the same block length, produce the same
/// frames and land in the same state; replaying the same events against a
/// fresh engine replays the same output bit for bit.
pub proof fn lemma_block_deterministic(s1: SynthView, s2: SynthView, n: int)
    requires
        s1 == s2,
    ensures
        run_block_spec(s1, n).0 == run_block_spec(s2, n).0,
        run_block_spec(s1, n).1 == run_block_spec(s2, n).1,
{
}

} // verus!
