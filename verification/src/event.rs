//! Events and the event queue.
//!
//! An [`Event`] is a tagged message — note on, note off, or a parameter
//! change naming a [`ParamRef`] — produced by control-rate collaborators and
//! consumed exactly once by the processor. The [`EventQueue`] is the bounded
//! FIFO channel between them: events are drained in arrival order at each
//! block boundary, and a full queue refuses an event rather than blocking.

use vstd::prelude::*;

verus! {

/// An opaque reference to one engine parameter.
#[derive(Clone, Copy, PartialEq, Eq, Structural, Debug)]
pub enum ParamRef {
    OscShape,
    OscOctaves,
    OscSemitones,
    OscCents,
    OscAmplitude,
    EgAttack,
    EgDecay,
    EgSustain,
    EgRelease,
    EgDcaIntensity,
    FilterMode,
    FilterCutoff,
    FilterQ,
    DcaAmplitude,
    DcaPan,
    LfoShape,
    LfoRate,
    LfoPhase,
    LfoDepth,
    LfoOscPitchMod,
    LfoFilterCutoffMod,
    LfoDcaAmpMod,
    LfoDcaPanMod,
    DelayTime,
    DelayFeedback,
    DelayMix,
}

/// A control message for the engine.
#[derive(Clone, Copy, PartialEq, Eq, Structural, Debug)]
pub enum Event {
    NoteOn { pitch: u8, velocity: i64 },
    NoteOff { pitch: u8 },
    ParamChange { param: ParamRef, value: i64 },
}

/// A bounded FIFO of pending events.
pub struct EventQueue {
    pub items: Vec<Event>,
    pub capacity: usize,
}

impl EventQueue {
    pub open spec fn wf(self) -> bool {
        self.items@.len() <= self.capacity
    }

    /// An empty queue that can hold up to `capacity` events.
    pub fn new(capacity: usize) -> (r: EventQueue)
        ensures
            r.items@ == Seq::<Event>::empty(),
            r.capacity == capacity,
            r.wf(),
    {
        EventQueue { items: Vec::new(), capacity }
    }

    /// Appends an event in arrival order. A full queue refuses the event and
    /// returns false instead of blocking.
    pub fn enqueue(&mut self, event: Event) -> (accepted: bool)
        requires
            old(self).wf(),
        ensures
            accepted == (old(self).items@.len() < old(self).capacity),
            accepted ==> final(self).items@ == old(self).items@.push(event),
            !accepted ==> final(self).items@ == old(self).items@,
            final(self).capacity == old(self).capacity,
            final(self).wf(),
    {
        if self.items.len() < self.capacity {
            self.items.push(event);
            true
        } else {
            false
        }
    }

    /// How many events are pending.
    pub fn len(&self) -> (r: usize)
        ensures
            r == self.items@.len(),
    {
        self.items.len()
    }

    /// Drops every pending event; the processor calls this after a drain.
    pub fn clear(&mut self)
        ensures
            final(self).items@ == Seq::<Event>::empty(),
            final(self).capacity == old(self).capacity,
            final(self).wf(),
    {
        self.items.clear();
    }
}

} // verus!
