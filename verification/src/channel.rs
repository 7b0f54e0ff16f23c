//! Depth-1 sample handoff between the IMU reading task and the control
//! loop.
//!
//! One slot holds at most one outstanding sample event. The producer's
//! send fails — and it must wait — while the consumer has not marked the
//! previous sample done, so the producer can never run more than one
//! sample ahead: back-pressure is the slot itself.

use vstd::prelude::*;

use crate::fifo::SampleEvent;

verus! {

/// The single-slot sample channel.
pub struct SampleSlot {
    /// The outstanding sample event, if any.
    pub slot: Option<SampleEvent>,
}

impl SampleSlot {
    /// An empty slot.
    pub fn new() -> (r: Self)
        ensures
            r.slot is None,
    {
        SampleSlot { slot: None }
    }

    /// Offer a sample: it is taken only into an empty slot; a full slot
    /// is left untouched and the producer must retry after the consumer
    /// is done.
    pub fn try_send(&mut self, event: SampleEvent) -> (accepted: bool)
        ensures
            old(self).slot is None ==> accepted && final(self).slot == Some(event),
            old(self).slot is Some ==> !accepted && final(self).slot == old(self).slot,
    {
        match self.slot {
            None => {
                self.slot = Some(event);
                true
            },
            Some(_) => false,
        }
    }

    /// Look at the outstanding sample without releasing the slot.
    pub fn receive(&self) -> (r: Option<SampleEvent>)
        ensures
            r == self.slot,
    {
        self.slot
    }

    /// Mark the outstanding sample consumed, freeing the slot for the
    /// producer.
    pub fn receive_done(&mut self)
        ensures
            final(self).slot is None,
    {
        self.slot = None;
    }
}

} // verus!
