//! The requests that the engine makes of the cycle scheduler. The engine
//! only records them; whoever drives the emulation hands them to the real
//! scheduler, which runs each event after its delay.
use vstd::prelude::*;

verus! {

#[derive(Clone, Copy, Debug, PartialEq, Eq, Structural)]
pub enum Event {
    /// Raise the geometry command FIFO interrupt.
    GeometryFifoInterrupt,
}

/// "Run `event` after `delay` ticks", under a token that can cancel it.
#[derive(Clone, Copy, Debug, PartialEq, Eq, Structural)]
pub struct ScheduledEvent {
    pub token: u64,
    pub delay: u64,
    pub event: Event,
}

pub struct SchedulerModel {
    pub scheduled: Seq<ScheduledEvent>,
    pub cancelled: Seq<u64>,
    pub next_token: u64,
}

pub struct Scheduler {
    scheduled: Vec<ScheduledEvent>,
    cancelled: Vec<u64>,
    next_token: u64,
}

impl View for Scheduler {
    type V = SchedulerModel;

    closed spec fn view(&self) -> SchedulerModel {
        SchedulerModel { scheduled: self.scheduled@, cancelled: self.cancelled@, next_token: self.next_token }
    }
}

/// The token that follows `t`.
pub open spec fn token_after(t: u64) -> u64 {
    if t == u64::MAX { 0 } else { (t + 1) as u64 }
}

impl Scheduler {
    pub fn new() -> (r: Scheduler)
        ensures
            r@.scheduled.len() == 0,
            r@.cancelled.len() == 0,
            r@.next_token == 0,
    {
        Scheduler { scheduled: Vec::new(), cancelled: Vec::new(), next_token: 0 }
    }

    /// Asks for `event` to run after `delay` ticks; returns its token.
    pub fn schedule(&mut self, delay: u64, event: Event) -> (token: u64)
        ensures
            token == old(self)@.next_token,
            final(self)@.scheduled == old(self)@.scheduled.push(ScheduledEvent { token, delay, event }),
            final(self)@.cancelled == old(self)@.cancelled,
            final(self)@.next_token == token_after(token),
    {
        let token = self.next_token;
        self.scheduled.push(ScheduledEvent { token, delay, event });
        self.next_token = if token == u64::MAX { 0 } else { token + 1 };
        token
    }

    /// Asks for the event under `token` not to run.
    pub fn cancel(&mut self, token: u64)
        ensures
            final(self)@.scheduled == old(self)@.scheduled,
            final(self)@.cancelled == old(self)@.cancelled.push(token),
            final(self)@.next_token == old(self)@.next_token,
    {
        self.cancelled.push(token);
    }

    /// Hands over the events asked for so far, oldest first, and forgets them.
    pub fn take_scheduled(&mut self) -> (r: Vec<ScheduledEvent>)
        ensures
            r@ == old(self)@.scheduled,
            final(self)@.scheduled.len() == 0,
            final(self)@.cancelled == old(self)@.cancelled,
            final(self)@.next_token == old(self)@.next_token,
    {
        let mut r: Vec<ScheduledEvent> = Vec::new();
        core::mem::swap(&mut r, &mut self.scheduled);
        r
    }

    /// Hands over the tokens cancelled so far, oldest first, and forgets them.
    pub fn take_cancelled(&mut self) -> (r: Vec<u64>)
        ensures
            r@ == old(self)@.cancelled,
            final(self)@.cancelled.len() == 0,
            final(self)@.scheduled == old(self)@.scheduled,
            final(self)@.next_token == old(self)@.next_token,
    {
        let mut r: Vec<u64> = Vec::new();
        core::mem::swap(&mut r, &mut self.cancelled);
        r
    }
}

} // verus!
