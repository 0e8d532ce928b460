//! The interceptor engine: decides whether a raw event is blocked before it
//! reaches other applications.
//!
//! The decision is pure: it reads only the interceptor's own running flag and
//! capability mask, never the listener's state, and is evaluated on every raw
//! event independently of whether the listener observes it.

use vstd::prelude::*;

use crate::event::RawEvent;
use crate::mask::{
    category_bit, category_enabled, spec_update_state, update_state, MASK_ALL, MASK_KEYBOARD,
    MASK_MOUSE_BUTTON, MASK_MOUSE_MOVE, MASK_MOUSE_WHEEL,
};

verus! {

/// The interceptor: a running flag and a capability mask selecting which
/// event categories are blocked while it runs.
pub struct Grab {
    /// Whether interception is currently evaluated.
    pub running: bool,
    /// Capability mask of the blocked categories.
    pub flags: u32,
}

/// True when the interceptor blocks this raw event: it must be running and
/// the event's category bit must be set in its mask.
pub open spec fn spec_should_block(grab: Grab, raw: RawEvent) -> bool {
    grab.running && category_enabled(grab.flags, category_bit(raw))
}

impl Grab {
    /// A stopped interceptor with an empty mask.
    pub fn new() -> (r: Self)
        ensures
            !r.running,
            r.flags == 0,
    {
        Grab { running: false, flags: 0 }
    }

    /// Marks the interceptor running; returns whether it already was.
    fn is_run(&mut self) -> (r: bool)
        ensures
            r == old(self).running,
            final(self).running,
            final(self).flags == old(self).flags,
    {
        if self.running {
            true
        } else {
            self.running = true;
            false
        }
    }

    /// Starts interception.  A first start enables every category; a start
    /// while already running is a no-op and keeps the current mask.
    pub fn start(&mut self)
        ensures
            final(self).running,
            final(self).flags == (if old(self).running {
                old(self).flags
            } else {
                old(self).flags | MASK_ALL
            }),
    {
        if self.is_run() {
            return;
        }
        self.flags = self.flags | MASK_ALL;
    }

    /// Whether the interceptor is currently running.
    pub fn is_runing(&self) -> (r: bool)
        ensures
            r == self.running,
    {
        self.running
    }

    /// Pauses interception without touching the mask: no blocking occurs
    /// while paused, regardless of the mask contents.
    pub fn pause(&mut self)
        ensures
            !final(self).running,
            final(self).flags == old(self).flags,
    {
        self.running = false;
    }

    /// Resumes interception with the mask as it was.
    pub fn resume(&mut self)
        ensures
            final(self).running,
            final(self).flags == old(self).flags,
    {
        self.running = true;
    }

    /// Stops interception: pauses and clears the whole mask.  Safe and
    /// idempotent without a prior start.
    pub fn stop(&mut self)
        ensures
            !final(self).running,
            final(self).flags == 0,
    {
        self.pause();
        self.flags = 0;
    }

    /// Sets or clears the pointer-motion category, leaving the others as
    /// they are.
    pub fn mouse_move(&mut self, enable: bool)
        ensures
            final(self).flags == spec_update_state(old(self).flags, MASK_MOUSE_MOVE, enable),
            final(self).running == old(self).running,
    {
        self.flags = update_state(self.flags, MASK_MOUSE_MOVE, enable);
    }

    /// Sets or clears the wheel category, leaving the others as they are.
    pub fn mouse_wheel(&mut self, enable: bool)
        ensures
            final(self).flags == spec_update_state(old(self).flags, MASK_MOUSE_WHEEL, enable),
            final(self).running == old(self).running,
    {
        self.flags = update_state(self.flags, MASK_MOUSE_WHEEL, enable);
    }

    /// Sets or clears the button category, leaving the others as they are.
    pub fn mouse_button(&mut self, enable: bool)
        ensures
            final(self).flags == spec_update_state(old(self).flags, MASK_MOUSE_BUTTON, enable),
            final(self).running == old(self).running,
    {
        self.flags = update_state(self.flags, MASK_MOUSE_BUTTON, enable);
    }

    /// Sets or clears the keyboard category, leaving the others as they are.
    pub fn keyboard(&mut self, enable: bool)
        ensures
            final(self).flags == spec_update_state(old(self).flags, MASK_KEYBOARD, enable),
            final(self).running == old(self).running,
    {
        self.flags = update_state(self.flags, MASK_KEYBOARD, enable);
    }

    /// Whether this raw event is blocked: true exactly when the interceptor
    /// is running and the event's category bit is set in its mask.  Pure and
    /// side-effect free.
    pub fn should_block(&self, raw: &RawEvent) -> (r: bool)
        ensures
            r == spec_should_block(*self, *raw),
    {
        if !self.running {
            return false;
        }
        if self.flags == 0 {
            proof {
                let b = category_bit(*raw);
                assert(0u32 & b == 0) by (bit_vector);
            }
            return false;
        }
        let bit = match raw {
            RawEvent::MouseMove { .. } => MASK_MOUSE_MOVE,
            RawEvent::MouseButton { .. } => MASK_MOUSE_BUTTON,
            RawEvent::MouseWheel { .. } => MASK_MOUSE_WHEEL,
            RawEvent::Key { .. } => MASK_KEYBOARD,
            RawEvent::FlagsChanged { .. } => MASK_KEYBOARD,
        };
        self.flags & bit != 0
    }
}

} // verus!
