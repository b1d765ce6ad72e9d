//! The state of one event object.

use vstd::prelude::*;

verus! {

/// Which phase of dispatch an event is currently in.
#[derive(Clone, Copy, Debug, PartialEq, Eq, Structural)]
pub enum EventPhase {
    Capturing,
    AtTarget,
    Bubbling,
}

impl EventPhase {
    /// The numeric encoding of the phase, as scripts observe it.
    pub fn phase_number(&self) -> (r: u32)
        ensures
            r == spec_phase_number(*self),
    {
        match self {
            EventPhase::Capturing => 1,
            EventPhase::AtTarget => 2,
            EventPhase::Bubbling => 3,
        }
    }
}

/// The numeric encoding of an event phase.
pub open spec fn spec_phase_number(p: EventPhase) -> u32 {
    match p {
        EventPhase::Capturing => 1u32,
        EventPhase::AtTarget => 2u32,
        EventPhase::Bubbling => 3u32,
    }
}

/// How far propagation of an event has been restricted.
#[derive(Clone, Copy, Debug, PartialEq, Eq, Structural)]
pub enum PropagationMode {
    Allow,
    Stop,
    StopImmediate,
}

/// The mutable state of one event.
#[derive(Debug)]
pub struct EventData {
    /// The event's type name.
    pub event_type: String,
    /// Whether the event bubbles back up the display hierarchy.
    pub bubbles: bool,
    /// Whether the event's default behaviour can be cancelled.
    pub cancelable: bool,
    /// Whether the default behaviour has been cancelled.
    pub cancelled: bool,
    /// The current dispatch phase.
    pub phase: EventPhase,
    /// The object the event was originally dispatched at.
    pub target: Option<usize>,
    /// The object whose handlers are currently running.
    pub current_target: Option<usize>,
    /// How far propagation has been restricted.
    pub propagation: PropagationMode,
}

impl Clone for EventData {
    /// An exact copy: the copy equals the original.
    fn clone(&self) -> (r: EventData)
        ensures
            r == *self,
    {
        EventData {
            event_type: self.event_type.clone(),
            bubbles: self.bubbles,
            cancelable: self.cancelable,
            cancelled: self.cancelled,
            phase: self.phase,
            target: self.target,
            current_target: self.current_target,
            propagation: self.propagation,
        }
    }
}

impl EventData {
    /// A fresh event of the given type: not bubbling, not cancelable, at
    /// target phase, unrestricted.
    pub fn new(event_type: String) -> (r: EventData)
        ensures
            r == (EventData {
                event_type,
                bubbles: false,
                cancelable: false,
                cancelled: false,
                phase: EventPhase::AtTarget,
                target: None,
                current_target: None,
                propagation: PropagationMode::Allow,
            }),
    {
        EventData {
            event_type,
            bubbles: false,
            cancelable: false,
            cancelled: false,
            phase: EventPhase::AtTarget,
            target: None,
            current_target: None,
            propagation: PropagationMode::Allow,
        }
    }

    /// Cancels the event's default behaviour, when it is cancelable at all.
    pub fn cancel(&mut self)
        ensures
            *final(self) == (EventData {
                cancelled: old(self).cancelled || old(self).cancelable,
                ..*old(self)
            }),
    {
        if self.cancelable {
            self.cancelled = true;
        }
    }

    /// Stops the event from visiting further objects.
    pub fn stop_propagation(&mut self)
        ensures
            *final(self) == (EventData { propagation: PropagationMode::Stop, ..*old(self) }),
    {
        self.propagation = PropagationMode::Stop;
    }

    /// Stops the event from visiting further objects or further handlers on
    /// the current one.
    pub fn stop_immediate_propagation(&mut self)
        ensures
            *final(self) == (EventData {
                propagation: PropagationMode::StopImmediate,
                ..*old(self)
            }),
    {
        self.propagation = PropagationMode::StopImmediate;
    }
}

} // verus!
