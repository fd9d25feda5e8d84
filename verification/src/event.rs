//! The events that a CDP session emits to its subscribers.
use vstd::prelude::*;

verus! {

/// The kind of a session event, without its payload.
#[derive(Debug, Clone, Copy, PartialEq, Eq, Structural)]
pub enum EventType {
    Event,
    Detached,
}

/// An event as the session emits it on its channel.
#[derive(Debug)]
pub enum Evt {
    /// A CDP event: its method name and its parameters.
    Event { method: String, params: serde_json::Value },
    /// The session was detached from its target.
    Detached,
}

/// An event as a subscriber receives it.
#[derive(Debug)]
pub enum Event {
    /// (cdp_method, cdp_params)
    Event(String, serde_json::Value),
    Detached,
}

impl Clone for Evt {
    /// An equal event: the same method name and parameters.
    fn clone(&self) -> (r: Self)
        ensures
            r == *self,
    {
        match self {
            Evt::Event { method, params } => Evt::Event { method: method.clone(), params: params.clone() },
            Evt::Detached => Evt::Detached,
        }
    }
}

impl Clone for Event {
    /// An equal event: the same method name and parameters.
    fn clone(&self) -> (r: Self)
        ensures
            r == *self,
    {
        match self {
            Event::Event(method, params) => Event::Event(method.clone(), params.clone()),
            Event::Detached => Event::Detached,
        }
    }
}

impl Evt {
    /// The kind of this event.
    pub open spec fn spec_event_type(&self) -> EventType {
        match self {
            Evt::Event { .. } => EventType::Event,
            Evt::Detached => EventType::Detached,
        }
    }

    /// The kind of this event.
    #[verifier::when_used_as_spec(spec_event_type)]
    pub fn event_type(&self) -> (t: EventType)
        ensures
            t == self.spec_event_type(),
    {
        match self {
            Evt::Event { .. } => EventType::Event,
            Evt::Detached => EventType::Detached,
        }
    }
}

/// The event that a subscriber receives for the emitted event `e`: the same
/// method name and parameters, or `Detached` for `Detached`.
pub open spec fn event_of(e: Evt) -> Event {
    match e {
        Evt::Event { method, params } => Event::Event(method, params),
        Evt::Detached => Event::Detached,
    }
}

impl From<Evt> for Event {
    fn from(e: Evt) -> (r: Self) {
        match e {
            Evt::Event { method, params } => Event::Event(method, params),
            Evt::Detached => Event::Detached,
        }
    }
}

impl vstd::std_specs::convert::FromSpecImpl<Evt> for Event {
    open spec fn obeys_from_spec() -> bool {
        true
    }

    open spec fn from_spec(e: Evt) -> Event {
        event_of(e)
    }
}

/// Turning an emitted event into the event a subscriber receives keeps its
/// kind: it is `Detached` exactly when the emitted event is of type `Detached`.
pub proof fn lemma_event_keeps_type(e: Evt)
    ensures
        (event_of(e) is Detached) <==> (e.event_type() == EventType::Detached),
        (event_of(e) is Event) <==> (e.event_type() == EventType::Event),
{
}

/// A clone of an emitted event (which `Clone::clone` ensures is equal to it)
/// is of the same type as the original.
pub proof fn lemma_clone_keeps_type(e: Evt, c: Evt)
    requires
        c == e,
    ensures
        c.event_type() == e.event_type(),
{
}

/// Turning an emitted event into the event a subscriber receives loses
/// nothing: two emitted events that give the same event are the same.
pub proof fn lemma_event_of_injective(a: Evt, b: Evt)
    requires
        event_of(a) == event_of(b),
    ensures
        a == b,
{
}

} // verus!
