//! The event buffer.
//!
//! Producers append finished events; one exporter drains the whole buffer
//! at once. The buffer distinguishes "nothing was ever written" from a
//! batch, so an empty export round trip can be skipped. The gateway holds
//! exactly one collector behind its lock, which makes the drain atomic with
//! respect to concurrent writes.

use vstd::prelude::*;

use crate::my_telemetry_event::{events_view, EventView, TelemetryEvent};

verus! {

/// What a collector holds: `None` until something is written, then the
/// buffered events in arrival order.
pub open spec fn buffered(m: Option<Seq<EventView>>) -> Seq<EventView> {
    match m {
        Some(s) => s,
        None => Seq::empty(),
    }
}

/// Append-only buffer of telemetry events with an atomic take-all drain.
pub struct TelemtryCollector {
    events_to_publish: Option<Vec<TelemetryEvent>>,
}

impl View for TelemtryCollector {
    type V = Option<Seq<EventView>>;

    closed spec fn view(&self) -> Option<Seq<EventView>> {
        match self.events_to_publish {
            Some(v) => Some(events_view(v@)),
            None => None,
        }
    }
}

impl TelemtryCollector {
    pub fn new() -> (r: Self)
        ensures
            r@ is None,
    {
        TelemtryCollector { events_to_publish: None }
    }

    /// Appends one event; every previously buffered event stays in place.
    pub fn write(&mut self, event: TelemetryEvent)
        ensures
            final(self)@ == Some(buffered(old(self)@).push(event@)),
    {
        let mut buf = match self.events_to_publish.take() {
            Option::Some(v) => v,
            Option::None => Vec::new(),
        };
        buf.push(event);
        proof {
            assert(events_view(buf@) =~= buffered(old(self)@).push(event@));
        }
        self.events_to_publish = Option::Some(buf);
    }

    /// Appends a batch in order; every previously buffered event stays in
    /// place.
    pub fn write_events(&mut self, events: Vec<TelemetryEvent>)
        ensures
            final(self)@ == Some(buffered(old(self)@) + events_view(events@)),
    {
        let mut buf = match self.events_to_publish.take() {
            Option::Some(v) => v,
            Option::None => Vec::new(),
        };
        let ghost base = buffered(old(self)@);
        let ghost incoming = events_view(events@);
        let mut rest = events;
        buf.append(&mut rest);
        proof {
            assert(events_view(buf@) =~= base + incoming);
        }
        self.events_to_publish = Option::Some(buf);
    }

    /// Atomically removes and returns everything buffered, or reports that
    /// nothing is pending. The collector is empty afterwards either way.
    pub fn get_events(&mut self) -> (r: Option<Vec<TelemetryEvent>>)
        ensures
            final(self)@ is None,
            match r {
                Some(v) => old(self)@ == Some(events_view(v@)),
                None => old(self)@ is None,
            },
    {
        self.events_to_publish.take()
    }
}

} // verus!
