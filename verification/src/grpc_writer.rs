//! The export transport's decision core and wire records.
//!
//! The transport keeps at most one live connection to the remote sink and
//! drops it on any failure, so the next call reconnects from scratch. The
//! network calls themselves are the host's: it connects, pings and uploads,
//! and feeds each call's outcome into the state machine here, which decides
//! what is reported and whether the connection is kept. Converting buffered
//! events into wire records, with the service label attached to every one,
//! is done here as well.

use vstd::prelude::*;

use crate::my_telemetry_event::{
    events_view, opt_str_view, tags_view, EventView, TagView, TelemetryEvent, TelemetryEventTag,
};

verus! {

/// A key/value pair as it is transmitted.
#[derive(Debug, PartialEq)]
pub struct EventGrpcTag {
    pub key: String,
    pub value: String,
}

impl View for EventGrpcTag {
    type V = TagView;

    open spec fn view(&self) -> TagView {
        TagView { key: self.key@, value: self.value@ }
    }
}

/// One record as it is transmitted: the event plus the service label.
#[derive(Debug, PartialEq)]
pub struct TelemetryGrpcEvent {
    pub process_id: i64,
    pub started_at: i64,
    pub finished_at: i64,
    pub service_name: String,
    pub event_data: String,
    pub success: Option<String>,
    pub fail: Option<String>,
    pub tags: Vec<EventGrpcTag>,
}

/// Mathematical shape of a wire record.
pub struct GrpcEventView {
    pub process_id: i64,
    pub started_at: i64,
    pub finished_at: i64,
    pub service_name: Seq<char>,
    pub event_data: Seq<char>,
    pub success: Option<Seq<char>>,
    pub fail: Option<Seq<char>>,
    pub tags: Seq<TagView>,
}

impl View for TelemetryGrpcEvent {
    type V = GrpcEventView;

    open spec fn view(&self) -> GrpcEventView {
        GrpcEventView {
            process_id: self.process_id,
            started_at: self.started_at,
            finished_at: self.finished_at,
            service_name: self.service_name@,
            event_data: self.event_data@,
            success: opt_str_view(self.success),
            fail: opt_str_view(self.fail),
            tags: self.tags@.map_values(|t: EventGrpcTag| t@),
        }
    }
}

/// The wire record of one event: identity, timing, label and outcome are
/// carried over, the service label is attached, and an absent tag list
/// transmits as an empty one.
pub open spec fn wire_record(service_name: Seq<char>, e: EventView) -> GrpcEventView {
    GrpcEventView {
        process_id: e.process_id,
        started_at: e.started,
        finished_at: e.finished,
        service_name,
        event_data: e.data,
        success: e.success,
        fail: e.fail,
        tags: match e.tags {
            Some(t) => t,
            None => Seq::empty(),
        },
    }
}

pub open spec fn wire_records(service_name: Seq<char>, events: Seq<EventView>) -> Seq<
    GrpcEventView,
> {
    Seq::new(events.len(), |i: int| wire_record(service_name, events[i]))
}

/// Owned wire tags for one event's tag list, same pairs in the same order.
#[verifier::loop_isolation(false)]
fn tags_to_grpc(tags: &Vec<TelemetryEventTag>) -> (r: Vec<EventGrpcTag>)
    ensures
        r@.map_values(|t: EventGrpcTag| t@) == tags_view(tags@),
{
    let mut out: Vec<EventGrpcTag> = Vec::new();
    let mut i: usize = 0;
    while i < tags.len()
        invariant
            i <= tags@.len(),
            out@.len() == i,
            forall|k: int| 0 <= k < i ==> out@[k]@ == tags@[k]@,
        decreases tags@.len() - i,
    {
        let t = tags[i].clone();
        out.push(EventGrpcTag { key: t.key, value: t.value });
        i += 1;
    }
    proof {
        assert(out@.map_values(|t: EventGrpcTag| t@) =~= tags_view(tags@));
    }
    out
}

/// Converts a drained batch into wire records, attaching `service_name` to
/// every one.
#[verifier::loop_isolation(false)]
pub fn make_grpc_events(service_name: &str, to_write: Vec<TelemetryEvent>) -> (r: Vec<
    TelemetryGrpcEvent,
>)
    ensures
        r@.map_values(|g: TelemetryGrpcEvent| g@) == wire_records(
            service_name@,
            events_view(to_write@),
        ),
{
    let ghost target = wire_records(service_name@, events_view(to_write@));
    let mut out: Vec<TelemetryGrpcEvent> = Vec::new();
    let mut rest = to_write;
    let ghost all = to_write@;
    while rest.len() > 0
        invariant
            out@.len() + rest@.len() == all.len(),
            rest@ == all.skip(out@.len() as int),
            forall|k: int| 0 <= k < out@.len() ==> out@[k]@ == target[k],
        decreases rest@.len(),
    {
        let ghost k = out@.len() as int;
        let item = rest.remove(0);
        proof {
            assert(all.skip(k)[0] == all[k]);
            assert(rest@ =~= all.skip(k + 1));
        }
        let tags = match item.tags {
            Option::Some(t) => tags_to_grpc(&t),
            Option::None => Vec::new(),
        };
        let wire = TelemetryGrpcEvent {
            process_id: item.process_id,
            started_at: item.started,
            finished_at: item.finished,
            service_name: String::from_str(service_name),
            event_data: item.data,
            success: item.success,
            fail: item.fail,
            tags,
        };
        proof {
            assert(wire@.tags =~= target[k].tags);
        }
        out.push(wire);
    }
    proof {
        assert(out@.map_values(|g: TelemetryGrpcEvent| g@) =~= target);
    }
    out
}

/// The connection state of the transport. The host owns the actual channel
/// handle; `connected` says whether a handle is cached for reuse.
pub struct GrpcClient {
    pub connected: bool,
}

impl GrpcClient {
    /// A transport that has never connected.
    pub fn new() -> (r: Self)
        ensures
            !r.connected,
    {
        GrpcClient { connected: false }
    }

    /// The health-check decision. The host pings a cached connection, or
    /// first establishes one (`connect_ok`) and then pings it (`ping_ok`),
    /// each bounded by the transport timeout; a timeout counts as failure.
    /// Healthy exactly when a connection existed or was established and the
    /// ping came back; the connection is kept exactly then, so an unhealthy
    /// transport always reconnects from scratch.
    pub fn is_grpc(&mut self, connect_ok: bool, ping_ok: bool) -> (healthy: bool)
        ensures
            healthy == ((old(self).connected || connect_ok) && ping_ok),
            final(self).connected == healthy,
    {
        let had = self.connected;
        let healthy = (had || connect_ok) && ping_ok;
        self.connected = healthy;
        healthy
    }

    /// The batch-upload decision. The host reuses the cached connection or
    /// first establishes one (`connect_ok`), then streams the batch as one
    /// upload call (`upload_ok`), each bounded by the transport timeout.
    /// Success is reported exactly when a connection was available and the
    /// upload went through; on any failure the connection is dropped, so
    /// the next call reconnects from scratch.
    pub fn write_events(&mut self, connect_ok: bool, upload_ok: bool) -> (sent: bool)
        ensures
            sent == ((old(self).connected || connect_ok) && upload_ok),
            final(self).connected == sent,
    {
        let had = self.connected;
        let sent = (had || connect_ok) && upload_ok;
        self.connected = sent;
        sent
    }
}

} // verus!
