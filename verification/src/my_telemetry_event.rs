//! Telemetry events and their tags.
//!
//! An event records one traced operation for one process id: its timing,
//! its label, exactly one outcome (success text, failure text, or neither),
//! and free-form key/value tags.

use vstd::prelude::*;
use vstd::string::StringExecFns;

verus! {

/// One buffered telemetry record. Immutable once built.
#[derive(Debug, PartialEq)]
pub struct TelemetryEvent {
    pub process_id: i64,
    pub started: i64,
    pub finished: i64,
    pub data: String,
    pub success: Option<String>,
    pub fail: Option<String>,
    pub tags: Option<Vec<TelemetryEventTag>>,
}

/// A free-form key/value annotation on an event.
#[derive(Debug, PartialEq)]
pub struct TelemetryEventTag {
    pub key: String,
    pub value: String,
}

/// Mathematical shape of a tag.
pub struct TagView {
    pub key: Seq<char>,
    pub value: Seq<char>,
}

impl View for TelemetryEventTag {
    type V = TagView;

    open spec fn view(&self) -> TagView {
        TagView { key: self.key@, value: self.value@ }
    }
}

impl Clone for TelemetryEventTag {
    /// A clone carries the same key and value.
    fn clone(&self) -> (r: Self)
        ensures
            r@ == self@,
    {
        TelemetryEventTag { key: self.key.clone(), value: self.value.clone() }
    }
}

/// Mathematical shape of an event.
pub struct EventView {
    pub process_id: i64,
    pub started: i64,
    pub finished: i64,
    pub data: Seq<char>,
    pub success: Option<Seq<char>>,
    pub fail: Option<Seq<char>>,
    pub tags: Option<Seq<TagView>>,
}

pub open spec fn opt_str_view(o: Option<String>) -> Option<Seq<char>> {
    match o {
        Some(s) => Some(s@),
        None => None,
    }
}

pub open spec fn tags_view(v: Seq<TelemetryEventTag>) -> Seq<TagView> {
    v.map_values(|t: TelemetryEventTag| t@)
}

pub open spec fn opt_tags_view(o: Option<Vec<TelemetryEventTag>>) -> Option<Seq<TagView>> {
    match o {
        Some(v) => Some(tags_view(v@)),
        None => None,
    }
}

impl View for TelemetryEvent {
    type V = EventView;

    open spec fn view(&self) -> EventView {
        EventView {
            process_id: self.process_id,
            started: self.started,
            finished: self.finished,
            data: self.data@,
            success: opt_str_view(self.success),
            fail: opt_str_view(self.fail),
            tags: opt_tags_view(self.tags),
        }
    }
}

/// The shapes of a sequence of events.
pub open spec fn events_view(v: Seq<TelemetryEvent>) -> Seq<EventView> {
    v.map_values(|e: TelemetryEvent| e@)
}

/// An owned copy of an optional outcome text, same shape.
pub fn clone_opt_string(o: &Option<String>) -> (r: Option<String>)
    ensures
        opt_str_view(r) == opt_str_view(*o),
{
    match o {
        Option::Some(s) => Option::Some(s.clone()),
        Option::None => Option::None,
    }
}

/// An owned copy of a tag list, same shapes in the same order.
#[verifier::loop_isolation(false)]
pub fn clone_tags(v: &Vec<TelemetryEventTag>) -> (r: Vec<TelemetryEventTag>)
    ensures
        tags_view(r@) == tags_view(v@),
{
    let mut out: Vec<TelemetryEventTag> = Vec::new();
    let mut i: usize = 0;
    while i < v.len()
        invariant
            i <= v@.len(),
            out@.len() == i,
            forall|k: int| 0 <= k < i ==> out@[k]@ == v@[k]@,
        decreases v@.len() - i,
    {
        out.push(v[i].clone());
        i += 1;
    }
    proof {
        assert(tags_view(out@) =~= tags_view(v@));
    }
    out
}

/// An owned copy of an optional tag list, same shape.
pub fn clone_opt_tags(o: &Option<Vec<TelemetryEventTag>>) -> (r: Option<Vec<TelemetryEventTag>>)
    ensures
        opt_tags_view(r) == opt_tags_view(*o),
{
    match o {
        Option::Some(v) => Option::Some(clone_tags(v)),
        Option::None => Option::None,
    }
}

/// One event per process id, all carrying the same timing, label, outcome
/// and tags.
pub open spec fn fan_out_events(
    ids: Seq<i64>,
    started: i64,
    finished: i64,
    data: Seq<char>,
    success: Option<Seq<char>>,
    fail: Option<Seq<char>>,
    tags: Option<Seq<TagView>>,
) -> Seq<EventView> {
    Seq::new(
        ids.len(),
        |i: int|
            EventView {
                process_id: ids[i],
                started,
                finished,
                data,
                success,
                fail,
                tags,
            },
    )
}

/// Builds one event per id of `ctx`, each with identical label, timing,
/// outcome and tags; an empty context yields no event.
#[verifier::loop_isolation(false)]
pub fn build_events(
    ctx: &crate::ctx::MyTelemetryContext,
    started: i64,
    finished: i64,
    data: &String,
    success: &Option<String>,
    fail: &Option<String>,
    tags: &Option<Vec<TelemetryEventTag>>,
) -> (events: Vec<TelemetryEvent>)
    ensures
        events_view(events@) == fan_out_events(
            ctx@.ids(),
            started,
            finished,
            data@,
            opt_str_view(*success),
            opt_str_view(*fail),
            opt_tags_view(*tags),
        ),
{
    let ids = ctx.get_ids();
    let mut events: Vec<TelemetryEvent> = Vec::new();
    let mut i: usize = 0;
    let ghost target = fan_out_events(
        ctx@.ids(),
        started,
        finished,
        data@,
        opt_str_view(*success),
        opt_str_view(*fail),
        opt_tags_view(*tags),
    );
    while i < ids.len()
        invariant
            i <= ids@.len(),
            ids@ == ctx@.ids(),
            events@.len() == i,
            forall|k: int| 0 <= k < i ==> events@[k]@ == target[k],
        decreases ids@.len() - i,
    {
        let event = TelemetryEvent {
            process_id: ids[i],
            started,
            finished,
            data: data.clone(),
            success: clone_opt_string(success),
            fail: clone_opt_string(fail),
            tags: clone_opt_tags(tags),
        };
        events.push(event);
        i += 1;
    }
    proof {
        assert(events_view(events@) =~= target);
    }
    events
}

/// Accumulates tags before an event or a tracker is built.
#[derive(Debug)]
pub struct TelemetryEventTagsBuilder {
    pub tags: Vec<TelemetryEventTag>,
}

impl View for TelemetryEventTagsBuilder {
    type V = Seq<TagView>;

    open spec fn view(&self) -> Seq<TagView> {
        tags_view(self.tags@)
    }
}

impl TelemetryEventTagsBuilder {
    pub fn new() -> (r: Self)
        ensures
            r@ =~= Seq::<TagView>::empty(),
    {
        let r = TelemetryEventTagsBuilder { tags: Vec::new() };
        proof {
            assert(r@ =~= Seq::<TagView>::empty());
        }
        r
    }

    /// Appends one tag in place.
    pub fn add_as_ref(&mut self, key: String, value: String)
        ensures
            final(self)@ == old(self)@.push(TagView { key: key@, value: value@ }),
    {
        self.tags.push(TelemetryEventTag { key, value });
        proof {
            assert(self@ =~= old(self)@.push(TagView { key: key@, value: value@ }));
        }
    }

    /// Appends one tag, builder style.
    pub fn add(self, key: String, value: String) -> (r: Self)
        ensures
            r@ == self@.push(TagView { key: key@, value: value@ }),
    {
        let mut this = self;
        this.add_as_ref(key, value);
        this
    }

    /// Appends the caller's address under the conventional `ip` key.
    pub fn add_ip(self, ip: String) -> (r: Self)
        ensures
            r@ == self@.push(TagView { key: "ip"@, value: ip@ }),
    {
        self.add(String::from_str("ip"), ip)
    }

    /// The collected tags, or `None` if there are none at all.
    pub fn build(self) -> (r: Option<Vec<TelemetryEventTag>>)
        ensures
            self@.len() == 0 ==> r is None,
            self@.len() > 0 ==> opt_tags_view(r) == Some(self@),
    {
        if self.tags.len() == 0 {
            return Option::None;
        }
        Option::Some(self.tags)
    }

    /// Moves the collected tags into a fresh builder, leaving this one
    /// empty.
    pub fn take_tags(&mut self) -> (r: Self)
        ensures
            r@ == old(self)@,
            final(self)@ =~= Seq::<TagView>::empty(),
    {
        let mut taken: Vec<TelemetryEventTag> = Vec::new();
        core::mem::swap(&mut taken, &mut self.tags);
        proof {
            assert(self@ =~= Seq::<TagView>::empty());
        }
        TelemetryEventTagsBuilder { tags: taken }
    }
}

impl Default for TelemetryEventTagsBuilder {
    fn default() -> (r: Self)
        ensures
            r@ =~= Seq::<TagView>::empty(),
    {
        TelemetryEventTagsBuilder::new()
    }
}

} // verus!
