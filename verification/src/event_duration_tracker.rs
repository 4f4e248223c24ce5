//! Duration trackers.
//!
//! A tracker is bound to a context when an operation starts. The holder may
//! set an outcome, add tags, or mark the tracker ignored; when the scope
//! ends, `complete` turns the tracker into one event per id of its context,
//! exactly once. The host's scope wrapper guarantees that `complete` runs
//! on every exit path.

use vstd::prelude::*;
use vstd::string::StringExecFns;

use crate::clock::now_unix_microseconds;
use crate::ctx::{CtxView, MyTelemetryContext};
use crate::my_telemetry_event::{
    build_events, fan_out_events, opt_str_view, opt_tags_view, events_view, tags_view, TagView,
    TelemetryEvent, TelemetryEventTag,
};

verus! {

/// A scope-bound recorder of one operation's timing and outcome.
pub struct EventDurationTracker {
    pub my_telemetry: MyTelemetryContext,
    pub event_name: Option<String>,
    pub started: i64,
    pub ok_result: Option<String>,
    pub fail_result: Option<String>,
    pub tags: Option<Vec<TelemetryEventTag>>,
    pub ignore_this_event: bool,
}

/// The success text an emitted event carries: a set failure silences any
/// success, a set success is kept, and a tracker that nobody marked
/// succeeded merely by completing.
pub open spec fn resolved_success(ok: Option<Seq<char>>, fail: Option<Seq<char>>) -> Option<
    Seq<char>,
> {
    if fail is Some {
        None
    } else if ok is Some {
        ok
    } else {
        Some("Duration tracking"@)
    }
}

/// A failure set on a tracker always wins: no success text is emitted,
/// whatever was set before.
pub proof fn lemma_failure_wins(ok: Option<Seq<char>>, fail: Seq<char>)
    ensures
        resolved_success(ok, Some(fail)) is None,
{
}

/// A tracker with neither result set emits the default success text.
pub proof fn lemma_default_success()
    ensures
        resolved_success(None, None) == Some("Duration tracking"@),
{
}

impl EventDurationTracker {
    /// Whether completion produces events at all: not when the tracker is
    /// ignored, not while no sink is configured, not without a label.
    pub open spec fn emits(self, telemetry_is_set_up: bool) -> bool {
        &&& !self.ignore_this_event
        &&& telemetry_is_set_up
        &&& self.event_name is Some
    }

    /// A fresh tracker on its own fresh single-id context; the id and the
    /// start time are the same clock reading.
    pub fn new(event_name: String, ok_result: Option<String>) -> (r: Self)
        ensures
            r.my_telemetry@ == CtxView::Single(r.started),
            opt_str_view(r.event_name) == Some(event_name@),
            opt_str_view(r.ok_result) == opt_str_view(ok_result),
            r.fail_result is None,
            r.tags is None,
            !r.ignore_this_event,
    {
        let now = now_unix_microseconds();
        EventDurationTracker {
            my_telemetry: MyTelemetryContext::Single(now),
            event_name: Option::Some(event_name),
            started: now,
            ok_result,
            fail_result: Option::None,
            tags: Option::None,
            ignore_this_event: false,
        }
    }

    /// Sets a failure outcome, discarding any success set earlier.
    pub fn set_fail_result(&mut self, result: String)
        ensures
            opt_str_view(final(self).fail_result) == Some(result@),
            final(self).ok_result is None,
            final(self).my_telemetry == old(self).my_telemetry,
            final(self).event_name == old(self).event_name,
            final(self).started == old(self).started,
            final(self).tags == old(self).tags,
            final(self).ignore_this_event == old(self).ignore_this_event,
    {
        self.fail_result = Option::Some(result);
        self.ok_result = Option::None;
    }

    /// Sets a success outcome; a failure set at any time still wins.
    pub fn set_ok_result(&mut self, result: String)
        ensures
            opt_str_view(final(self).ok_result) == Some(result@),
            final(self).fail_result == old(self).fail_result,
            final(self).my_telemetry == old(self).my_telemetry,
            final(self).event_name == old(self).event_name,
            final(self).started == old(self).started,
            final(self).tags == old(self).tags,
            final(self).ignore_this_event == old(self).ignore_this_event,
    {
        self.ok_result = Option::Some(result);
    }

    /// Marks the tracker to emit nothing on completion.
    pub fn ignore_this_event(&mut self)
        ensures
            final(self).ignore_this_event,
            final(self).my_telemetry == old(self).my_telemetry,
            final(self).event_name == old(self).event_name,
            final(self).started == old(self).started,
            final(self).ok_result == old(self).ok_result,
            final(self).fail_result == old(self).fail_result,
            final(self).tags == old(self).tags,
    {
        self.ignore_this_event = true;
    }

    /// Clears the ignore mark again.
    pub fn do_not_ignore_this_event(&mut self)
        ensures
            !final(self).ignore_this_event,
            final(self).my_telemetry == old(self).my_telemetry,
            final(self).event_name == old(self).event_name,
            final(self).started == old(self).started,
            final(self).ok_result == old(self).ok_result,
            final(self).fail_result == old(self).fail_result,
            final(self).tags == old(self).tags,
    {
        self.ignore_this_event = false;
    }

    /// Appends one tag, builder style, creating the tag list on first use.
    pub fn add_tag(self, key: String, value: String) -> (r: Self)
        ensures
            opt_tags_view(r.tags) == Some(
                (match opt_tags_view(self.tags) {
                    Some(t) => t,
                    None => Seq::empty(),
                }).push(TagView { key: key@, value: value@ }),
            ),
            r.my_telemetry == self.my_telemetry,
            r.event_name == self.event_name,
            r.started == self.started,
            r.ok_result == self.ok_result,
            r.fail_result == self.fail_result,
            r.ignore_this_event == self.ignore_this_event,
    {
        let mut this = self;
        let mut list = match this.tags.take() {
            Option::Some(v) => v,
            Option::None => Vec::new(),
        };
        let ghost before = tags_view(list@);
        list.push(TelemetryEventTag { key, value });
        proof {
            assert(tags_view(list@) =~= before.push(TagView { key: key@, value: value@ }));
        }
        this.tags = Option::Some(list);
        this
    }

    /// The completion protocol, run exactly once at scope exit: nothing is
    /// produced for an ignored tracker, an unconfigured gateway, or a
    /// missing label; otherwise one event per id of the held context, all
    /// with identical label, timing, outcome and tags, the failure winning
    /// over any success.
    pub fn complete(self, telemetry_is_set_up: bool, finished: i64) -> (events: Vec<
        TelemetryEvent,
    >)
        ensures
            !self.emits(telemetry_is_set_up) ==> events@.len() == 0,
            self.emits(telemetry_is_set_up) ==> events_view(events@) == fan_out_events(
                self.my_telemetry@.ids(),
                self.started,
                finished,
                self.event_name->0@,
                resolved_success(opt_str_view(self.ok_result), opt_str_view(self.fail_result)),
                opt_str_view(self.fail_result),
                opt_tags_view(self.tags),
            ),
    {
        if self.ignore_this_event || !telemetry_is_set_up {
            return Vec::new();
        }
        let EventDurationTracker {
            my_telemetry,
            event_name,
            started,
            ok_result,
            fail_result,
            tags,
            ignore_this_event: _,
        } = self;
        match event_name {
            Option::None => Vec::new(),
            Option::Some(name) => {
                let success: Option<String>;
                let fail: Option<String>;
                if fail_result.is_some() {
                    success = Option::None;
                    fail = fail_result;
                } else if ok_result.is_some() {
                    success = ok_result;
                    fail = Option::None;
                } else {
                    success = Option::Some(String::from_str("Duration tracking"));
                    fail = Option::None;
                }
                build_events(&my_telemetry, started, finished, &name, &success, &fail, &tags)
            }
        }
    }
}

impl MyTelemetryContext {
    /// A tracker bound to a copy of this context, started now.
    pub fn start_event_tracking(&self, event_name: String) -> (r: EventDurationTracker)
        ensures
            r.my_telemetry@ == self@,
            opt_str_view(r.event_name) == Some(event_name@),
            r.ok_result is None,
            r.fail_result is None,
            r.tags is None,
            !r.ignore_this_event,
    {
        EventDurationTracker {
            my_telemetry: self.clone(),
            event_name: Option::Some(event_name),
            started: now_unix_microseconds(),
            ok_result: Option::None,
            fail_result: Option::None,
            tags: Option::None,
            ignore_this_event: false,
        }
    }

    /// A tracker on a fresh single-id context of its own.
    pub fn start_duration_tracking(process_name: String) -> (r: EventDurationTracker)
        ensures
            r.my_telemetry@ == CtxView::Single(r.started),
            opt_str_view(r.event_name) == Some(process_name@),
            r.ok_result is None,
            r.fail_result is None,
            r.tags is None,
            !r.ignore_this_event,
    {
        EventDurationTracker::new(process_name, Option::None)
    }

    /// Kept for callers of the older name of `start_duration_tracking`.
    pub fn track_timer_duration(process_name: String) -> (r: EventDurationTracker)
        ensures
            r.my_telemetry@ == CtxView::Single(r.started),
            opt_str_view(r.event_name) == Some(process_name@),
            r.ok_result is None,
            r.fail_result is None,
            r.tags is None,
            !r.ignore_this_event,
    {
        EventDurationTracker::new(process_name, Option::None)
    }
}

} // verus!
