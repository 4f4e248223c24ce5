//! The telemetry gateway.
//!
//! Every write is routed through one gateway value that pairs the event
//! collector with a "sink configured" flag. Until a transport attaches
//! itself, every write is a silent no-op, so instrumentation is safe to
//! call unconditionally. The host wraps the gateway in its own exclusive
//! lock; the methods here are the logic that runs under it.

use vstd::prelude::*;

use crate::clock::now_unix_microseconds;
use crate::ctx::{CtxView, MyTelemetryContext};
use crate::my_telemetry_event::{
    build_events, fan_out_events, opt_str_view, opt_tags_view, events_view, TelemetryEvent,
    TelemetryEventTag,
};
use crate::telemetry_collector::{buffered, TelemtryCollector};

verus! {

/// The collector plus the sink-configured flag.
pub struct TelemetryInterface {
    pub telemetry_collector: TelemtryCollector,
    pub writer_is_set: bool,
}

impl TelemetryInterface {
    pub fn new() -> (r: Self)
        ensures
            r.telemetry_collector@ is None,
            !r.writer_is_set,
    {
        TelemetryInterface { telemetry_collector: TelemtryCollector::new(), writer_is_set: false }
    }

    /// Whether a sink has attached itself.
    pub fn is_telemetry_set_up(&self) -> (r: bool)
        ensures
            r == self.writer_is_set,
    {
        self.writer_is_set
    }

    /// Called once by a transport during its setup; idempotent, never
    /// reset afterwards.
    pub fn attach_sink(&mut self)
        ensures
            final(self).writer_is_set,
            final(self).telemetry_collector@ == old(self).telemetry_collector@,
    {
        self.writer_is_set = true;
    }

    /// Buffers one event; a silent no-op while no sink is configured.
    pub fn write_telemetry_event(&mut self, event: TelemetryEvent)
        ensures
            final(self).writer_is_set == old(self).writer_is_set,
            !old(self).writer_is_set ==> final(self).telemetry_collector@ == old(
                self,
            ).telemetry_collector@,
            old(self).writer_is_set ==> final(self).telemetry_collector@ == Some(
                buffered(old(self).telemetry_collector@).push(event@),
            ),
    {
        if !self.writer_is_set {
            return;
        }
        self.telemetry_collector.write(event);
    }

    /// Buffers a batch in order; a silent no-op while no sink is
    /// configured.
    pub fn write_telemetry_events(&mut self, events: Vec<TelemetryEvent>)
        ensures
            final(self).writer_is_set == old(self).writer_is_set,
            !old(self).writer_is_set ==> final(self).telemetry_collector@ == old(
                self,
            ).telemetry_collector@,
            old(self).writer_is_set ==> final(self).telemetry_collector@ == Some(
                buffered(old(self).telemetry_collector@) + events_view(events@),
            ),
    {
        if !self.writer_is_set {
            return;
        }
        self.telemetry_collector.write_events(events);
    }

    /// Fans one outcome out to one event per id of `ctx`, all carrying the
    /// given timing, label, outcome and tags. A no-op while no sink is
    /// configured, and for a context without ids.
    pub fn write_outcome(
        &mut self,
        ctx: &MyTelemetryContext,
        started: i64,
        finished: i64,
        data: String,
        outcome_text: String,
        is_success: bool,
        tags: Option<Vec<TelemetryEventTag>>,
    )
        ensures
            final(self).writer_is_set == old(self).writer_is_set,
            !old(self).writer_is_set || ctx@.ids().len() == 0 ==> final(self).telemetry_collector@
                == old(self).telemetry_collector@,
            old(self).writer_is_set && ctx@.ids().len() > 0 ==> final(self).telemetry_collector@
                == Some(
                buffered(old(self).telemetry_collector@) + fan_out_events(
                    ctx@.ids(),
                    started,
                    finished,
                    data@,
                    if is_success {
                        Some(outcome_text@)
                    } else {
                        None
                    },
                    if is_success {
                        None
                    } else {
                        Some(outcome_text@)
                    },
                    opt_tags_view(tags),
                ),
            ),
    {
        if !self.writer_is_set {
            return;
        }
        let (success, fail): (Option<String>, Option<String>) = if is_success {
            (Option::Some(outcome_text), Option::None)
        } else {
            (Option::None, Option::Some(outcome_text))
        };
        let events = build_events(ctx, started, finished, &data, &success, &fail, &tags);
        proof {
            assert(events_view(events@).len() == events@.len());
            assert(events@.len() == ctx@.ids().len());
        }
        if events.len() > 0 {
            self.telemetry_collector.write_events(events);
        }
    }

    /// Records a successful outcome for every id of `ctx`; the finish time
    /// is read from the clock. A no-op while no sink is configured.
    pub fn write_success(
        &mut self,
        ctx: &MyTelemetryContext,
        started: i64,
        data: String,
        success: String,
        tags: Option<Vec<TelemetryEventTag>>,
    )
        ensures
            final(self).writer_is_set == old(self).writer_is_set,
            !old(self).writer_is_set || ctx@.ids().len() == 0 ==> final(self).telemetry_collector@
                == old(self).telemetry_collector@,
            old(self).writer_is_set && ctx@.ids().len() > 0 ==> exists|finished: i64|
                final(self).telemetry_collector@ == Some(
                    buffered(old(self).telemetry_collector@) + fan_out_events(
                        ctx@.ids(),
                        started,
                        finished,
                        data@,
                        Some(success@),
                        None,
                        opt_tags_view(tags),
                    ),
                ),
    {
        let finished = now_unix_microseconds();
        self.write_outcome(ctx, started, finished, data, success, true, tags);
    }

    /// Records a failed outcome for every id of `ctx`; the finish time is
    /// read from the clock. A no-op while no sink is configured.
    pub fn write_fail(
        &mut self,
        ctx: &MyTelemetryContext,
        started: i64,
        data: String,
        fail: String,
        tags: Option<Vec<TelemetryEventTag>>,
    )
        ensures
            final(self).writer_is_set == old(self).writer_is_set,
            !old(self).writer_is_set || ctx@.ids().len() == 0 ==> final(self).telemetry_collector@
                == old(self).telemetry_collector@,
            old(self).writer_is_set && ctx@.ids().len() > 0 ==> exists|finished: i64|
                final(self).telemetry_collector@ == Some(
                    buffered(old(self).telemetry_collector@) + fan_out_events(
                        ctx@.ids(),
                        started,
                        finished,
                        data@,
                        None,
                        Some(fail@),
                        opt_tags_view(tags),
                    ),
                ),
    {
        let finished = now_unix_microseconds();
        self.write_outcome(ctx, started, finished, data, fail, false, tags);
    }
}

/// Collects ids from several contexts and compiles them into one.
pub struct MyTelemetryCompiler {
    items: Vec<i64>,
}

impl View for MyTelemetryCompiler {
    type V = Seq<i64>;

    closed spec fn view(&self) -> Seq<i64> {
        self.items@
    }
}

impl MyTelemetryCompiler {
    pub fn new() -> (r: Self)
        ensures
            r@ == Seq::<i64>::empty(),
    {
        MyTelemetryCompiler { items: Vec::new() }
    }

    /// Collects every id of `item`, in order.
    pub fn add(&mut self, item: &MyTelemetryContext)
        ensures
            final(self)@ == old(self)@ + item@.ids(),
    {
        crate::ctx::append_ctx_ids(&mut self.items, item);
    }

    /// One collected id compiles to `Single`, several to `Multiple`.
    /// Compiling with no collected id is a programming error and is ruled
    /// out by contract.
    pub fn compile(self) -> (r: MyTelemetryContext)
        requires
            self@.len() >= 1,
        ensures
            self@.len() == 1 ==> r@ == CtxView::Single(self@[0]),
            self@.len() > 1 ==> r@ == CtxView::Multiple(self@),
    {
        if self.items.len() == 0 {
            // excluded by contract; still fails loudly rather than
            // returning an empty context
            return vstd::pervasive::unreached();
        }
        if self.items.len() == 1 {
            return MyTelemetryContext::Single(self.items[0]);
        }
        MyTelemetryContext::Multiple(self.items)
    }
}

} // verus!
