//! Correlation contexts.
//!
//! A context names the logical processes an operation belongs to: none yet,
//! one id, or several merged ids. Contexts are created at the start of an
//! operation, merged when work fans in, and carried across process
//! boundaries as comma-joined decimal text.

use vstd::prelude::*;
use vstd::string::{StrSliceExecFns, StringExecFns};

use crate::clock::now_unix_microseconds;
use crate::decimal::{
    int_str, parse_i64, append_i64, i64_to_string, parse_i64_range, lemma_int_str_wf,
    lemma_parse_int_str,
};

verus! {

/// One or more logical process ids, or none yet.
#[derive(Debug, PartialEq)]
pub enum MyTelemetryContext {
    Empty,
    Single(i64),
    Multiple(Vec<i64>),
}

/// Mathematical shape of a context: the same three variants with the id
/// list as a sequence.
pub enum CtxView {
    Empty,
    Single(i64),
    Multiple(Seq<i64>),
}

impl CtxView {
    /// The ids a context holds, in order.
    pub open spec fn ids(self) -> Seq<i64> {
        match self {
            CtxView::Empty => Seq::empty(),
            CtxView::Single(v) => seq![v],
            CtxView::Multiple(ids) => ids,
        }
    }
}

impl View for MyTelemetryContext {
    type V = CtxView;

    open spec fn view(&self) -> CtxView {
        match self {
            MyTelemetryContext::Empty => CtxView::Empty,
            MyTelemetryContext::Single(v) => CtxView::Single(*v),
            MyTelemetryContext::Multiple(ids) => CtxView::Multiple(ids@),
        }
    }
}

/// Merging keeps every id of both sides in order. An empty side leaves the
/// other unchanged; any other combination escalates to `Multiple`.
pub open spec fn merge_ctx(a: CtxView, b: CtxView) -> CtxView {
    match b {
        CtxView::Empty => a,
        _ => match a {
            CtxView::Empty => b,
            _ => CtxView::Multiple(a.ids() + b.ids()),
        },
    }
}

/// Left-to-right fold of `merge_ctx` over a sequence of contexts.
pub open spec fn compile_ctxs(s: Seq<CtxView>) -> CtxView
    decreases s.len(),
{
    if s.len() == 0 {
        CtxView::Empty
    } else if s.len() == 1 {
        s[0]
    } else {
        merge_ctx(compile_ctxs(s.drop_last()), s.last())
    }
}

/// Merging with an empty context on either side changes nothing.
pub proof fn lemma_merge_empty(x: CtxView)
    ensures
        merge_ctx(CtxView::Empty, x) == x,
        merge_ctx(x, CtxView::Empty) == x,
{
}

/// Merging two single contexts yields both ids, order preserved.
pub proof fn lemma_merge_singles(a: i64, b: i64)
    ensures
        merge_ctx(CtxView::Single(a), CtxView::Single(b)) == CtxView::Multiple(seq![a, b]),
{
    assert(seq![a] + seq![b] =~= seq![a, b]);
}

/// Merging never loses an id: the result carries the ids of both sides.
pub proof fn lemma_merge_keeps_ids(a: CtxView, b: CtxView)
    ensures
        merge_ctx(a, b).ids() =~= a.ids() + b.ids(),
{
}

/// Comma-joined decimal text of a list of ids.
pub open spec fn join_ids(ids: Seq<i64>) -> Seq<char>
    decreases ids.len(),
{
    if ids.len() == 0 {
        Seq::empty()
    } else if ids.len() == 1 {
        int_str(ids[0] as int)
    } else {
        int_str(ids[0] as int) + seq![','] + join_ids(ids.skip(1))
    }
}

/// Serialized form of a context that holds at least one id.
pub open spec fn ctx_string(c: CtxView) -> Seq<char> {
    join_ids(c.ids())
}

/// Extending a non-empty id list appends a comma and the new id's text.
pub proof fn lemma_join_push(ids: Seq<i64>, x: i64)
    requires
        ids.len() >= 1,
    ensures
        join_ids(ids.push(x)) == join_ids(ids) + seq![','] + int_str(x as int),
    decreases ids.len(),
{
    if ids.len() == 1 {
        assert(ids.push(x).skip(1) =~= seq![x]);
        assert(join_ids(seq![x]) == int_str(x as int));
        assert(ids.push(x)[0] == ids[0]);
        assert(join_ids(ids.push(x)) == int_str(ids[0] as int) + seq![','] + int_str(x as int));
        assert(join_ids(ids) == int_str(ids[0] as int));
        assert(join_ids(ids.push(x)) =~= join_ids(ids) + seq![','] + int_str(x as int));
    } else {
        lemma_join_push(ids.skip(1), x);
        assert(ids.push(x).skip(1) =~= ids.skip(1).push(x));
        assert(ids.push(x).len() >= 2);
        assert(ids.push(x)[0] == ids[0]);
        assert(join_ids(ids.push(x)) == int_str(ids[0] as int) + seq![','] + join_ids(
            ids.skip(1).push(x),
        ));
        assert(join_ids(ids.skip(1).push(x)) == join_ids(ids.skip(1)) + seq![','] + int_str(
            x as int,
        ));
        assert(join_ids(ids) == int_str(ids[0] as int) + seq![','] + join_ids(ids.skip(1)));
        assert(join_ids(ids.push(x)) =~= join_ids(ids) + seq![','] + int_str(x as int));
    }
}

/// Index of the first comma of `s`, or its length if there is none.
pub open spec fn first_comma(s: Seq<char>) -> int
    decreases s.len(),
{
    if s.len() == 0 {
        0
    } else if s[0] == ',' {
        0
    } else {
        1 + first_comma(s.skip(1))
    }
}

pub proof fn lemma_first_comma(s: Seq<char>)
    ensures
        0 <= first_comma(s) <= s.len(),
        forall|j: int| 0 <= j < first_comma(s) ==> s[j] != ',',
        first_comma(s) < s.len() ==> s[first_comma(s)] == ',',
    decreases s.len(),
{
    if s.len() > 0 && s[0] != ',' {
        lemma_first_comma(s.skip(1));
        assert forall|j: int| 0 <= j < first_comma(s) implies s[j] != ',' by {
            if j > 0 {
                assert(s.skip(1)[j - 1] == s[j]);
            }
        }
    }
}

/// A scan that saw no comma before `m`, and a comma or the end at `m`,
/// found the first comma.
pub proof fn lemma_first_comma_at(s: Seq<char>, m: int)
    requires
        0 <= m <= s.len(),
        forall|j: int| 0 <= j < m ==> s[j] != ',',
        m < s.len() ==> s[m] == ',',
    ensures
        first_comma(s) == m,
    decreases s.len(),
{
    if s.len() > 0 && m > 0 {
        assert forall|j: int| 0 <= j < m - 1 implies s.skip(1)[j] != ',' by {
            assert(s.skip(1)[j] == s[j + 1]);
        }
        lemma_first_comma_at(s.skip(1), m - 1);
    }
}

/// The segments of `s` between its commas, in order. A string without a
/// comma is one segment; every comma separates two (possibly empty)
/// segments.
pub open spec fn split_commas(s: Seq<char>) -> Seq<Seq<char>>
    decreases s.len(),
    via split_commas_dec
{
    if first_comma(s) >= s.len() {
        seq![s]
    } else {
        seq![s.take(first_comma(s))] + split_commas(s.skip(first_comma(s) + 1))
    }
}

#[via_fn]
proof fn split_commas_dec(s: Seq<char>) {
    lemma_first_comma(s);
}

/// The context a serialized string denotes: every comma-separated segment
/// must be an in-range id; one segment makes a `Single`, several make a
/// `Multiple`.
pub open spec fn parse_ctx(s: Seq<char>) -> Option<CtxView> {
    let segs = split_commas(s);
    if forall|i: int| 0 <= i < segs.len() ==> parse_i64(#[trigger] segs[i]) is Some {
        if segs.len() == 1 {
            Some(CtxView::Single(parse_i64(segs[0])->0 as i64))
        } else {
            Some(CtxView::Multiple(Seq::new(segs.len(), |i: int| parse_i64(segs[i])->0 as i64)))
        }
    } else {
        None
    }
}

/// In a comma-free prefix followed by a comma, the scan finds that comma.
proof fn lemma_first_comma_concat(a: Seq<char>, rest: Seq<char>)
    requires
        forall|i: int| 0 <= i < a.len() ==> a[i] != ',',
    ensures
        first_comma(a + seq![','] + rest) == a.len(),
{
    let s = a + seq![','] + rest;
    assert forall|j: int| 0 <= j < a.len() implies s[j] != ',' by {
        assert(s[j] == a[j]);
    }
    assert(s[a.len() as int] == ',');
    lemma_first_comma_at(s, a.len() as int);
}

/// Splitting the joined text of a non-empty id list recovers each id's
/// own decimal text.
pub proof fn lemma_split_join(ids: Seq<i64>)
    requires
        ids.len() >= 1,
    ensures
        split_commas(join_ids(ids)).len() == ids.len(),
        forall|i: int| 0 <= i < ids.len() ==> #[trigger] split_commas(join_ids(ids))[i]
            == int_str(ids[i] as int),
    decreases ids.len(),
{
    lemma_int_str_wf(ids[0] as int);
    if ids.len() == 1 {
        lemma_first_comma_at(join_ids(ids), join_ids(ids).len() as int);
        assert(split_commas(join_ids(ids)) =~= seq![int_str(ids[0] as int)]);
    } else {
        let head = int_str(ids[0] as int);
        let s = join_ids(ids);
        assert(s == head + seq![','] + join_ids(ids.skip(1)));
        lemma_first_comma_concat(head, join_ids(ids.skip(1)));
        assert(first_comma(s) == head.len());
        assert(s.take(head.len() as int) =~= head);
        assert(s.skip(head.len() as int + 1) =~= join_ids(ids.skip(1)));
        lemma_split_join(ids.skip(1));
        assert(split_commas(s) == seq![head] + split_commas(join_ids(ids.skip(1))));
        assert forall|i: int| 0 <= i < ids.len() implies #[trigger] split_commas(join_ids(ids))[i]
            == int_str(ids[i] as int) by {
            if i > 0 {
                assert(split_commas(s)[i] == split_commas(join_ids(ids.skip(1)))[i - 1]);
                assert(ids.skip(1)[i - 1] == ids[i]);
            }
        }
    }
}

/// Parsing the serialized text of a context gives the context back: the
/// round trip is exact for every `Single` and for every `Multiple` of two
/// or more ids.
pub proof fn lemma_parse_serialize_round_trip(c: CtxView)
    requires
        c matches CtxView::Single(_) || (c matches CtxView::Multiple(ids) && ids.len() >= 2),
    ensures
        parse_ctx(ctx_string(c)) == Some(c),
{
    let ids = c.ids();
    let s = ctx_string(c);
    lemma_split_join(ids);
    let segs = split_commas(s);
    assert forall|i: int| 0 <= i < segs.len() implies parse_i64(#[trigger] segs[i]) is Some by {
        lemma_parse_int_str(ids[i] as int);
    }
    match c {
        CtxView::Single(v) => {
            lemma_parse_int_str(v as int);
            assert(segs[0] == int_str(v as int));
        }
        CtxView::Multiple(m) => {
            assert forall|i: int| 0 <= i < segs.len() implies parse_i64(segs[i])->0 as i64
                == m[i] by {
                lemma_parse_int_str(ids[i] as int);
            }
            assert(Seq::new(segs.len(), |i: int| parse_i64(segs[i])->0 as i64) =~= m);
        }
        CtxView::Empty => {}
    }
}

/// Appends every id of `ctx` to `dst`.
#[verifier::loop_isolation(false)]
pub(crate) fn append_ctx_ids(dst: &mut Vec<i64>, ctx: &MyTelemetryContext)
    ensures
        final(dst)@ == old(dst)@ + ctx@.ids(),
{
    match ctx {
        MyTelemetryContext::Empty => {
            proof {
                assert(dst@ =~= old(dst)@ + ctx@.ids());
            }
        }
        MyTelemetryContext::Single(v) => {
            dst.push(*v);
            proof {
                assert(dst@ =~= old(dst)@ + ctx@.ids());
            }
        }
        MyTelemetryContext::Multiple(ids) => {
            let mut k: usize = 0;
            while k < ids.len()
                invariant
                    k <= ids.len(),
                    dst@ == old(dst)@ + ids@.take(k as int),
                decreases ids.len() - k,
            {
                dst.push(ids[k]);
                proof {
                    assert(dst@ =~= old(dst)@ + ids@.take(k as int + 1));
                }
                k += 1;
            }
            proof {
                assert(ids@.take(ids@.len() as int) =~= ids@);
            }
        }
    }
}

impl Clone for MyTelemetryContext {
    /// A clone carries the same variant and the same ids.
    fn clone(&self) -> (r: Self)
        ensures
            r@ == self@,
    {
        match self {
            MyTelemetryContext::Empty => MyTelemetryContext::Empty,
            MyTelemetryContext::Single(v) => MyTelemetryContext::Single(*v),
            MyTelemetryContext::Multiple(ids) => {
                let mut copy: Vec<i64> = Vec::new();
                append_ctx_ids(&mut copy, self);
                proof {
                    assert(copy@ =~= ids@);
                }
                MyTelemetryContext::Multiple(copy)
            }
        }
    }
}

impl MyTelemetryContext {
    /// A context with no identity established yet.
    pub fn create_empty() -> (r: Self)
        ensures
            r@ == CtxView::Empty,
    {
        Self::Empty
    }

    /// A fresh single-id context; the id is the current time in microseconds.
    pub fn new() -> (r: Self)
        ensures
            r@ is Single,
    {
        Self::Single(now_unix_microseconds())
    }

    /// Rehydrates a context received from an upstream caller.
    pub fn restore(process_id: i64) -> (r: Self)
        ensures
            r@ == CtxView::Single(process_id),
    {
        Self::Single(process_id)
    }

    /// Folds every id of `other` into this context, in order.
    pub fn merge_process(&mut self, other: &MyTelemetryContext)
        ensures
            final(self)@ == merge_ctx(old(self)@, other@),
    {
        if matches!(other, MyTelemetryContext::Empty) {
            return;
        }
        if matches!(self, MyTelemetryContext::Empty) {
            *self = other.clone();
            return;
        }
        let mut new_ids: Vec<i64> = Vec::new();
        append_ctx_ids(&mut new_ids, self);
        append_ctx_ids(&mut new_ids, other);
        proof {
            assert(new_ids@ =~= old(self)@.ids() + other@.ids());
        }
        *self = MyTelemetryContext::Multiple(new_ids);
    }

    /// The serialized text of this context: its ids as comma-joined
    /// decimals. An empty context serializes as a fresh id taken from the
    /// clock, so the text always names at least one process.
    #[verifier::loop_isolation(false)]
    pub fn as_string(&self) -> (r: String)
        ensures
            !(self@ is Empty) ==> r@ == ctx_string(self@),
            self@ is Empty ==> exists|v: i64| r@ == int_str(v as int),
    {
        match self {
            MyTelemetryContext::Empty => {
                let v = now_unix_microseconds();
                let r = i64_to_string(v);
                proof {
                    assert(r@ == int_str(v as int));
                }
                r
            }
            MyTelemetryContext::Single(v) => i64_to_string(*v),
            MyTelemetryContext::Multiple(ids) => {
                let mut out = String::new();
                let mut i: usize = 0;
                proof {
                    assert(out@ =~= join_ids(ids@.take(0)));
                }
                while i < ids.len()
                    invariant
                        i <= ids@.len(),
                        out@ == join_ids(ids@.take(i as int)),
                    decreases ids@.len() - i,
                {
                    if i > 0 {
                        proof {
                            reveal_strlit(",");
                        }
                        out.append(",");
                    }
                    append_i64(ids[i], &mut out);
                    proof {
                        let pre = ids@.take(i as int);
                        assert(ids@.take(i as int + 1) =~= pre.push(ids@[i as int]));
                        if i > 0 {
                            lemma_join_push(pre, ids@[i as int]);
                            assert(out@ =~= join_ids(pre) + seq![','] + int_str(
                                ids@[i as int] as int,
                            ));
                        } else {
                            assert(out@ =~= int_str(ids@[0] as int));
                            assert(join_ids(seq![ids@[0]]) == int_str(ids@[0] as int));
                        }
                    }
                    i += 1;
                }
                proof {
                    assert(ids@.take(ids@.len() as int) =~= ids@);
                }
                out
            }
        }
    }

    /// The ids this context holds, in order, as an owned list.
    pub fn get_ids(&self) -> (r: Vec<i64>)
        ensures
            r@ == self@.ids(),
    {
        let mut ids: Vec<i64> = Vec::new();
        append_ctx_ids(&mut ids, self);
        proof {
            assert(ids@ =~= self@.ids());
        }
        ids
    }

    /// Parses serialized context text: a bare decimal id gives `Single`,
    /// a comma-joined list gives `Multiple`, and any segment that is not an
    /// in-range id fails the whole parse with a message naming it.
    #[verifier::loop_isolation(false)]
    pub fn parse_from_string(src: &str) -> (r: Result<Self, String>)
        ensures
            match r {
                Ok(ctx) => parse_ctx(src@) == Some(ctx@),
                Err(_) => parse_ctx(src@) is None,
            },
    {
        let n = src.unicode_len();
        let mut ids: Vec<i64> = Vec::new();
        let ghost mut done: Seq<Seq<char>> = Seq::empty();
        let mut seg_start: usize = 0;
        proof {
            assert(src@.skip(0) =~= src@);
            assert(split_commas(src@) =~= done + split_commas(src@.skip(0)));
        }
        loop
            invariant
                seg_start <= n,
                n == src@.len(),
                split_commas(src@) == done + split_commas(src@.skip(seg_start as int)),
                ids@.len() == done.len(),
                forall|k: int| 0 <= k < done.len() ==> parse_i64(#[trigger] done[k]) == Some(
                    ids@[k] as int,
                ),
            decreases n - seg_start,
        {
            let ghost rest = src@.skip(seg_start as int);
            let mut j = seg_start;
            while j < n && src.get_char(j) != ','
                invariant
                    seg_start <= j <= n,
                    forall|k: int| seg_start <= k < j ==> src@[k] != ',',
                decreases n - j,
            {
                j += 1;
            }
            proof {
                assert forall|m: int| 0 <= m < j - seg_start implies rest[m] != ',' by {
                    assert(rest[m] == src@[seg_start + m]);
                }
                if (j as int) < n as int {
                    assert(rest[j - seg_start] == src@[j as int]);
                }
                lemma_first_comma_at(rest, j - seg_start);
            }
            let parsed = parse_i64_range(src, seg_start, j);
            let ghost seg = src@.subrange(seg_start as int, j as int);
            proof {
                assert(seg =~= rest.take(j - seg_start));
            }
            match parsed {
                Option::None => {
                    proof {
                        let segs = split_commas(src@);
                        if j == n {
                            assert(split_commas(rest) =~= seq![seg]);
                        }
                        assert(segs[done.len() as int] == seg);
                        assert(parse_i64(segs[done.len() as int]) is None);
                    }
                    let mut msg = String::new();
                    msg.append("cannot parse telemetry id: ");
                    msg.append(src.substring_char(seg_start, j));
                    return Result::Err(msg);
                }
                Option::Some(v) => {
                    ids.push(v);
                    proof {
                        done = done + seq![seg];
                    }
                }
            }
            if j == n {
                proof {
                    assert(split_commas(rest) =~= seq![seg]);
                    assert(split_commas(src@) =~= done);
                }
                if ids.len() == 1 {
                    proof {
                        assert(done[0] == split_commas(src@)[0]);
                    }
                    return Result::Ok(MyTelemetryContext::Single(ids[0]));
                }
                proof {
                    let segs = split_commas(src@);
                    assert(Seq::new(segs.len(), |i: int| parse_i64(segs[i])->0 as i64)
                        =~= ids@);
                }
                return Result::Ok(MyTelemetryContext::Multiple(ids));
            }
            proof {
                assert(rest.skip(j - seg_start + 1) =~= src@.skip(j as int + 1));
                assert(split_commas(rest) == seq![seg] + split_commas(src@.skip(j as int + 1)));
                assert(split_commas(src@) =~= done + split_commas(src@.skip(j as int + 1)));
            }
            seg_start = j + 1;
        }
    }

    /// Merges a non-empty sequence of contexts left to right.
    #[verifier::loop_isolation(false)]
    pub fn compile(items: &Vec<MyTelemetryContext>) -> (r: Self)
        requires
            items@.len() >= 1,
        ensures
            r@ == compile_ctxs(items@.map_values(|c: MyTelemetryContext| c@)),
    {
        let ghost views = items@.map_values(|c: MyTelemetryContext| c@);
        let mut result = items[0].clone();
        let mut i: usize = 1;
        proof {
            assert(views.take(1) =~= seq![views[0]]);
        }
        while i < items.len()
            invariant
                1 <= i <= items@.len(),
                result@ == compile_ctxs(views.take(i as int)),
            decreases items@.len() - i,
        {
            result.merge_process(&items[i]);
            proof {
                assert(views.take(i as int + 1).drop_last() =~= views.take(i as int));
                assert(views.take(i as int + 1).last() == views[i as int]);
            }
            i += 1;
        }
        proof {
            assert(views.take(items@.len() as int) =~= views);
        }
        result
    }
}

/// A finite cursor over the ids of a context. Restart by creating a new
/// one from the same context.
pub struct TelemetryContextIterator<'s> {
    ctx: &'s MyTelemetryContext,
    pos: usize,
}

impl<'s> TelemetryContextIterator<'s> {
    /// The ids being walked.
    pub closed spec fn ids(&self) -> Seq<i64> {
        self.ctx@.ids()
    }

    /// How many ids have been handed out.
    pub closed spec fn position(&self) -> int {
        self.pos as int
    }

    pub fn new(ctx: &'s MyTelemetryContext) -> (r: Self)
        ensures
            r.ids() == ctx@.ids(),
            r.position() == 0,
    {
        TelemetryContextIterator { ctx, pos: 0 }
    }

    /// The next id, in order, until all have been returned.
    pub fn next(&mut self) -> (r: Option<i64>)
        ensures
            final(self).ids() == old(self).ids(),
            old(self).position() < old(self).ids().len() ==> {
                &&& r == Some(old(self).ids()[old(self).position()])
                &&& final(self).position() == old(self).position() + 1
            },
            old(self).position() >= old(self).ids().len() ==> {
                &&& r is None
                &&& final(self).position() == old(self).position()
            },
    {
        let ctx = self.ctx;
        match ctx {
            MyTelemetryContext::Empty => None,
            MyTelemetryContext::Single(v) => {
                if self.pos > 0 {
                    None
                } else {
                    self.pos = self.pos + 1;
                    Some(*v)
                }
            }
            MyTelemetryContext::Multiple(ids) => {
                if self.pos < ids.len() {
                    let r = ids[self.pos];
                    self.pos = self.pos + 1;
                    Some(r)
                } else {
                    None
                }
            }
        }
    }
}

} // verus!
