//! The laws the control surface obeys, stated over the operation
//! contracts of [`crate::registry`] and proved once and for all.
//!
//! Each law quantifies over registry states related by the operations'
//! postcondition predicates, so it covers every run of the executable
//! operations, whatever the embedding layer observes natively.

use vstd::prelude::*;

use crate::event::{spec_translate, Event, Notification};
use crate::helpers::{WebViewStatus, WryError};
use crate::registry::{
    close_seen, create_post, created_contrib, dest_of, drain_post, enqueue_post, event_contrib,
    no_undefined, pass_events, pump_post, PumpOutcome, Registry,
};

verus! {

/// How often event `e` occurs in `s`.
pub open spec fn count_event(s: Seq<Event>, e: Event) -> nat
    decreases s.len(),
{
    if s.len() == 0 {
        0
    } else {
        count_event(s.drop_last(), e) + (if s.last() == e {
            1nat
        } else {
            0nat
        })
    }
}

/// How many close requests for window `w` the pass `ns` holds.
pub open spec fn count_close_requests(ns: Seq<Notification>, w: u64) -> nat
    decreases ns.len(),
{
    if ns.len() == 0 {
        0
    } else {
        count_close_requests(ns.drop_last(), w) + (if ns.last() == Notification::CloseRequested(
            w,
        ) {
            1nat
        } else {
            0nat
        })
    }
}

/// Occurrence counting distributes over concatenation.
pub proof fn lemma_count_event_add(a: Seq<Event>, b: Seq<Event>, e: Event)
    ensures
        count_event(a + b, e) == count_event(a, e) + count_event(b, e),
    decreases b.len(),
{
    if b.len() == 0 {
        assert(a + b =~= a);
    } else {
        lemma_count_event_add(a, b.drop_last(), e);
        assert((a + b).drop_last() =~= a + b.drop_last());
        assert((a + b).last() == b.last());
    }
}

/// Occurrence count of a one-element sequence.
pub proof fn lemma_count_event_singleton(x: Event, e: Event)
    ensures
        count_event(seq![x], e) == (if x == e {
            1nat
        } else {
            0nat
        }),
{
    assert(seq![x].drop_last() =~= Seq::<Event>::empty());
    assert(count_event(Seq::<Event>::empty(), e) == 0);
}

/// What a pass appends to window `w` holds one `Close` per close request
/// for `w` in the pass — close requests are attributed to the window they
/// target, whoever's behalf the pass runs on.
pub proof fn lemma_close_count(ns: Seq<Notification>, requested: u64, w: u64)
    ensures
        count_event(pass_events(ns, requested, w), Event::Close) == count_close_requests(ns, w),
    decreases ns.len(),
{
    if ns.len() == 0 {
    } else {
        lemma_close_count(ns.drop_last(), requested, w);
        lemma_count_event_add(
            pass_events(ns.drop_last(), requested, w),
            event_contrib(ns.last(), requested, w),
            Event::Close,
        );
        if spec_translate(ns.last()) != Event::Undefined && dest_of(ns.last(), requested) == w {
            lemma_count_event_singleton(spec_translate(ns.last()), Event::Close);
        } else {
            assert(count_event(Seq::<Event>::empty(), Event::Close) == 0);
        }
    }
}

/// A pass never fabricates `WindowCreated`: the translation's range
/// excludes it, so only the status tracker ever appends one.
pub proof fn lemma_pass_no_window_created(ns: Seq<Notification>, requested: u64, w: u64)
    ensures
        count_event(pass_events(ns, requested, w), Event::WindowCreated) == 0,
    decreases ns.len(),
{
    if ns.len() == 0 {
    } else {
        lemma_pass_no_window_created(ns.drop_last(), requested, w);
        lemma_count_event_add(
            pass_events(ns.drop_last(), requested, w),
            event_contrib(ns.last(), requested, w),
            Event::WindowCreated,
        );
        if spec_translate(ns.last()) != Event::Undefined && dest_of(ns.last(), requested) == w {
            lemma_count_event_singleton(spec_translate(ns.last()), Event::WindowCreated);
        } else {
            assert(count_event(Seq::<Event>::empty(), Event::WindowCreated) == 0);
        }
    }
}

/// A close request for `w` was seen exactly when the pass holds at least
/// one.
pub proof fn lemma_close_seen_count(ns: Seq<Notification>, w: u64)
    ensures
        close_seen(ns, w) <==> count_close_requests(ns, w) > 0,
    decreases ns.len(),
{
    if ns.len() == 0 {
    } else {
        lemma_close_seen_count(ns.drop_last(), w);
    }
}

/// Identifiers issued by consecutive `wry_new` calls are consecutive
/// integers: each is the window count at the time of the call, so over
/// any sequence of creations the identifiers are strictly increasing with
/// no gap and no repeat.
pub proof fn lemma_create_ids_consecutive(
    s0: Registry,
    id1: u64,
    s1: Registry,
    id2: u64,
    s2: Registry,
)
    requires
        create_post(s0, s1, id1),
        create_post(s1, s2, id2),
    ensures
        id2 == id1 + 1,
{
}

/// Over any chain of `wry_new` calls starting from a registry with no
/// windows, the k-th call returns exactly k: the identifiers form the
/// consecutive integers from zero, with no gap and no repeat, and are
/// never reused.
pub proof fn lemma_create_ids_from_start(states: Seq<Registry>, ids: Seq<u64>, i: int)
    requires
        states.len() == ids.len() + 1,
        states[0].window_count() == 0,
        forall|k: int|
            0 <= k < ids.len() ==> create_post(states[k], #[trigger] states[k + 1], ids[k]),
        0 <= i < ids.len(),
    ensures
        ids[i] == i,
    decreases i,
{
    assert(create_post(states[i], states[i + 1], ids[i]));
    if i > 0 {
        lemma_create_ids_from_start(states, ids, i - 1);
        let k = i - 1;
        assert(create_post(states[k], states[k + 1], ids[k]));
        assert(states[k + 1] == states[i]);
    }
}

/// Immediately after a successful `wry_new`, draining the new window
/// succeeds and returns the empty sequence: no event precedes the first
/// pump pass.
pub proof fn lemma_drain_after_create_empty(
    s0: Registry,
    s1: Registry,
    id: u64,
    s2: Registry,
    r: Result<Vec<Event>, WryError>,
)
    requires
        create_post(s0, s1, id),
        drain_post(s1, s2, id, r),
    ensures
        r matches Ok(evs) && evs@ == Seq::<Event>::empty(),
{
}

/// The first pump pass after `wry_new` leaves exactly one `WindowCreated`
/// in the window's queue, as its first element; a second pass adds no
/// other, however many notifications either pass observed.
pub proof fn lemma_window_created_exactly_once(
    s0: Registry,
    s1: Registry,
    id: u64,
    s2: Registry,
    ns1: Seq<Notification>,
    out1: PumpOutcome,
    s3: Registry,
    ns2: Seq<Notification>,
    out2: PumpOutcome,
)
    requires
        create_post(s0, s1, id),
        pump_post(s1, s2, id, ns1, Ok(out1)),
        pump_post(s2, s3, id, ns2, Ok(out2)),
    ensures
        s2.queue_of(id).len() >= 1,
        s2.queue_of(id)[0] == Event::WindowCreated,
        count_event(s2.queue_of(id), Event::WindowCreated) == 1,
        s3.queue_of(id)[0] == Event::WindowCreated,
        count_event(s3.queue_of(id), Event::WindowCreated) == 1,
{
    let created1 = created_contrib(s1, id, id);
    let pass1 = pass_events(ns1, id, id);
    assert(s2.queue_of(id) == s1.queue_of(id) + created1 + pass1);
    assert(created1 == seq![Event::WindowCreated]);
    assert(s1.queue_of(id) + created1 =~= seq![Event::WindowCreated]);
    lemma_count_event_add(s1.queue_of(id) + created1, pass1, Event::WindowCreated);
    lemma_count_event_singleton(Event::WindowCreated, Event::WindowCreated);
    lemma_pass_no_window_created(ns1, id, id);
    assert(s2.queue_of(id)[0] == (s1.queue_of(id) + created1)[0]);

    let created2 = created_contrib(s2, id, id);
    let pass2 = pass_events(ns2, id, id);
    assert(s3.queue_of(id) == s2.queue_of(id) + created2 + pass2);
    assert(created2 =~= Seq::<Event>::empty());
    assert(s2.queue_of(id) + created2 =~= s2.queue_of(id));
    lemma_count_event_add(s2.queue_of(id), pass2, Event::WindowCreated);
    lemma_pass_no_window_created(ns2, id, id);
    assert(s3.queue_of(id)[0] == s2.queue_of(id)[0]);
}

/// Once a window's surface is realized, no later pump pass appends
/// another `WindowCreated` to its queue, whatever the pass observed and
/// whatever ran in between: the status never leaves `WindowCreated` and
/// the pass itself cannot fabricate the event.
pub proof fn lemma_no_window_created_after_first(
    s1: Registry,
    s2: Registry,
    id: u64,
    ns: Seq<Notification>,
    out: PumpOutcome,
)
    requires
        pump_post(s1, s2, id, ns, Ok(out)),
        s1.status_of(id) == WebViewStatus::WindowCreated,
    ensures
        count_event(s2.queue_of(id), Event::WindowCreated) == count_event(
            s1.queue_of(id),
            Event::WindowCreated,
        ),
        s2.status_of(id) == WebViewStatus::WindowCreated,
{
    let created = created_contrib(s1, id, id);
    assert(created =~= Seq::<Event>::empty());
    assert(s1.queue_of(id) + created =~= s1.queue_of(id));
    assert(s2.queue_of(id) == s1.queue_of(id) + created + pass_events(ns, id, id));
    lemma_count_event_add(s1.queue_of(id), pass_events(ns, id, id), Event::WindowCreated);
    lemma_pass_no_window_created(ns, id, id);
}

/// Draining empties the queue: a second drain with no operation in
/// between succeeds and returns the empty sequence.
pub proof fn lemma_double_drain_empty(
    s0: Registry,
    s1: Registry,
    id: u64,
    r1: Result<Vec<Event>, WryError>,
    s2: Registry,
    r2: Result<Vec<Event>, WryError>,
)
    requires
        s0.registered(id),
        drain_post(s0, s1, id, r1),
        drain_post(s1, s2, id, r2),
    ensures
        r2 matches Ok(evs) && evs@ == Seq::<Event>::empty(),
{
}

/// `Undefined` never appears in a drained sequence: well-formed
/// registries keep the sentinel out of every queue, and every operation
/// preserves well-formedness.
pub proof fn lemma_drain_never_undefined(s0: Registry, s1: Registry, id: u64, evs: Vec<Event>)
    requires
        s0.wf(),
        drain_post(s0, s1, id, Ok(evs)),
    ensures
        forall|i: int| 0 <= i < evs@.len() ==> evs@[i] != Event::Undefined,
{
    assert(s0.registered(id));
    assert(no_undefined(s0.queue_of(id)));
}

/// A close request for window `a` makes the pass on `a`'s behalf report
/// `should_stop` and appends exactly one `Close` to `a`'s queue; an
/// unrelated window `b` observed in the same pass gains no `Close`, and a
/// pass on `b`'s behalf over the same snapshot would not stop.
pub proof fn lemma_close_attributed(
    s1: Registry,
    s2: Registry,
    a: u64,
    b: u64,
    ns: Seq<Notification>,
    out: PumpOutcome,
)
    requires
        pump_post(s1, s2, a, ns, Ok(out)),
        s1.registered(b),
        a != b,
        count_close_requests(ns, a) == 1,
        count_close_requests(ns, b) == 0,
    ensures
        out.should_stop,
        count_event(s2.queue_of(a), Event::Close) == count_event(s1.queue_of(a), Event::Close)
            + 1,
        count_event(s2.queue_of(b), Event::Close) == count_event(s1.queue_of(b), Event::Close),
        !close_seen(ns, b),
{
    lemma_close_seen_count(ns, a);
    lemma_close_seen_count(ns, b);

    let created_a = created_contrib(s1, a, a);
    assert(s2.queue_of(a) == s1.queue_of(a) + created_a + pass_events(ns, a, a));
    lemma_count_event_add(s1.queue_of(a) + created_a, pass_events(ns, a, a), Event::Close);
    lemma_count_event_add(s1.queue_of(a), created_a, Event::Close);
    if s1.status_of(a) == WebViewStatus::Initialized {
        lemma_count_event_singleton(Event::WindowCreated, Event::Close);
    } else {
        assert(count_event(Seq::<Event>::empty(), Event::Close) == 0);
    }
    lemma_close_count(ns, a, a);

    let created_b = created_contrib(s1, a, b);
    assert(created_b =~= Seq::<Event>::empty());
    assert(s2.queue_of(b) == s1.queue_of(b) + created_b + pass_events(ns, a, b));
    assert(s1.queue_of(b) + created_b =~= s1.queue_of(b));
    lemma_count_event_add(s1.queue_of(b), pass_events(ns, a, b), Event::Close);
    lemma_close_count(ns, a, b);
}

/// Operations on an identifier never issued by `wry_new` reject it —
/// `NotFound` from pump and drain, `InternalConsistency` from the
/// enqueue path — and leave every window's state untouched.
pub proof fn lemma_unknown_id_rejected(
    pre: Registry,
    post: Registry,
    id: u64,
    ns: Seq<Notification>,
    rp: Result<PumpOutcome, WryError>,
    rd: Result<Vec<Event>, WryError>,
    e: Event,
    re: Result<(), WryError>,
)
    requires
        !pre.registered(id),
    ensures
        pump_post(pre, post, id, ns, rp) ==> rp == Err::<PumpOutcome, WryError>(
            WryError::NotFound,
        ) && post == pre,
        drain_post(pre, post, id, rd) ==> rd == Err::<Vec<Event>, WryError>(WryError::NotFound)
            && post == pre,
        enqueue_post(pre, post, id, e, re) ==> re == Err::<(), WryError>(
            WryError::InternalConsistency,
        ) && post == pre,
{
}

} // verus!
