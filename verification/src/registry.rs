//! The window registry and the loop bridge.
//!
//! The registry owns the host-visible state of every window: its
//! identifier, its lifecycle status and its queue of pending events.
//! Identifiers are allocated monotonically from zero and never reused.
//! The native window/webview pair for each identifier is owned by the
//! embedding layer, which performs one forced-return dispatch pass of the
//! shared native loop per pump call, hands the observed notifications to
//! [`Registry::wry_loop`], and carries out the [`Action`]s and
//! [`WindowCommand`]s this module authorizes.

use vstd::prelude::*;

use crate::event::{spec_translate, Event, Notification};
use crate::helpers::{
    spec_size_from_parts, Capabilities, LogicalSize, PhysicalSize, SizeDef, WebViewStatus,
    WryError,
};

verus! {

/// The bookkeeping held for one window: its lifecycle status and its
/// queue of pending events, created together when the window is
/// registered so that no partial registration is ever observable.
#[derive(Debug)]
pub struct WindowState {
    pub status: WebViewStatus,
    pub queue: Vec<Event>,
}

/// A native side effect one pump pass asks of the embedding layer, in the
/// order the triggering notifications were observed: resynchronize the
/// webview's rendered surface after a resize, or request a redraw once the
/// native loop has no more pending input.
#[derive(Clone, Copy, Debug, PartialEq, Eq, Structural)]
pub enum Action {
    Resize(u64),
    RequestRedraw(u64),
}

/// What one pump pass reports: whether a close request was observed for
/// the requested window, and the native actions to perform on its behalf.
#[derive(Debug, PartialEq, Eq)]
pub struct PumpOutcome {
    pub should_stop: bool,
    pub actions: Vec<Action>,
}

/// The native mutation a setter authorizes once its arguments and the
/// window identifier have been validated.
#[derive(Clone, Copy, Debug, PartialEq, Eq, Structural)]
pub enum WindowCommand {
    SetMinimized(bool),
    SetMaximized(bool),
    SetVisible(bool),
    SetInnerSize(SizeDef),
}

/// A sequence of events free of the `Undefined` sentinel.
pub open spec fn no_undefined(q: Seq<Event>) -> bool {
    forall|i: int| 0 <= i < q.len() ==> q[i] != Event::Undefined
}

/// The registry: one entry per issued identifier, the entry for
/// identifier `w` at position `w`.
pub struct Registry {
    pub windows: Vec<WindowState>,
    pub capabilities: Capabilities,
}

impl Registry {
    /// How many identifiers have been issued; also the next one.
    pub open spec fn window_count(self) -> nat {
        self.windows@.len()
    }

    /// Whether `id` was issued by `wry_new`.
    pub open spec fn registered(self, id: u64) -> bool {
        id < self.windows@.len()
    }

    /// The lifecycle status of window `id`.
    pub open spec fn status_of(self, id: u64) -> WebViewStatus {
        self.windows@[id as int].status
    }

    /// The pending events of window `id`, in observation order.
    pub open spec fn queue_of(self, id: u64) -> Seq<Event> {
        self.windows@[id as int].queue@
    }

    /// Well-formedness: no queue holds the `Undefined` sentinel.
    pub open spec fn wf(self) -> bool {
        forall|w: u64| self.registered(w) ==> no_undefined(#[trigger] self.queue_of(w))
    }
}

/// The window a per-window notification targets, if any; loop-level
/// notifications target none.
pub open spec fn target_of(n: Notification) -> Option<u64> {
    match n {
        Notification::RedrawRequested(w) => Some(w),
        Notification::CloseRequested(w) => Some(w),
        Notification::Resized(w) => Some(w),
        Notification::OtherWindowEvent(w) => Some(w),
        _ => None,
    }
}

/// The queue that receives the translated form of `n` during a pass made
/// on behalf of `requested`: a per-window notification is attributed to
/// the window it targets, never misfiled; a loop-level notification is
/// attributed to the requested window.
pub open spec fn dest_of(n: Notification, requested: u64) -> u64 {
    match target_of(n) {
        Some(w) => w,
        None => requested,
    }
}

/// Whether `n` either targets no window or targets one the registry
/// knows.  A per-window notification for an unknown window would mean an
/// event for a window outside the three parallel maps: a consistency
/// violation the bridge reports rather than swallows.
pub open spec fn target_known(n: Notification, r: Registry) -> bool {
    match target_of(n) {
        Some(w) => r.registered(w),
        None => true,
    }
}

/// Whether every notification of the pass satisfies [`target_known`].
pub open spec fn targets_registered(ns: Seq<Notification>, r: Registry) -> bool {
    forall|i: int| 0 <= i < ns.len() ==> target_known(#[trigger] ns[i], r)
}

/// The events one notification contributes to window `w`'s queue during a
/// pass on behalf of `requested`: its translation, unless the translation
/// is `Undefined` or it is attributed elsewhere.
pub open spec fn event_contrib(n: Notification, requested: u64, w: u64) -> Seq<Event> {
    if spec_translate(n) != Event::Undefined && dest_of(n, requested) == w {
        seq![spec_translate(n)]
    } else {
        Seq::empty()
    }
}

/// The events a whole pass over `ns` appends to window `w`'s queue, in
/// observation order, with no reordering or coalescing.
pub open spec fn pass_events(ns: Seq<Notification>, requested: u64, w: u64) -> Seq<Event>
    decreases ns.len(),
{
    if ns.len() == 0 {
        Seq::empty()
    } else {
        pass_events(ns.drop_last(), requested, w) + event_contrib(ns.last(), requested, w)
    }
}

/// The native actions one notification asks for on behalf of `requested`:
/// a resize of the requested window's webview surface when its native
/// surface was resized, and a redraw request when the native loop reports
/// its pending input exhausted.
pub open spec fn action_contrib(n: Notification, requested: u64) -> Seq<Action> {
    match n {
        Notification::Resized(w) => if w == requested {
            seq![Action::Resize(requested)]
        } else {
            Seq::empty()
        },
        Notification::MainEventsCleared => seq![Action::RequestRedraw(requested)],
        _ => Seq::empty(),
    }
}

/// The native actions a whole pass over `ns` asks for, in order.
pub open spec fn pass_actions(ns: Seq<Notification>, requested: u64) -> Seq<Action>
    decreases ns.len(),
{
    if ns.len() == 0 {
        Seq::empty()
    } else {
        pass_actions(ns.drop_last(), requested) + action_contrib(ns.last(), requested)
    }
}

/// Whether the pass observed a close request for window `w`'s native
/// surface.
pub open spec fn close_seen(ns: Seq<Notification>, w: u64) -> bool
    decreases ns.len(),
{
    if ns.len() == 0 {
        false
    } else {
        close_seen(ns.drop_last(), w) || ns.last() == Notification::CloseRequested(w)
    }
}

/// The synthetic event the status tracker appends when a pass on behalf
/// of `id` realizes its native surface: `WindowCreated`, exactly on the
/// first pass after registration, and only for `id` itself.
pub open spec fn created_contrib(pre: Registry, id: u64, w: u64) -> Seq<Event> {
    if w == id && pre.status_of(id) == WebViewStatus::Initialized {
        seq![Event::WindowCreated]
    } else {
        Seq::empty()
    }
}

/// Full contract of [`Registry::wry_new`]: the returned identifier is the
/// previous window count, registered atomically with status `Initialized`
/// and an empty queue; every existing window is untouched.
pub open spec fn create_post(pre: Registry, post: Registry, id: u64) -> bool {
    &&& id == pre.window_count()
    &&& post.window_count() == pre.window_count() + 1
    &&& post.registered(id)
    &&& !pre.registered(id)
    &&& post.status_of(id) == WebViewStatus::Initialized
    &&& post.queue_of(id) == Seq::<Event>::empty()
    &&& forall|w: u64| pre.registered(w) ==> post.status_of(w) == pre.status_of(w)
    &&& forall|w: u64| pre.registered(w) ==> post.queue_of(w) == pre.queue_of(w)
    &&& post.capabilities == pre.capabilities
}

/// Full contract of [`Registry::wry_step`]: for a registered window the
/// buffered events are returned in observation order and the queue is
/// left empty; an unknown identifier yields `NotFound` and no change.
pub open spec fn drain_post(
    pre: Registry,
    post: Registry,
    id: u64,
    r: Result<Vec<Event>, WryError>,
) -> bool {
    if pre.registered(id) {
        &&& r matches Ok(evs) && evs@ == pre.queue_of(id)
        &&& post.window_count() == pre.window_count()
        &&& post.queue_of(id) == Seq::<Event>::empty()
        &&& post.status_of(id) == pre.status_of(id)
        &&& forall|w: u64| pre.registered(w) && w != id ==> post.status_of(w) == pre.status_of(
            w,
        )
        &&& forall|w: u64| pre.registered(w) && w != id ==> post.queue_of(w) == pre.queue_of(w)
        &&& post.capabilities == pre.capabilities
    } else {
        &&& r == Err::<Vec<Event>, WryError>(WryError::NotFound)
        &&& post == pre
    }
}

/// Full contract of [`Registry::enqueue`]: the event is appended to its
/// window's queue; an unknown identifier is the fatal consistency
/// violation of the atomic-registration invariant, reported as
/// `InternalConsistency` with no change.
pub open spec fn enqueue_post(
    pre: Registry,
    post: Registry,
    id: u64,
    e: Event,
    r: Result<(), WryError>,
) -> bool {
    if pre.registered(id) {
        &&& r == Ok::<(), WryError>(())
        &&& post.window_count() == pre.window_count()
        &&& post.queue_of(id) == pre.queue_of(id).push(e)
        &&& post.status_of(id) == pre.status_of(id)
        &&& forall|w: u64| pre.registered(w) && w != id ==> post.status_of(w) == pre.status_of(
            w,
        )
        &&& forall|w: u64| pre.registered(w) && w != id ==> post.queue_of(w) == pre.queue_of(w)
        &&& post.capabilities == pre.capabilities
    } else {
        &&& r == Err::<(), WryError>(WryError::InternalConsistency)
        &&& post == pre
    }
}

/// Full contract of [`Registry::wry_loop`]: an unknown requested
/// identifier yields `NotFound`; a pass whose notifications name an
/// unknown window yields `InternalConsistency`; otherwise the pass
/// reports whether a close request for the requested window was observed,
/// asks for the actions the notifications call for, realizes the
/// requested window's surface (appending `WindowCreated` exactly on the
/// first pass), and appends to every window's queue exactly the translated
/// notifications attributed to it, in observation order.  In the two
/// error cases nothing changes.
pub open spec fn pump_post(
    pre: Registry,
    post: Registry,
    id: u64,
    ns: Seq<Notification>,
    r: Result<PumpOutcome, WryError>,
) -> bool {
    if !pre.registered(id) {
        &&& r == Err::<PumpOutcome, WryError>(WryError::NotFound)
        &&& post == pre
    } else if !targets_registered(ns, pre) {
        &&& r == Err::<PumpOutcome, WryError>(WryError::InternalConsistency)
        &&& post == pre
    } else {
        &&& r matches Ok(out)
        &&& out.should_stop == close_seen(ns, id)
        &&& out.actions@ == pass_actions(ns, id)
        &&& post.window_count() == pre.window_count()
        &&& post.status_of(id) == WebViewStatus::WindowCreated
        &&& forall|w: u64| pre.registered(w) && w != id ==> post.status_of(w) == pre.status_of(
            w,
        )
        &&& forall|w: u64|
            pre.registered(w) ==> post.queue_of(w) == pre.queue_of(w) + created_contrib(
                pre,
                id,
                w,
            ) + pass_events(ns, id, w)
        &&& post.capabilities == pre.capabilities
    }
}

impl Registry {
    /// A registry with no windows, for the capability set the embedding
    /// layer determined at startup.
    pub fn new(capabilities: Capabilities) -> (r: Registry)
        ensures
            r.window_count() == 0,
            r.capabilities == capabilities,
            r.wf(),
    {
        Registry { windows: Vec::new(), capabilities }
    }

    /// Which operations the native backend exposes on this platform.
    pub fn capabilities(&self) -> (r: Capabilities)
        ensures
            r == self.capabilities,
    {
        self.capabilities
    }

    /// Whether `id` was issued by `wry_new`.
    pub fn is_registered(&self, id: u64) -> (r: bool)
        ensures
            r == self.registered(id),
    {
        id < self.windows.len() as u64
    }

    /// Registers a new window: allocates the next identifier and creates
    /// its status and queue entries as one atomic unit.  The embedding
    /// layer constructs the native window/webview pair first and calls
    /// this only on success, so a native construction failure allocates
    /// no identifier.
    pub fn wry_new(&mut self) -> (id: u64)
        requires
            old(self).wf(),
        ensures
            final(self).wf(),
            create_post(*old(self), *final(self), id),
    {
        let id = self.windows.len() as u64;
        self.windows.push(WindowState { status: WebViewStatus::Initialized, queue: Vec::new() });
        id
    }

    /// Drains window `id`'s queue: returns the buffered events in
    /// observation order and leaves the queue empty.  Draining is the
    /// only read path; queues are never read non-destructively.
    pub fn wry_step(&mut self, id: u64) -> (r: Result<Vec<Event>, WryError>)
        requires
            old(self).wf(),
        ensures
            final(self).wf(),
            drain_post(*old(self), *final(self), id, r),
    {
        if id < self.windows.len() as u64 {
            let idx = id as usize;
            let mut drained: Vec<Event> = Vec::new();
            core::mem::swap(&mut self.windows[idx].queue, &mut drained);
            proof {
                assert forall|w: u64| self.registered(w) implies no_undefined(
                    self.queue_of(w),
                ) by {
                    if w == id {
                        assert(self.queue_of(w) =~= Seq::<Event>::empty());
                    } else {
                        assert(self.queue_of(w) == old(self).queue_of(w));
                        assert(no_undefined(old(self).queue_of(w)));
                    }
                }
            }
            Ok(drained)
        } else {
            Err(WryError::NotFound)
        }
    }

    /// Appends one event to window `id`'s queue.  The webview's
    /// content-load callback uses this path for `DomContentLoaded`, which
    /// may fire at any point relative to pump calls; events land in
    /// observation order, FIFO per source.  `Undefined` is filtered out
    /// before enqueue and is not accepted here.
    pub fn enqueue(&mut self, id: u64, event: Event) -> (r: Result<(), WryError>)
        requires
            old(self).wf(),
            event != Event::Undefined,
        ensures
            final(self).wf(),
            enqueue_post(*old(self), *final(self), id, event, r),
    {
        if id < self.windows.len() as u64 {
            let idx = id as usize;
            self.windows[idx].queue.push(event);
            proof {
                assert forall|w: u64| self.registered(w) implies no_undefined(
                    self.queue_of(w),
                ) by {
                    assert(no_undefined(old(self).queue_of(w)));
                    if w == id {
                        assert(self.queue_of(w) =~= old(self).queue_of(w).push(event));
                        assert forall|i: int|
                            0 <= i < self.queue_of(w).len() implies self.queue_of(w)[i]
                            != Event::Undefined by {
                            if i < old(self).queue_of(w).len() {
                                assert(old(self).queue_of(w)[i] != Event::Undefined);
                            }
                        }
                    } else {
                        assert(self.queue_of(w) == old(self).queue_of(w));
                    }
                }
            }
            Ok(())
        } else {
            Err(WryError::InternalConsistency)
        }
    }

    /// One pump pass on behalf of window `id`.  The embedding layer runs
    /// exactly one forced-return dispatch pass of the shared native loop —
    /// returning as soon as the currently pending messages are drained,
    /// never waiting for new ones — and hands over the notifications it
    /// observed, for all windows sharing the loop.  This call then makes
    /// every decision of the pass: it reports whether a close request for
    /// `id` was observed, asks for the resize and redraw actions the
    /// notifications call for, realizes `id`'s surface (appending
    /// `WindowCreated` exactly on the first pass after registration), and
    /// appends every translated, non-`Undefined` notification to the
    /// queue of the window it targets — never misfiling a notification
    /// observed for another window into `id`'s queue.
    #[verifier::loop_isolation(false)]
    #[verifier::rlimit(40)]
    pub fn wry_loop(&mut self, id: u64, notifications: &Vec<Notification>) -> (r: Result<
        PumpOutcome,
        WryError,
    >)
        requires
            old(self).wf(),
        ensures
            final(self).wf(),
            pump_post(*old(self), *final(self), id, notifications@, r),
    {
        if id >= self.windows.len() as u64 {
            return Err(WryError::NotFound);
        }
        let n = notifications.len();
        let mut j: usize = 0;
        while j < n
            invariant
                j <= n,
                forall|k: int| 0 <= k < j ==> target_known(#[trigger] notifications@[k], *self),
            decreases n - j,
        {
            let known = match notifications[j] {
                Notification::RedrawRequested(w) => w < self.windows.len() as u64,
                Notification::CloseRequested(w) => w < self.windows.len() as u64,
                Notification::Resized(w) => w < self.windows.len() as u64,
                Notification::OtherWindowEvent(w) => w < self.windows.len() as u64,
                _ => true,
            };
            if !known {
                proof {
                    assert(!target_known(notifications@[j as int], *self));
                }
                return Err(WryError::InternalConsistency);
            }
            j += 1;
        }
        proof {
            assert(targets_registered(notifications@, *old(self)));
        }
        let idx = id as usize;
        if self.windows[idx].status == WebViewStatus::Initialized {
            let entry = &mut self.windows[idx];
            entry.status = WebViewStatus::WindowCreated;
            entry.queue.push(Event::WindowCreated);
        }
        proof {
            assert(self.status_of(id) == WebViewStatus::WindowCreated);
            assert forall|w: u64| old(self).registered(w) implies self.queue_of(w) == old(
                self,
            ).queue_of(w) + created_contrib(*old(self), id, w) + pass_events(
                notifications@.take(0),
                id,
                w,
            ) by {
                assert(notifications@.take(0) =~= Seq::<Notification>::empty());
                assert(pass_events(Seq::<Notification>::empty(), id, w) == Seq::<
                    Event,
                >::empty());
                if w == id && old(self).status_of(id) == WebViewStatus::Initialized {
                    assert(self.queue_of(w) =~= old(self).queue_of(w) + seq![
                        Event::WindowCreated,
                    ] + Seq::<Event>::empty());
                } else {
                    assert(self.queue_of(w) =~= old(self).queue_of(w) + Seq::<Event>::empty()
                        + Seq::<Event>::empty());
                }
            }
            assert forall|w: u64| self.registered(w) implies no_undefined(
                self.queue_of(w),
            ) by {
                assert(no_undefined(old(self).queue_of(w)));
                assert forall|i: int|
                    0 <= i < self.queue_of(w).len() implies self.queue_of(w)[i]
                    != Event::Undefined by {
                    if i < old(self).queue_of(w).len() {
                        assert(old(self).queue_of(w)[i] != Event::Undefined);
                    } else {
                        assert(self.queue_of(w)[i] == Event::WindowCreated);
                    }
                }
            }
        }
        let mut should_stop = false;
        let mut actions: Vec<Action> = Vec::new();
        let mut j: usize = 0;
        while j < n
            invariant
                j <= n,
                self.wf(),
                self.windows@.len() == old(self).windows@.len(),
                self.capabilities == old(self).capabilities,
                self.status_of(id) == WebViewStatus::WindowCreated,
                forall|w: u64|
                    old(self).registered(w) && w != id ==> self.status_of(w) == old(
                        self,
                    ).status_of(w),
                forall|w: u64|
                    old(self).registered(w) ==> self.queue_of(w) == old(self).queue_of(w)
                        + created_contrib(*old(self), id, w) + pass_events(
                        notifications@.take(j as int),
                        id,
                        w,
                    ),
                should_stop == close_seen(notifications@.take(j as int), id),
                actions@ == pass_actions(notifications@.take(j as int), id),
            decreases n - j,
        {
            let ghost j0 = j as int;
            let ghost s0 = *self;
            let ghost a0 = actions@;
            let notif = notifications[j];
            match notif {
                Notification::CloseRequested(w) => {
                    if w == id {
                        should_stop = true;
                    }
                },
                _ => {},
            }
            match notif {
                Notification::Resized(w) => {
                    if w == id {
                        actions.push(Action::Resize(id));
                    }
                },
                Notification::MainEventsCleared => {
                    actions.push(Action::RequestRedraw(id));
                },
                _ => {},
            }
            let translated = Event::from(notif);
            let ghost pushed_to = dest_of(notif, id);
            if translated != Event::Undefined {
                let dst = match notif {
                    Notification::RedrawRequested(w) => w,
                    Notification::CloseRequested(w) => w,
                    Notification::Resized(w) => w,
                    Notification::OtherWindowEvent(w) => w,
                    _ => id,
                };
                proof {
                    assert(target_known(notifications@[j0], *old(self)));
                    assert(dst == pushed_to);
                    assert(dst < self.windows@.len());
                }
                let d = dst as usize;
                self.windows[d].queue.push(translated);
            }
            j += 1;
            proof {
                let ns = notifications@;
                assert(ns.take(j0 + 1).drop_last() =~= ns.take(j0));
                assert(ns.take(j0 + 1).last() == ns[j0]);
                assert(close_seen(ns.take(j0 + 1), id) == (close_seen(ns.take(j0), id) || ns[j0]
                    == Notification::CloseRequested(id)));
                assert(pass_actions(ns.take(j0 + 1), id) == pass_actions(ns.take(j0), id)
                    + action_contrib(ns[j0], id));
                assert(actions@ =~= a0 + action_contrib(ns[j0], id));
                assert forall|w: u64| old(self).registered(w) implies self.queue_of(w) == old(
                    self,
                ).queue_of(w) + created_contrib(*old(self), id, w) + pass_events(
                    ns.take(j0 + 1),
                    id,
                    w,
                ) by {
                    assert(pass_events(ns.take(j0 + 1), id, w) == pass_events(ns.take(j0), id, w)
                        + event_contrib(ns[j0], id, w));
                    if spec_translate(ns[j0]) != Event::Undefined && pushed_to == w {
                        assert(event_contrib(ns[j0], id, w) == seq![spec_translate(ns[j0])]);
                        assert(self.queue_of(w) =~= s0.queue_of(w) + seq![
                            spec_translate(ns[j0]),
                        ]);
                        assert(self.queue_of(w) =~= old(self).queue_of(w) + created_contrib(
                            *old(self),
                            id,
                            w,
                        ) + (pass_events(ns.take(j0), id, w) + seq![spec_translate(ns[j0])]));
                        assert(pass_events(ns.take(j0), id, w) + event_contrib(ns[j0], id, w)
                            =~= pass_events(ns.take(j0), id, w) + seq![spec_translate(ns[j0])]);
                    } else {
                        assert(self.queue_of(w) == s0.queue_of(w));
                        assert(event_contrib(ns[j0], id, w) =~= Seq::<Event>::empty());
                        assert(pass_events(ns.take(j0 + 1), id, w) =~= pass_events(
                            ns.take(j0),
                            id,
                            w,
                        ));
                    }
                }
                assert forall|w: u64| self.registered(w) implies no_undefined(
                    self.queue_of(w),
                ) by {
                    assert(no_undefined(s0.queue_of(w)));
                    assert forall|i: int|
                        0 <= i < self.queue_of(w).len() implies self.queue_of(w)[i]
                        != Event::Undefined by {
                        if i < s0.queue_of(w).len() {
                            assert(s0.queue_of(w)[i] != Event::Undefined);
                        }
                    }
                }
            }
        }
        proof {
            assert(notifications@.take(n as int) =~= notifications@);
        }
        Ok(PumpOutcome { should_stop, actions })
    }

    /// Authorizes minimizing or restoring window `id`.
    pub fn wry_set_minimized(&self, id: u64, minimized: bool) -> (r: Result<
        WindowCommand,
        WryError,
    >)
        ensures
            self.registered(id) ==> r == Ok::<WindowCommand, WryError>(
                WindowCommand::SetMinimized(minimized),
            ),
            !self.registered(id) ==> r == Err::<WindowCommand, WryError>(WryError::NotFound),
    {
        if self.is_registered(id) {
            Ok(WindowCommand::SetMinimized(minimized))
        } else {
            Err(WryError::NotFound)
        }
    }

    /// Authorizes maximizing or restoring window `id`.
    pub fn wry_set_maximized(&self, id: u64, maximized: bool) -> (r: Result<
        WindowCommand,
        WryError,
    >)
        ensures
            self.registered(id) ==> r == Ok::<WindowCommand, WryError>(
                WindowCommand::SetMaximized(maximized),
            ),
            !self.registered(id) ==> r == Err::<WindowCommand, WryError>(WryError::NotFound),
    {
        if self.is_registered(id) {
            Ok(WindowCommand::SetMaximized(maximized))
        } else {
            Err(WryError::NotFound)
        }
    }

    /// Authorizes showing or hiding window `id`.
    pub fn wry_set_visible(&self, id: u64, visible: bool) -> (r: Result<WindowCommand, WryError>)
        ensures
            self.registered(id) ==> r == Ok::<WindowCommand, WryError>(
                WindowCommand::SetVisible(visible),
            ),
            !self.registered(id) ==> r == Err::<WindowCommand, WryError>(WryError::NotFound),
    {
        if self.is_registered(id) {
            Ok(WindowCommand::SetVisible(visible))
        } else {
            Err(WryError::NotFound)
        }
    }

    /// Validates and authorizes an inner-size change for window `id`.  A
    /// payload with zero or two size spellings is malformed: it is
    /// rejected with `InvalidArgument` before the identifier is looked up
    /// and before any native call is attempted.
    pub fn wry_set_inner_size(
        &self,
        id: u64,
        physical: Option<PhysicalSize>,
        logical: Option<LogicalSize>,
    ) -> (r: Result<WindowCommand, WryError>)
        ensures
            spec_size_from_parts(physical, logical) matches Err(e) ==> r == Err::<
                WindowCommand,
                WryError,
            >(e),
            spec_size_from_parts(physical, logical) matches Ok(s) ==> r == (if self.registered(
                id,
            ) {
                Ok::<WindowCommand, WryError>(WindowCommand::SetInnerSize(s))
            } else {
                Err::<WindowCommand, WryError>(WryError::NotFound)
            }),
    {
        let size = match SizeDef::from_parts(physical, logical) {
            Ok(s) => s,
            Err(e) => {
                return Err(e);
            },
        };
        if self.is_registered(id) {
            Ok(WindowCommand::SetInnerSize(size))
        } else {
            Err(WryError::NotFound)
        }
    }
}

} // verus!
