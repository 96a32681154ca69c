//! The closed event model: what the host can observe of a window's
//! lifecycle, and the pure mapping that takes each native notification
//! into it.

use vstd::prelude::*;

verus! {

/// A lifecycle event buffered for the host.
///
/// `Undefined` is the sentinel for "native notification observed but not
/// mapped"; it is filtered out before any queue is reached and never
/// appears in a drained sequence.
#[derive(Clone, Copy, Debug, PartialEq, Eq, Structural)]
pub enum Event {
    WindowCreated,
    DomContentLoaded,
    Undefined,
    Close,
    Suspended,
    Resumed,
    MainEventsCleared,
    RedrawRequested,
    RedrawEventsCleared,
    LoopDestroyed,
}

/// One native notification observed during a single dispatch pass of the
/// shared native loop.
///
/// The native loop is process-global, so a pass made on behalf of one
/// window also observes notifications addressed to other windows; the
/// variants that carry a `u64` name the window whose native surface the
/// notification targets.  `OtherWindowEvent` stands for any per-window
/// notification with no mapping of its own, and `Other` for any loop-level
/// notification with none.
#[derive(Clone, Copy, Debug, PartialEq, Eq, Structural)]
pub enum Notification {
    Suspended,
    Resumed,
    MainEventsCleared,
    RedrawEventsCleared,
    LoopDestroyed,
    RedrawRequested(u64),
    CloseRequested(u64),
    Resized(u64),
    OtherWindowEvent(u64),
    Other,
}

/// The translation of one native notification into the closed event set.
pub open spec fn spec_translate(n: Notification) -> Event {
    match n {
        Notification::Suspended => Event::Suspended,
        Notification::Resumed => Event::Resumed,
        Notification::MainEventsCleared => Event::MainEventsCleared,
        Notification::RedrawEventsCleared => Event::RedrawEventsCleared,
        Notification::LoopDestroyed => Event::LoopDestroyed,
        Notification::RedrawRequested(_) => Event::RedrawRequested,
        Notification::CloseRequested(_) => Event::Close,
        Notification::Resized(_) => Event::Undefined,
        Notification::OtherWindowEvent(_) => Event::Undefined,
        Notification::Other => Event::Undefined,
    }
}

impl Event {
    /// The tag under which this event crosses the wire to the host, in
    /// the `{event: <kind>}` shape.  `Undefined` never leaves the system
    /// — it is filtered out before any queue — so it has no wire name
    /// and is not accepted here.
    pub fn wire_name(&self) -> (r: &'static str)
        requires
            *self != Event::Undefined,
        ensures
            *self == Event::WindowCreated ==> r@ == "windowCreated"@,
            *self == Event::DomContentLoaded ==> r@ == "domContentLoaded"@,
            *self == Event::Close ==> r@ == "close"@,
            *self == Event::Suspended ==> r@ == "suspended"@,
            *self == Event::Resumed ==> r@ == "resumed"@,
            *self == Event::MainEventsCleared ==> r@ == "mainEventsCleared"@,
            *self == Event::RedrawRequested ==> r@ == "redrawRequested"@,
            *self == Event::RedrawEventsCleared ==> r@ == "redrawEventsCleared"@,
            *self == Event::LoopDestroyed ==> r@ == "loopDestroyed"@,
    {
        match self {
            Event::WindowCreated => "windowCreated",
            Event::DomContentLoaded => "domContentLoaded",
            Event::Close => "close",
            Event::Suspended => "suspended",
            Event::Resumed => "resumed",
            Event::MainEventsCleared => "mainEventsCleared",
            Event::RedrawRequested => "redrawRequested",
            Event::RedrawEventsCleared => "redrawEventsCleared",
            Event::LoopDestroyed => "loopDestroyed",
            Event::Undefined => vstd::pervasive::unreached(),
        }
    }
}

impl From<Notification> for Event {
    /// Total translation: every notification maps to exactly one event,
    /// with `Undefined` standing for "no mapping".
    fn from(n: Notification) -> (r: Event) {
        match n {
            Notification::Suspended => Event::Suspended,
            Notification::Resumed => Event::Resumed,
            Notification::MainEventsCleared => Event::MainEventsCleared,
            Notification::RedrawEventsCleared => Event::RedrawEventsCleared,
            Notification::LoopDestroyed => Event::LoopDestroyed,
            Notification::RedrawRequested(_) => Event::RedrawRequested,
            Notification::CloseRequested(_) => Event::Close,
            Notification::Resized(_) => Event::Undefined,
            Notification::OtherWindowEvent(_) => Event::Undefined,
            Notification::Other => Event::Undefined,
        }
    }
}

impl vstd::std_specs::convert::FromSpecImpl<Notification> for Event {
    open spec fn obeys_from_spec() -> bool {
        true
    }

    open spec fn from_spec(n: Notification) -> Event {
        spec_translate(n)
    }
}

} // verus!
