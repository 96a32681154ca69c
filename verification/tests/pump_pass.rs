//! Behaviour of one pump pass: translation, filtering of `Undefined`,
//! attribution of per-window notifications, close detection, and the
//! native actions a pass asks for.

use wry_bridge::event::{Event, Notification};
use wry_bridge::helpers::{Capabilities, WryError};
use wry_bridge::registry::{Action, Registry};

fn fresh() -> Registry {
    Registry::new(Capabilities { window_setters: true })
}

#[test]
fn translate_maps_each_notification() {
    assert_eq!(Event::from(Notification::Suspended), Event::Suspended);
    assert_eq!(Event::from(Notification::Resumed), Event::Resumed);
    assert_eq!(
        Event::from(Notification::MainEventsCleared),
        Event::MainEventsCleared
    );
    assert_eq!(
        Event::from(Notification::RedrawEventsCleared),
        Event::RedrawEventsCleared
    );
    assert_eq!(Event::from(Notification::LoopDestroyed), Event::LoopDestroyed);
    assert_eq!(
        Event::from(Notification::RedrawRequested(4)),
        Event::RedrawRequested
    );
    assert_eq!(Event::from(Notification::CloseRequested(4)), Event::Close);
    assert_eq!(Event::from(Notification::Resized(4)), Event::Undefined);
    assert_eq!(
        Event::from(Notification::OtherWindowEvent(4)),
        Event::Undefined
    );
    assert_eq!(Event::from(Notification::Other), Event::Undefined);
}

#[test]
fn wire_names_are_camel_case() {
    assert_eq!(Event::WindowCreated.wire_name(), "windowCreated");
    assert_eq!(Event::DomContentLoaded.wire_name(), "domContentLoaded");
    assert_eq!(Event::Close.wire_name(), "close");
    assert_eq!(Event::Suspended.wire_name(), "suspended");
    assert_eq!(Event::Resumed.wire_name(), "resumed");
    assert_eq!(Event::MainEventsCleared.wire_name(), "mainEventsCleared");
    assert_eq!(Event::RedrawRequested.wire_name(), "redrawRequested");
    assert_eq!(
        Event::RedrawEventsCleared.wire_name(),
        "redrawEventsCleared"
    );
    assert_eq!(Event::LoopDestroyed.wire_name(), "loopDestroyed");
}

#[test]
fn undefined_never_reaches_a_queue() {
    let mut r = fresh();
    let id = r.wry_new();
    let ns = vec![
        Notification::Other,
        Notification::OtherWindowEvent(id),
        Notification::Resized(id),
        Notification::Suspended,
    ];
    r.wry_loop(id, &ns).unwrap();
    let drained = r.wry_step(id).unwrap();
    assert!(drained.iter().all(|e| *e != Event::Undefined));
    assert_eq!(drained, vec![Event::WindowCreated, Event::Suspended]);
}

#[test]
fn close_sets_should_stop_and_enqueues_once() {
    let mut r = fresh();
    let a = r.wry_new();
    let b = r.wry_new();
    let ns = vec![Notification::CloseRequested(a)];
    let out = r.wry_loop(a, &ns).unwrap();
    assert!(out.should_stop);
    assert_eq!(r.wry_step(a), Ok(vec![Event::WindowCreated, Event::Close]));
    // the unrelated window gained nothing from a's close
    assert_eq!(r.wry_step(b), Ok(vec![]));
}

#[test]
fn close_for_another_window_does_not_stop_requested() {
    let mut r = fresh();
    let a = r.wry_new();
    let b = r.wry_new();
    // pumping on b's behalf while a's surface asks to close
    let ns = vec![Notification::CloseRequested(a)];
    let out = r.wry_loop(b, &ns).unwrap();
    assert!(!out.should_stop);
    // the Close was attributed to a's queue, not misfiled into b's
    assert_eq!(r.wry_step(b), Ok(vec![Event::WindowCreated]));
    assert_eq!(r.wry_step(a), Ok(vec![Event::Close]));
}

#[test]
fn redraw_request_attributed_to_its_target() {
    let mut r = fresh();
    let a = r.wry_new();
    let b = r.wry_new();
    let ns = vec![Notification::RedrawRequested(b)];
    r.wry_loop(a, &ns).unwrap();
    assert_eq!(r.wry_step(a), Ok(vec![Event::WindowCreated]));
    // b's surface event reached b's queue even though the pass ran for a;
    // b itself was not realized by a's pass
    assert_eq!(r.wry_step(b), Ok(vec![Event::RedrawRequested]));
}

#[test]
fn loop_level_events_attributed_to_requested() {
    let mut r = fresh();
    let id = r.wry_new();
    let ns = vec![
        Notification::Suspended,
        Notification::Resumed,
        Notification::RedrawEventsCleared,
        Notification::LoopDestroyed,
    ];
    r.wry_loop(id, &ns).unwrap();
    assert_eq!(
        r.wry_step(id),
        Ok(vec![
            Event::WindowCreated,
            Event::Suspended,
            Event::Resumed,
            Event::RedrawEventsCleared,
            Event::LoopDestroyed,
        ])
    );
}

#[test]
fn pass_actions_resize_and_redraw() {
    let mut r = fresh();
    let a = r.wry_new();
    let b = r.wry_new();
    let ns = vec![
        Notification::MainEventsCleared,
        Notification::Resized(a),
        Notification::Resized(b),
    ];
    let out = r.wry_loop(a, &ns).unwrap();
    // one redraw request for the pass, one resize for a's own surface;
    // b's resize is not a's business
    assert_eq!(out.actions, vec![Action::RequestRedraw(a), Action::Resize(a)]);
}

#[test]
fn notification_for_unknown_window_is_fatal() {
    let mut r = fresh();
    let id = r.wry_new();
    let ns = vec![Notification::CloseRequested(9)];
    assert_eq!(r.wry_loop(id, &ns), Err(WryError::InternalConsistency));
    // nothing changed: not even the status transition ran
    assert_eq!(r.wry_step(id), Ok(vec![]));
    let out = r.wry_loop(id, &vec![]).unwrap();
    assert!(!out.should_stop);
    assert_eq!(r.wry_step(id), Ok(vec![Event::WindowCreated]));
}

#[test]
fn pump_reports_no_actions_for_quiet_pass() {
    let mut r = fresh();
    let id = r.wry_new();
    let out = r.wry_loop(id, &vec![]).unwrap();
    assert!(!out.should_stop);
    assert_eq!(out.actions, vec![]);
}
