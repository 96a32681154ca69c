//! Behaviour of the registry operations: identifier allocation, drain
//! semantics, the first-pump transition, and rejection of unknown ids.

use wry_bridge::event::{Event, Notification};
use wry_bridge::helpers::{Capabilities, WryError};
use wry_bridge::registry::Registry;

fn fresh() -> Registry {
    Registry::new(Capabilities { window_setters: true })
}

#[test]
fn create_ids_strictly_increasing() {
    let mut r = fresh();
    assert_eq!(r.wry_new(), 0);
    assert_eq!(r.wry_new(), 1);
    assert_eq!(r.wry_new(), 2);
    assert_eq!(r.wry_new(), 3);
}

#[test]
fn drain_after_create_is_empty() {
    let mut r = fresh();
    let id = r.wry_new();
    assert_eq!(r.wry_step(id), Ok(vec![]));
}

#[test]
fn first_pump_emits_window_created_once() {
    let mut r = fresh();
    let id = r.wry_new();
    let none: Vec<Notification> = vec![];
    let out = r.wry_loop(id, &none).unwrap();
    assert!(!out.should_stop);
    assert_eq!(r.wry_step(id), Ok(vec![Event::WindowCreated]));
    // a second pump never adds another WindowCreated
    let out2 = r.wry_loop(id, &none).unwrap();
    assert!(!out2.should_stop);
    assert_eq!(r.wry_step(id), Ok(vec![]));
}

#[test]
fn window_created_is_first_even_with_other_notifications() {
    let mut r = fresh();
    let id = r.wry_new();
    let ns = vec![Notification::Suspended, Notification::Resumed];
    r.wry_loop(id, &ns).unwrap();
    assert_eq!(
        r.wry_step(id),
        Ok(vec![Event::WindowCreated, Event::Suspended, Event::Resumed])
    );
}

#[test]
fn double_drain_returns_empty() {
    let mut r = fresh();
    let id = r.wry_new();
    let ns = vec![Notification::Suspended];
    r.wry_loop(id, &ns).unwrap();
    let first = r.wry_step(id).unwrap();
    assert_eq!(first, vec![Event::WindowCreated, Event::Suspended]);
    assert_eq!(r.wry_step(id), Ok(vec![]));
}

#[test]
fn concrete_scenario() {
    // create -> id 0; pump -> shouldStop false; drain -> [windowCreated];
    // a second create -> id 1, independent of id 0's state.
    let mut r = fresh();
    let id = r.wry_new();
    assert_eq!(id, 0);
    let out = r.wry_loop(0, &vec![]).unwrap();
    assert!(!out.should_stop);
    assert_eq!(out.actions, vec![]);
    assert_eq!(r.wry_step(0), Ok(vec![Event::WindowCreated]));
    let id2 = r.wry_new();
    assert_eq!(id2, 1);
    assert_eq!(r.wry_step(1), Ok(vec![]));
}

#[test]
fn unknown_id_is_rejected_everywhere() {
    let mut r = fresh();
    let id = r.wry_new();
    let ns = vec![Notification::Suspended];
    assert_eq!(r.wry_loop(7, &ns), Err(WryError::NotFound));
    assert_eq!(r.wry_step(7), Err(WryError::NotFound));
    assert_eq!(
        r.enqueue(7, Event::DomContentLoaded),
        Err(WryError::InternalConsistency)
    );
    // no other id's state was corrupted
    assert_eq!(r.wry_step(id), Ok(vec![]));
    let out = r.wry_loop(id, &ns).unwrap();
    assert!(!out.should_stop);
    assert_eq!(
        r.wry_step(id),
        Ok(vec![Event::WindowCreated, Event::Suspended])
    );
}

#[test]
fn enqueue_preserves_observation_order() {
    // The content-load callback may fire before the first pump pass; the
    // DomContentLoaded it enqueues then precedes WindowCreated.
    let mut r = fresh();
    let id = r.wry_new();
    assert_eq!(r.enqueue(id, Event::DomContentLoaded), Ok(()));
    r.wry_loop(id, &vec![]).unwrap();
    assert_eq!(
        r.wry_step(id),
        Ok(vec![Event::DomContentLoaded, Event::WindowCreated])
    );
}
