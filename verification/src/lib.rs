//! Poll-driven control core for a set of native webview windows.
//!
//! A single-threaded host cannot block on a native GUI event loop, so this
//! crate bridges the push-style native loop into a pull-style step API: the
//! registry allocates window identities, tracks each window's lifecycle
//! status, and buffers lifecycle events per window until the host drains
//! them.  The embedding layer owns the native window/webview pair for each
//! identifier and feeds one snapshot of pending native notifications into
//! [`registry::Registry::wry_loop`] per pump call; every decision about
//! status transitions, event attribution and queue contents is made here.

pub mod event;
pub mod helpers;
pub mod laws;
pub mod registry;
