//! Per-window lifecycle status, size payloads for the inner-size setter,
//! the error taxonomy, and the registry's capability surface.

use vstd::prelude::*;

verus! {

/// Two-state lifecycle of a window's native surface.
///
/// A window starts at `Initialized` when registered and moves to
/// `WindowCreated` on the first pump pass made on its behalf; the
/// transition happens at most once and is terminal.
#[derive(Clone, Copy, Debug, PartialEq, Eq, Structural)]
pub enum WebViewStatus {
    Initialized,
    WindowCreated,
}

/// A size given in physical (device) pixels.
#[derive(Clone, Copy, Debug, PartialEq, Eq, Structural)]
pub struct PhysicalSize {
    pub width: u32,
    pub height: u32,
}

/// A size given in logical (scale-factor dependent) units.
///
/// The host hands logical dimensions over as floating-point numbers; the
/// core never interprets them, so they are carried as the raw bit patterns
/// of those numbers.  The embedding layer converts in both directions.
#[derive(Clone, Copy, Debug, PartialEq, Eq, Structural)]
pub struct LogicalSize {
    pub width_bits: u64,
    pub height_bits: u64,
}

/// A validated inner-size request: exactly one of the two spellings.
#[derive(Clone, Copy, Debug, PartialEq, Eq, Structural)]
pub enum SizeDef {
    Physical(PhysicalSize),
    Logical(LogicalSize),
}

/// The error taxonomy of the control surface.
///
/// `NotFound` is recoverable and reports an identifier never issued by
/// `wry_new`.  `WindowCreationError` carries the reason a native
/// window/webview pair could not be constructed; it is raised by the
/// embedding layer, never by the core.  `InvalidArgument` reports a
/// malformed size payload before any native call is attempted.
/// `InternalConsistency` reports an event observed for a window one of the
/// parallel maps does not know, which the registration invariant rules out.
#[derive(Debug, PartialEq, Eq)]
pub enum WryError {
    NotFound,
    WindowCreationError(String),
    InvalidArgument,
    InternalConsistency,
}

impl SizeDef {
    /// Validates a raw size payload as it arrives from the host: a request
    /// must carry exactly one of the `physical` and `logical` spellings;
    /// zero or both is malformed and rejected before any native call.
    pub fn from_parts(physical: Option<PhysicalSize>, logical: Option<LogicalSize>) -> (r:
        Result<SizeDef, WryError>)
        ensures
            r == spec_size_from_parts(physical, logical),
    {
        match (physical, logical) {
            (Some(p), None) => Ok(SizeDef::Physical(p)),
            (None, Some(l)) => Ok(SizeDef::Logical(l)),
            _ => Err(WryError::InvalidArgument),
        }
    }
}

/// What `SizeDef::from_parts` returns for every raw payload.
pub open spec fn spec_size_from_parts(
    physical: Option<PhysicalSize>,
    logical: Option<LogicalSize>,
) -> Result<SizeDef, WryError> {
    match (physical, logical) {
        (Some(p), None) => Ok(SizeDef::Physical(p)),
        (None, Some(l)) => Ok(SizeDef::Logical(l)),
        _ => Err(WryError::InvalidArgument),
    }
}

/// Which operations the native backend exposes on this platform.
///
/// Some windowing toolkits do not offer the minimize/maximize/visibility/
/// inner-size surface; the embedding layer decides once at startup and the
/// host must query rather than assume availability.
#[derive(Clone, Copy, Debug, PartialEq, Eq, Structural)]
pub struct Capabilities {
    pub window_setters: bool,
}

} // verus!
