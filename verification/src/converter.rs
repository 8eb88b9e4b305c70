//! Persistent converters and the decisions of the `create` entry point.
//!
//! `create` runs in two steps around the native constructor. `plan_create`
//! decides from the caller's arguments whether the constructor is called at
//! all, and with what; `finish_create` decides from the constructor's answer
//! whether a converter comes into being.

use vstd::prelude::*;
use crate::status::{
    converter_type, is_quality_selector, INVALID_ARGUMENT, LIBSAMPLERATE_ERROR, OK, SRC_LINEAR,
    UNSUPPORTED,
};

verus! {

/// A persistent mono converter that owns one native libsamplerate state.
///
/// The state is released when the converter is dropped (the state type's own
/// drop does that).
pub struct Converter<S> {
    state: S,
}

impl<S> Converter<S> {
    /// The native state this converter owns.
    pub closed spec fn spec_state(&self) -> S {
        self.state
    }

    /// Borrow the native state this converter owns.
    pub fn state(&self) -> (r: &S)
        ensures
            *r == self.spec_state(),
    {
        &self.state
    }

    /// Give up the converter and hand back the native state it owned.
    pub fn into_state(self) -> (r: S)
        ensures
            r == self.spec_state(),
    {
        self.state
    }
}

/// What `create` does after reading its arguments.
pub enum CreateStep {
    /// Return `status` without calling libsamplerate. When `clear_out` holds,
    /// the caller's output slot is first set to null.
    Reject { status: i32, clear_out: bool },
    /// Set the caller's output slot to null, then ask libsamplerate for a new
    /// state with this converter type and channel count.
    CallNew { converter_type: i32, channels: i32 },
}

/// The step that `create` takes for an output slot that is present or null,
/// a quality selector and a channel count.
pub open spec fn create_step(out_present: bool, quality: i32, channels: u32) -> CreateStep {
    if !out_present {
        CreateStep::Reject { status: INVALID_ARGUMENT, clear_out: false }
    } else if !is_quality_selector(quality) {
        CreateStep::Reject { status: INVALID_ARGUMENT, clear_out: true }
    } else if channels != 1 {
        CreateStep::Reject { status: UNSUPPORTED, clear_out: true }
    } else {
        CreateStep::CallNew { converter_type: SRC_LINEAR, channels: 1 }
    }
}

/// Decide what `create` does: a null output slot is an invalid argument and
/// is left untouched; otherwise the slot is cleared, an unknown quality
/// selector is an invalid argument, a channel count other than one is
/// unsupported, and a valid request calls libsamplerate for one mono linear
/// interpolation (`SRC_LINEAR`) state, whichever of the three selectors it
/// names.
pub fn plan_create(out_present: bool, quality: i32, channels: u32) -> (r: CreateStep)
    ensures
        r == create_step(out_present, quality, channels),
        !out_present ==> r == (CreateStep::Reject { status: -1i32, clear_out: false }),
        (out_present && !(quality == 0 || quality == 1 || quality == 2)) ==> r == (
        CreateStep::Reject { status: -1i32, clear_out: true }),
        (out_present && (quality == 0 || quality == 1 || quality == 2) && channels != 1) ==> r == (
        CreateStep::Reject { status: -3i32, clear_out: true }),
        (out_present && (quality == 0 || quality == 1 || quality == 2) && channels == 1) ==> r == (
        CreateStep::CallNew { converter_type: 4i32, channels: 1i32 }),
{
    if !out_present {
        return CreateStep::Reject { status: INVALID_ARGUMENT, clear_out: false };
    }
    match converter_type(quality) {
        None => CreateStep::Reject { status: INVALID_ARGUMENT, clear_out: true },
        Some(selected) => {
            if channels != 1 {
                CreateStep::Reject { status: UNSUPPORTED, clear_out: true }
            } else {
                CreateStep::CallNew { converter_type: selected, channels: 1 }
            }
        },
    }
}

/// How the native constructor's answer ends `create`.
pub enum Created<S> {
    /// A converter exists; it is handed to the caller and `create` returns `OK`.
    Ready(Converter<S>),
    /// No converter exists and `create` returns `LIBSAMPLERATE_ERROR`. A state
    /// that libsamplerate returned together with an error is in `release`
    /// and must be released.
    Failed { release: Option<S> },
}

impl<S> Created<S> {
    /// The status code that `create` returns for this ending.
    pub open spec fn spec_status(&self) -> i32 {
        match self {
            Created::Ready(_) => OK,
            Created::Failed { .. } => LIBSAMPLERATE_ERROR,
        }
    }

    /// The status code that `create` returns for this ending.
    pub fn status(&self) -> (r: i32)
        ensures
            r == self.spec_status(),
            (r == 0) == (self is Ready),
            (r == -2) == (self is Failed),
    {
        match self {
            Created::Ready(_) => OK,
            Created::Failed { .. } => LIBSAMPLERATE_ERROR,
        }
    }
}

/// Whether libsamplerate's constructor answer makes a converter: a non-null
/// state together with error code zero.
pub open spec fn create_ready(state_present: bool, library_error: i32) -> bool {
    state_present && library_error == 0
}

/// Decide how `create` ends from what libsamplerate's constructor gave back:
/// `state` is the state it returned (`None` for a null state) and
/// `library_error` the error code it reported. No state is a library error;
/// a state with a nonzero error code is a library error and the state is
/// released; a state with error code zero becomes the new converter.
pub fn finish_create<S>(state: Option<S>, library_error: i32) -> (r: Created<S>)
    ensures
        match state {
            None => r == Created::<S>::Failed { release: None },
            Some(s) => if library_error != 0 {
                r == Created::<S>::Failed { release: Some(s) }
            } else {
                r matches Created::Ready(c) && c.spec_state() == s
            },
        },
        (r is Ready) == create_ready(state is Some, library_error),
{
    match state {
        None => Created::Failed { release: None },
        Some(s) => {
            if library_error != 0 {
                Created::Failed { release: Some(s) }
            } else {
                Created::Ready(Converter { state: s })
            }
        },
    }
}

} // verus!
