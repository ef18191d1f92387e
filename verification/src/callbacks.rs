//! Calls of the Rust closures registered for the native map observer's events.
//!
//! Each function takes the callback as a value that may be called once
//! (a shared reference to a registered closure is one), so its body cannot
//! call it a second time, and its `ensures` speaks of the result of the one
//! call it makes, with exactly the event's arguments.

use crate::bridge::{MapLoadError, MapObserverCameraChangeMode};
use vstd::prelude::*;

verus! {

/// General callback without arguments: calls it once.
pub fn void_callback<F: FnOnce()>(callback: F)
    requires
        call_requires(callback, ()),
    ensures
        call_ensures(callback, (), ()),
{
    callback()
}

/// Calls the callback for a finished frame with whether the map needs a
/// repaint and whether the placement changed.
pub fn finish_rendering_frame_callback<F: FnOnce(bool, bool)>(
    callback: F,
    needs_repaint: bool,
    placement_changed: bool,
) -> (r: ())
    requires
        call_requires(callback, (needs_repaint, placement_changed)),
    ensures
        call_ensures(callback, (needs_repaint, placement_changed), r),
{
    callback(needs_repaint, placement_changed)
}

/// Calls the callback for a map that failed to load with the error and its
/// description.
pub fn failing_loading_map_callback<F: FnOnce(MapLoadError, &str)>(
    callback: F,
    error: MapLoadError,
    what: &str,
) -> (r: ())
    requires
        call_requires(callback, (error, what)),
    ensures
        call_ensures(callback, (error, what), r),
{
    callback(error, what)
}

/// Calls the callback for a camera change with how the camera changed.
pub fn camera_did_change_callback<F: FnOnce(MapObserverCameraChangeMode)>(
    callback: F,
    mode: MapObserverCameraChangeMode,
) -> (r: ())
    requires
        call_requires(callback, (mode,)),
    ensures
        call_ensures(callback, (mode,), r),
{
    callback(mode)
}

} // verus!
