//! Which lock backend the daemon drives: the Wayland session lock when a Wayland session and its
//! helper are present, else the X11 grab when an X session and its helper are present, else none.
use vstd::prelude::*;

use crate::rpc::LockCapability;

verus! {

/// The Wayland backend's presence.
pub open spec fn wayland_spec(wayland_display_set: bool, ready_file: bool, socket: bool) -> LockCapability {
    if wayland_display_set && ready_file && socket {
        LockCapability::SessionLock
    } else {
        LockCapability::NoBackend
    }
}

/// The X11 backend's presence.
pub open spec fn x11_spec(display_set: bool, wayland_display_set: bool, ready_file: bool, socket: bool) -> LockCapability {
    if display_set && !wayland_display_set && ready_file && socket {
        LockCapability::X11Grab
    } else {
        LockCapability::NoBackend
    }
}

/// The backend in use: Wayland first, then X11.
pub open spec fn live_spec(wayland: LockCapability, x11: LockCapability) -> LockCapability {
    if wayland != LockCapability::NoBackend { wayland } else { x11 }
}

/// The Wayland backend is present when `WAYLAND_DISPLAY` is set and the helper has written its
/// ready file and bound its socket.
pub fn wayland_capability(wayland_display_set: bool, ready_file: bool, socket: bool) -> (r: LockCapability)
    ensures
        r == wayland_spec(wayland_display_set, ready_file, socket),
{
    if !wayland_display_set {
        return LockCapability::NoBackend;
    }
    if ready_file && socket {
        LockCapability::SessionLock
    } else {
        LockCapability::NoBackend
    }
}

/// The X11 backend is present when `DISPLAY` is set, no Wayland session is active, and the helper
/// has written its ready file and bound its socket.
pub fn x11_capability(
    display_set: bool,
    wayland_display_set: bool,
    ready_file: bool,
    socket: bool,
) -> (r: LockCapability)
    ensures
        r == x11_spec(display_set, wayland_display_set, ready_file, socket),
{
    if !display_set {
        return LockCapability::NoBackend;
    }
    if wayland_display_set {
        return LockCapability::NoBackend;
    }
    if ready_file && socket {
        LockCapability::X11Grab
    } else {
        LockCapability::NoBackend
    }
}

/// Wayland first, then X11.
pub fn live_capability(wayland: LockCapability, x11: LockCapability) -> (r: LockCapability)
    ensures
        r == live_spec(wayland, x11),
{
    if wayland != LockCapability::NoBackend {
        return wayland;
    }
    x11
}

/// A Wayland session never falls back to the X11 grab: while `WAYLAND_DISPLAY` is set the
/// backend is the session lock or none.
pub proof fn law_no_x11_fallback_under_wayland(
    ready_w: bool,
    socket_w: bool,
    display_set: bool,
    ready_x: bool,
    socket_x: bool,
)
    ensures
        live_spec(wayland_spec(true, ready_w, socket_w), x11_spec(display_set, true, ready_x, socket_x))
            != LockCapability::X11Grab,
{
}

/// Without a display of either kind there is no backend, so the daemon refuses to freeze.
pub proof fn law_no_display_no_backend(ready_w: bool, socket_w: bool, ready_x: bool, socket_x: bool)
    ensures
        live_spec(wayland_spec(false, ready_w, socket_w), x11_spec(false, false, ready_x, socket_x))
            == LockCapability::NoBackend,
{
}

} // verus!
