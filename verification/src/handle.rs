//! Extraction of the numeric OS-level handle from a display-server handle.
//!
//! The windowing toolkit reports the raw handle of a created window as one
//! of a small closed set of platform representations. The bridge supports
//! exactly two of them — an X11 window, whose numeric id is the handle, and
//! a Wayland surface, whose address is the handle — and collapses every
//! other kind into the same zero sentinel that stands for "no window yet".
//! The process boundary converts the toolkit's representation into
//! [`HandleKind`] before handing it to the bridge.

use vstd::prelude::*;

verus! {

/// A raw display-server window handle, as plain values.
///
/// `Xlib` carries the X11 window id; `Wayland` carries the address of the
/// `wl_surface`; `Unsupported` stands for every other kind the toolkit may
/// report.
#[derive(Clone, Copy, Debug, PartialEq, Eq, Structural)]
pub enum HandleKind {
    Xlib { window_id: u64 },
    Wayland { surface_addr: u64 },
    Unsupported,
}

/// The numeric handle that a raw handle kind yields: the X11 window id, the
/// Wayland surface address, or the zero sentinel for an unsupported kind.
pub open spec fn spec_extract_handle(kind: HandleKind) -> u64 {
    match kind {
        HandleKind::Xlib { window_id } => window_id,
        HandleKind::Wayland { surface_addr } => surface_addr,
        HandleKind::Unsupported => 0u64,
    }
}

/// Extracts the OS-level numeric handle from a raw handle kind.
///
/// An unsupported kind yields 0, the same sentinel as "window not created
/// yet": collapsing the two conditions is a deliberate simplification of
/// the bridge's surface.
pub fn extract_handle(kind: &HandleKind) -> (r: u64)
    ensures
        r == spec_extract_handle(*kind),
{
    match kind {
        HandleKind::Xlib { window_id } => *window_id,
        HandleKind::Wayland { surface_addr } => *surface_addr,
        HandleKind::Unsupported => 0u64,
    }
}

} // verus!
