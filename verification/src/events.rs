//! The event vocabulary of the bridge.
//!
//! `WindowEvent` is the closed, portable vocabulary that the polling caller
//! consumes. `NativeEvent` models, as plain values, everything the bridge
//! reads out of a native window event before translation: the toolkit's own
//! event type is converted into it at the process boundary, one variant per
//! native event category. Fractional payloads (cursor positions, scroll
//! deltas, gesture deltas, scale factors) are carried as IEEE 754 bit
//! patterns in unsigned integers; the boundary converts with `to_bits` /
//! `from_bits`, so no precision is lost and the verified core stays free of
//! floating point.

use vstd::prelude::*;

verus! {

/// A portable window event, delivered by value to the polling caller.
///
/// One variant per supported native event category, each carrying only the
/// payload surfaced downstream. The payload-free variants (`KeyboardInput`,
/// `ModifiersChanged`, `Ime`, `MouseInput`, `Touch`, ...) are deliberate
/// extension points: their native payload is not surfaced yet.
///
/// Fields named `*_bits` hold the IEEE 754 bit pattern of the fractional
/// value they stand for: 64-bit fields a double-precision value, 32-bit
/// fields a single-precision one.
#[derive(Clone, Debug, PartialEq)]
pub enum WindowEvent {
    ActivationTokenDone { serial: u64, token: String },
    Resized { width: u32, height: u32 },
    Moved { x: i32, y: i32 },
    CloseRequested,
    Destroyed,
    DroppedFile { path: String },
    HoveredFile { path: String },
    HoveredFileCancelled,
    Focused { focused: bool },
    KeyboardInput,
    ModifiersChanged,
    Ime,
    CursorMoved { x_bits: u64, y_bits: u64 },
    CursorEntered,
    CursorLeft,
    MouseWheel { delta_x_bits: u64, delta_y_bits: u64 },
    MouseInput,
    PinchGesture { delta_bits: u64 },
    PanGesture { delta_x_bits: u32, delta_y_bits: u32 },
    DoubleTapGesture,
    RotationGesture { delta_bits: u32 },
    TouchpadPressure { pressure_bits: u32, stage: i64 },
    AxisMotion { axis: u32, value_bits: u64 },
    Touch,
    ScaleFactorChanged { scale_factor_bits: u64 },
    ThemeChanged { theme: String },
    Occluded { occluded: bool },
    RedrawRequested,
}

/// A scroll delta as the native loop reports it: either whole lines or
/// pixels. Both pairs are double-precision bit patterns (a native
/// single-precision line delta is widened, exactly, at the boundary).
#[derive(Clone, Debug, PartialEq)]
pub enum ScrollDelta {
    Lines { x_bits: u64, y_bits: u64 },
    Pixels { x_bits: u64, y_bits: u64 },
}

/// A native window event, modeled as plain values.
///
/// The process boundary builds one of these from the toolkit's event before
/// handing it to the bridge; the variants mirror the native event categories
/// one for one. Fields named `*_bits` hold IEEE 754 bit patterns as in
/// [`WindowEvent`]; `theme` carries the native theme's name.
#[derive(Clone, Debug, PartialEq)]
pub enum NativeEvent {
    ActivationTokenDone { serial: u64, token: String },
    Resized { width: u32, height: u32 },
    Moved { x: i32, y: i32 },
    CloseRequested,
    Destroyed,
    DroppedFile { path: String },
    HoveredFile { path: String },
    HoveredFileCancelled,
    Focused { focused: bool },
    KeyboardInput,
    ModifiersChanged,
    Ime,
    CursorMoved { x_bits: u64, y_bits: u64 },
    CursorEntered,
    CursorLeft,
    MouseWheel { delta: ScrollDelta },
    MouseInput,
    PinchGesture { delta_bits: u64 },
    PanGesture { delta_x_bits: u32, delta_y_bits: u32 },
    DoubleTapGesture,
    RotationGesture { delta_bits: u32 },
    TouchpadPressure { pressure_bits: u32, stage: i64 },
    AxisMotion { axis: u32, value_bits: u64 },
    Touch,
    ScaleFactorChanged { scale_factor_bits: u64 },
    ThemeChanged { theme: String },
    Occluded { occluded: bool },
    RedrawRequested,
}

} // verus!
