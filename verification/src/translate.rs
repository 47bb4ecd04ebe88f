//! Pure translation of native window events into the portable vocabulary.
//!
//! Every native event category maps to exactly one portable event; the
//! mapping never duplicates and never reorders. Three design rules shape
//! it: high-payload input events (keyboard, modifiers, IME, mouse buttons,
//! touch) map to payload-free markers — intentional information loss, an
//! extension point rather than an omission; the two scroll-delta units
//! (lines and pixels) collapse into one pair, discarding the unit
//! distinction; and a native event with no portable counterpart would map
//! to `None` (no current category does — the open extensibility point of a
//! closed vocabulary).

use vstd::prelude::*;

use crate::events::NativeEvent;
use crate::events::ScrollDelta;
use crate::events::WindowEvent;

verus! {

/// The portable event a native event translates to, or `None` for a native
/// event with no portable counterpart.
pub open spec fn spec_translate(ev: NativeEvent) -> Option<WindowEvent> {
    match ev {
        NativeEvent::ActivationTokenDone { serial, token } => Some(
            WindowEvent::ActivationTokenDone { serial, token },
        ),
        NativeEvent::Resized { width, height } => Some(WindowEvent::Resized { width, height }),
        NativeEvent::Moved { x, y } => Some(WindowEvent::Moved { x, y }),
        NativeEvent::CloseRequested => Some(WindowEvent::CloseRequested),
        NativeEvent::Destroyed => Some(WindowEvent::Destroyed),
        NativeEvent::DroppedFile { path } => Some(WindowEvent::DroppedFile { path }),
        NativeEvent::HoveredFile { path } => Some(WindowEvent::HoveredFile { path }),
        NativeEvent::HoveredFileCancelled => Some(WindowEvent::HoveredFileCancelled),
        NativeEvent::Focused { focused } => Some(WindowEvent::Focused { focused }),
        NativeEvent::KeyboardInput => Some(WindowEvent::KeyboardInput),
        NativeEvent::ModifiersChanged => Some(WindowEvent::ModifiersChanged),
        NativeEvent::Ime => Some(WindowEvent::Ime),
        NativeEvent::CursorMoved { x_bits, y_bits } => Some(
            WindowEvent::CursorMoved { x_bits, y_bits },
        ),
        NativeEvent::CursorEntered => Some(WindowEvent::CursorEntered),
        NativeEvent::CursorLeft => Some(WindowEvent::CursorLeft),
        NativeEvent::MouseWheel { delta } => match delta {
            ScrollDelta::Lines { x_bits, y_bits } => Some(
                WindowEvent::MouseWheel { delta_x_bits: x_bits, delta_y_bits: y_bits },
            ),
            ScrollDelta::Pixels { x_bits, y_bits } => Some(
                WindowEvent::MouseWheel { delta_x_bits: x_bits, delta_y_bits: y_bits },
            ),
        },
        NativeEvent::MouseInput => Some(WindowEvent::MouseInput),
        NativeEvent::PinchGesture { delta_bits } => Some(
            WindowEvent::PinchGesture { delta_bits },
        ),
        NativeEvent::PanGesture { delta_x_bits, delta_y_bits } => Some(
            WindowEvent::PanGesture { delta_x_bits, delta_y_bits },
        ),
        NativeEvent::DoubleTapGesture => Some(WindowEvent::DoubleTapGesture),
        NativeEvent::RotationGesture { delta_bits } => Some(
            WindowEvent::RotationGesture { delta_bits },
        ),
        NativeEvent::TouchpadPressure { pressure_bits, stage } => Some(
            WindowEvent::TouchpadPressure { pressure_bits, stage },
        ),
        NativeEvent::AxisMotion { axis, value_bits } => Some(
            WindowEvent::AxisMotion { axis, value_bits },
        ),
        NativeEvent::Touch => Some(WindowEvent::Touch),
        NativeEvent::ScaleFactorChanged { scale_factor_bits } => Some(
            WindowEvent::ScaleFactorChanged { scale_factor_bits },
        ),
        NativeEvent::ThemeChanged { theme } => Some(WindowEvent::ThemeChanged { theme }),
        NativeEvent::Occluded { occluded } => Some(WindowEvent::Occluded { occluded }),
        NativeEvent::RedrawRequested => Some(WindowEvent::RedrawRequested),
    }
}

/// True of the one native event that also signals the owning loop to exit.
pub open spec fn is_close_request(ev: NativeEvent) -> bool {
    ev matches NativeEvent::CloseRequested
}

/// True of the one native event whose translation re-arms the platform's
/// redraw facility.
pub open spec fn is_redraw_request(ev: NativeEvent) -> bool {
    ev matches NativeEvent::RedrawRequested
}

/// Translates a native event into its portable counterpart, if it has one.
///
/// Pure: the lifecycle side effects that two translations carry (loop exit
/// on a close request, redraw re-arming on a redraw request) are decided by
/// the bridge's event step, not here.
pub fn translate(ev: NativeEvent) -> (r: Option<WindowEvent>)
    ensures
        r == spec_translate(ev),
{
    match ev {
        NativeEvent::ActivationTokenDone { serial, token } => Some(
            WindowEvent::ActivationTokenDone { serial, token },
        ),
        NativeEvent::Resized { width, height } => Some(WindowEvent::Resized { width, height }),
        NativeEvent::Moved { x, y } => Some(WindowEvent::Moved { x, y }),
        NativeEvent::CloseRequested => Some(WindowEvent::CloseRequested),
        NativeEvent::Destroyed => Some(WindowEvent::Destroyed),
        NativeEvent::DroppedFile { path } => Some(WindowEvent::DroppedFile { path }),
        NativeEvent::HoveredFile { path } => Some(WindowEvent::HoveredFile { path }),
        NativeEvent::HoveredFileCancelled => Some(WindowEvent::HoveredFileCancelled),
        NativeEvent::Focused { focused } => Some(WindowEvent::Focused { focused }),
        NativeEvent::KeyboardInput => Some(WindowEvent::KeyboardInput),
        NativeEvent::ModifiersChanged => Some(WindowEvent::ModifiersChanged),
        NativeEvent::Ime => Some(WindowEvent::Ime),
        NativeEvent::CursorMoved { x_bits, y_bits } => Some(
            WindowEvent::CursorMoved { x_bits, y_bits },
        ),
        NativeEvent::CursorEntered => Some(WindowEvent::CursorEntered),
        NativeEvent::CursorLeft => Some(WindowEvent::CursorLeft),
        NativeEvent::MouseWheel { delta } => match delta {
            ScrollDelta::Lines { x_bits, y_bits } => Some(
                WindowEvent::MouseWheel { delta_x_bits: x_bits, delta_y_bits: y_bits },
            ),
            ScrollDelta::Pixels { x_bits, y_bits } => Some(
                WindowEvent::MouseWheel { delta_x_bits: x_bits, delta_y_bits: y_bits },
            ),
        },
        NativeEvent::MouseInput => Some(WindowEvent::MouseInput),
        NativeEvent::PinchGesture { delta_bits } => Some(
            WindowEvent::PinchGesture { delta_bits },
        ),
        NativeEvent::PanGesture { delta_x_bits, delta_y_bits } => Some(
            WindowEvent::PanGesture { delta_x_bits, delta_y_bits },
        ),
        NativeEvent::DoubleTapGesture => Some(WindowEvent::DoubleTapGesture),
        NativeEvent::RotationGesture { delta_bits } => Some(
            WindowEvent::RotationGesture { delta_bits },
        ),
        NativeEvent::TouchpadPressure { pressure_bits, stage } => Some(
            WindowEvent::TouchpadPressure { pressure_bits, stage },
        ),
        NativeEvent::AxisMotion { axis, value_bits } => Some(
            WindowEvent::AxisMotion { axis, value_bits },
        ),
        NativeEvent::Touch => Some(WindowEvent::Touch),
        NativeEvent::ScaleFactorChanged { scale_factor_bits } => Some(
            WindowEvent::ScaleFactorChanged { scale_factor_bits },
        ),
        NativeEvent::ThemeChanged { theme } => Some(WindowEvent::ThemeChanged { theme }),
        NativeEvent::Occluded { occluded } => Some(WindowEvent::Occluded { occluded }),
        NativeEvent::RedrawRequested => Some(WindowEvent::RedrawRequested),
    }
}

} // verus!
