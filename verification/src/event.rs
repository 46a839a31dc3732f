//! The notification stream that the host event source delivers, modelled
//! with plain values.
//!
//! Window and device identifiers are opaque to the host platform; here each
//! is a `u64` chosen by the embedding. Coordinates, deltas, scale factors and
//! axis values are continuous quantities that the loop forwards untouched, so
//! they are carried as the bit patterns of the host's binary64 (fields named
//! `*_bits`) or binary32 (`LineDelta`) values: no information is lost and the
//! verified core never computes with them.

use vstd::prelude::*;

verus! {

use crate::keyboard::ElementState;
use crate::keyboard::SCAN_CODE_LIMIT;

/// Why a new batch of events started.
#[derive(Clone, Copy, Debug, PartialEq, Eq, Structural)]
pub enum StartCause {
    ResumeTimeReached,
    WaitCancelled,
    Poll,
    Init,
}

/// A physical size in pixels.
#[derive(Clone, Copy, Debug, PartialEq, Eq, Structural)]
pub struct PhysicalSize {
    pub width: u32,
    pub height: u32,
}

/// A physical position in whole pixels.
#[derive(Clone, Copy, Debug, PartialEq, Eq, Structural)]
pub struct PixelPosition {
    pub x: i32,
    pub y: i32,
}

/// A position or delta with sub-pixel precision, carried as two binary64 bit
/// patterns.
#[derive(Clone, Copy, Debug, PartialEq, Eq, Structural)]
pub struct PointBits {
    pub x_bits: u64,
    pub y_bits: u64,
}

/// A scroll amount: whole lines (two binary32 bit patterns) or exact pixels.
#[derive(Clone, Copy, Debug, PartialEq, Eq, Structural)]
pub enum ScrollDelta {
    LineDelta { x_bits: u32, y_bits: u32 },
    PixelDelta(PointBits),
}

/// The phase of a touch gesture.
#[derive(Clone, Copy, Debug, PartialEq, Eq, Structural)]
pub enum TouchPhase {
    Started,
    Moved,
    Ended,
    Cancelled,
}

/// A mouse button.
#[derive(Clone, Copy, Debug, PartialEq, Eq, Structural)]
pub enum MouseButton {
    Left,
    Right,
    Middle,
    Other(u16),
}

/// One raw keyboard notification: a physical scan code, the key code the
/// platform mapped it to if any, and the observed key state.
#[derive(Clone, Copy, Debug, PartialEq, Eq, Structural)]
pub struct KeyboardInput {
    pub scan_code: u32,
    pub key_code: Option<u32>,
    pub state: ElementState,
}

/// An event scoped to one window.
#[derive(Debug)]
pub enum WindowEvent {
    CloseRequested,
    Destroyed,
    Focused(bool),
    Resized(PhysicalSize),
    ScaleFactorChanged { scale_factor_bits: u64, new_inner_size: PhysicalSize },
    Moved(PixelPosition),
    ReceivedCharacter(char),
    DroppedFile(String),
    HoveredFile(String),
    HoveredFileCancelled,
    KeyboardInput { device_id: u64, input: KeyboardInput, is_synthetic: bool },
    ModifiersChanged(u32),
    CursorMoved { device_id: u64, position: PointBits },
    CursorEntered { device_id: u64 },
    CursorLeft { device_id: u64 },
    MouseInput { device_id: u64, state: ElementState, button: MouseButton },
    MouseWheel { device_id: u64, delta: ScrollDelta, phase: TouchPhase },
    Touch { device_id: u64, phase: TouchPhase, location: PointBits, force_bits: Option<u64>, id: u64 },
    AxisMotion { device_id: u64, axis: u32, value_bits: u64 },
    /// Not universally supported by the host platforms; ignored.
    TouchpadPressure,
    /// Not universally supported by the host platforms; ignored.
    ThemeChanged,
}

/// An event scoped to one input device, outside any window focus.
#[derive(Debug)]
pub enum DeviceEvent {
    Added,
    Removed,
    MouseMotion { delta: PointBits },
    MouseWheel { delta: ScrollDelta },
    Motion { axis: u32, value_bits: u64 },
    Button { button: u32, state: ElementState },
    Key(KeyboardInput),
    Text { codepoint: char },
}

/// One notification from the host event source, in arrival order: a discrete
/// window, device or lifecycle event, an opaque user-defined payload, or the
/// idle marker `MainEventsCleared` meaning no more events are pending right
/// now.
#[derive(Debug)]
pub enum Event<C> {
    NewEvents(StartCause),
    WindowEvent { window_id: u64, event: WindowEvent },
    DeviceEvent { device_id: u64, event: DeviceEvent },
    UserEvent(C),
    Suspended,
    Resumed,
    MainEventsCleared,
    RedrawRequested(u64),
    RedrawEventsCleared,
    LoopDestroyed,
}

/// Whether the loop should keep polling the event source or stop after the
/// current iteration.
#[derive(Clone, Copy, Debug, PartialEq, Eq, Structural)]
pub enum ControlFlow {
    Continue,
    Exit,
}

/// The platform assumption every notification must meet: keyboard inputs stay
/// below [`SCAN_CODE_LIMIT`]. A scan code at or above it is a contract
/// violation of the event source, fatal and not recoverable.
pub open spec fn event_wf<C>(event: Event<C>) -> bool {
    match event {
        Event::WindowEvent { event: WindowEvent::KeyboardInput { input, .. }, .. } =>
            input.scan_code < SCAN_CODE_LIMIT,
        Event::DeviceEvent { event: DeviceEvent::Key(input), .. } =>
            input.scan_code < SCAN_CODE_LIMIT,
        _ => true,
    }
}

/// Event kinds the host platforms do not all support: the loop ignores them
/// silently — they reach no handler hook and are never an error.
pub open spec fn event_ignored<C>(event: Event<C>) -> bool {
    match event {
        Event::WindowEvent { event: WindowEvent::TouchpadPressure, .. } => true,
        Event::WindowEvent { event: WindowEvent::ThemeChanged, .. } => true,
        _ => false,
    }
}

/// The key observation a notification carries, if any: the scope (a window
/// for window-scoped keyboard input, device-global for raw device keys), the
/// device, the scan code and the observed state. Window-scoped and
/// device-scoped observations use distinct scopes and never share repeat
/// detection.
pub open spec fn keyboard_observation<C>(event: Event<C>) -> Option<(Option<u64>, u64, u32, ElementState)> {
    match event {
        Event::WindowEvent {
            window_id,
            event: WindowEvent::KeyboardInput { device_id, input, .. },
        } => Some((Some(window_id), device_id, input.scan_code, input.state)),
        Event::DeviceEvent { device_id, event: DeviceEvent::Key(input) } => Some(
            (None, device_id, input.scan_code, input.state),
        ),
        _ => None,
    }
}

} // verus!
