//! The pluggable event handler: one hook per event kind, two update hooks,
//! and a close query. Every hook has a default no-op implementation, so a
//! handler overrides only what it cares about.
//!
//! `E` is the handler's own failure type and `C` its custom event payload.
//! Any hook returning `Err` is fatal for the run: the loop reports the error
//! and requests termination, with no retry. Constructing the handler is the
//! embedding's business, since it happens against the host event source
//! before the loop starts.

use vstd::prelude::*;

verus! {

use crate::event::KeyboardInput;
use crate::event::MouseButton;
use crate::event::PhysicalSize;
use crate::event::PixelPosition;
use crate::event::PointBits;
use crate::event::ScrollDelta;
use crate::event::StartCause;
use crate::event::TouchPhase;

pub trait EventHandler<E, C>: Sized {
    /// Polled once after every processed notification; `true` makes the loop
    /// stop after the current iteration.
    fn is_close_requested(&self) -> bool {
        false
    }

    fn on_close_requested(&mut self, _window_id: u64) -> Result<(), E> {
        Ok(())
    }

    fn on_destroyed(&mut self, _window_id: u64) -> Result<(), E> {
        Ok(())
    }

    fn on_focus_gained(&mut self, _window_id: u64) -> Result<(), E> {
        Ok(())
    }

    fn on_focus_lost(&mut self, _window_id: u64) -> Result<(), E> {
        Ok(())
    }

    fn on_resized(&mut self, _window_id: u64, _size: PhysicalSize) -> Result<(), E> {
        Ok(())
    }

    fn on_scale_factor_changed(
        &mut self,
        _window_id: u64,
        _scale_factor_bits: u64,
        _new_inner_size: PhysicalSize,
    ) -> Result<(), E> {
        Ok(())
    }

    fn on_moved(&mut self, _window_id: u64, _position: PixelPosition) -> Result<(), E> {
        Ok(())
    }

    fn on_received_character(&mut self, _window_id: u64, _c: char) -> Result<(), E> {
        Ok(())
    }

    fn on_hovered_file_dropped(&mut self, _window_id: u64, _path: String) -> Result<(), E> {
        Ok(())
    }

    fn on_hovered_file_entered(&mut self, _window_id: u64, _path: String) -> Result<(), E> {
        Ok(())
    }

    fn on_hovered_file_left(&mut self, _window_id: u64) -> Result<(), E> {
        Ok(())
    }

    fn on_key_pressed(
        &mut self,
        _window_id: u64,
        _device_id: u64,
        _scan_code: u32,
        _key_code: Option<u32>,
        _is_synthetic: bool,
        _is_repeat: bool,
    ) -> Result<(), E> {
        Ok(())
    }

    fn on_key_released(
        &mut self,
        _window_id: u64,
        _device_id: u64,
        _scan_code: u32,
        _key_code: Option<u32>,
        _is_synthetic: bool,
    ) -> Result<(), E> {
        Ok(())
    }

    fn on_modifiers_changed(&mut self, _window_id: u64, _modifiers: u32) -> Result<(), E> {
        Ok(())
    }

    fn on_cursor_moved(
        &mut self,
        _window_id: u64,
        _device_id: u64,
        _position: PointBits,
    ) -> Result<(), E> {
        Ok(())
    }

    fn on_cursor_entered(&mut self, _window_id: u64, _device_id: u64) -> Result<(), E> {
        Ok(())
    }

    fn on_cursor_left(&mut self, _window_id: u64, _device_id: u64) -> Result<(), E> {
        Ok(())
    }

    fn on_mouse_button_pressed(
        &mut self,
        _window_id: u64,
        _device_id: u64,
        _button: MouseButton,
    ) -> Result<(), E> {
        Ok(())
    }

    fn on_mouse_button_released(
        &mut self,
        _window_id: u64,
        _device_id: u64,
        _button: MouseButton,
    ) -> Result<(), E> {
        Ok(())
    }

    fn on_scroll(
        &mut self,
        _window_id: u64,
        _device_id: u64,
        _delta: ScrollDelta,
        _phase: TouchPhase,
    ) -> Result<(), E> {
        Ok(())
    }

    fn on_touch(
        &mut self,
        _window_id: u64,
        _device_id: u64,
        _phase: TouchPhase,
        _location: PointBits,
        _force_bits: Option<u64>,
        _id: u64,
    ) -> Result<(), E> {
        Ok(())
    }

    fn on_axis_moved(
        &mut self,
        _window_id: u64,
        _device_id: u64,
        _axis: u32,
        _value_bits: u64,
    ) -> Result<(), E> {
        Ok(())
    }

    fn on_device_added(&mut self, _device_id: u64) -> Result<(), E> {
        Ok(())
    }

    fn on_device_removed(&mut self, _device_id: u64) -> Result<(), E> {
        Ok(())
    }

    fn on_device_cursor_moved(&mut self, _device_id: u64, _position_delta: PointBits) -> Result<(), E> {
        Ok(())
    }

    fn on_device_scroll(&mut self, _device_id: u64, _scroll_delta: ScrollDelta) -> Result<(), E> {
        Ok(())
    }

    fn on_device_axis_moved(&mut self, _device_id: u64, _axis: u32, _value_bits: u64) -> Result<(), E> {
        Ok(())
    }

    fn on_device_button_pressed(&mut self, _device_id: u64, _button: u32) -> Result<(), E> {
        Ok(())
    }

    fn on_device_button_released(&mut self, _device_id: u64, _button: u32) -> Result<(), E> {
        Ok(())
    }

    fn on_device_key_pressed(
        &mut self,
        _device_id: u64,
        _scan_code: u32,
        _key_code: Option<u32>,
        _is_repeat: bool,
    ) -> Result<(), E> {
        Ok(())
    }

    fn on_device_key_released(
        &mut self,
        _device_id: u64,
        _scan_code: u32,
        _key_code: Option<u32>,
    ) -> Result<(), E> {
        Ok(())
    }

    fn on_device_text(&mut self, _device_id: u64, _codepoint: char) -> Result<(), E> {
        Ok(())
    }

    fn on_custom_event(&mut self, _event: C) -> Result<(), E> {
        Ok(())
    }

    fn on_new_events(&mut self, _start_cause: StartCause) -> Result<(), E> {
        Ok(())
    }

    fn on_main_events_cleared(&mut self) -> Result<(), E> {
        Ok(())
    }

    fn on_redraw_requested(&mut self, _window_id: u64) -> Result<(), E> {
        Ok(())
    }

    fn on_redraw_events_cleared(&mut self) -> Result<(), E> {
        Ok(())
    }

    fn on_suspended(&mut self) -> Result<(), E> {
        Ok(())
    }

    fn on_resumed(&mut self) -> Result<(), E> {
        Ok(())
    }

    fn on_event_loop_destroyed(&mut self) -> Result<(), E> {
        Ok(())
    }

    /// The fixed-cadence simulation tick; `dt_nanos` is always exactly the
    /// fixed update period.
    fn on_fixed_update(&mut self, _dt_nanos: u64) -> Result<(), E> {
        Ok(())
    }

    /// The capped-cadence update; `dt_nanos` is the true elapsed time since
    /// the previous variable update that fired.
    fn on_variable_update(&mut self, _dt_nanos: u64) -> Result<(), E> {
        Ok(())
    }
}

} // verus!
