//! The update loop: fixed-cadence simulation ticks, a capped-cadence
//! variable update, event dispatch and termination detection.
//!
//! Time is a monotonic clock reading in nanoseconds, supplied by the
//! embedding with every notification. The loop never reads a clock itself:
//! everything it does is a function of its own state, the notification and
//! that timestamp.

use vstd::prelude::*;

verus! {

use vstd::arithmetic::div_mod::lemma_fundamental_div_mod_converse_div;

use crate::event::ControlFlow;
use crate::event::DeviceEvent;
use crate::event::Event;
use crate::event::WindowEvent;
use crate::event::event_ignored;
use crate::event::event_wf;
use crate::event::keyboard_observation;
use crate::handler::EventHandler;
use crate::keyboard::ElementState;
use crate::keyboard::KeyboardState;

pub const NANOS_PER_SECOND: u64 = 1_000_000_000;

/// How many fixed updates are due at time `now` for a loop whose last fixed
/// update stands at `last_fixed`: one per whole period elapsed since then.
pub open spec fn fixed_count(last_fixed: int, period: int, now: int) -> int
    recommends
        0 < period,
        last_fixed <= now,
{
    (now - last_fixed) / period
}

/// Where the fixed-update clock stands once the updates due at `now` have
/// run: advanced by whole periods only, so no drift accumulates.
pub open spec fn next_fixed_time(last_fixed: int, period: int, now: int) -> int {
    last_fixed + period * fixed_count(last_fixed, period, now)
}

/// Whether the variable update fires at time `now`: it does when the elapsed
/// time since the last fired variable update exceeds the minimum period, and
/// a minimum period of zero disables the cap so that it always fires.
pub open spec fn variable_fires(last_variable: int, min_period: int, now: int) -> bool {
    min_period == 0 || now - last_variable > min_period
}

/// What one round of the update phase did: how many fixed updates ran, and
/// the elapsed time handed to the variable update if it fired.
#[derive(Clone, Copy, Debug, PartialEq, Eq, Structural)]
pub struct UpdateReport {
    pub fixed_update_count: u64,
    pub variable_update_dt: Option<u64>,
}

/// The application update loop's state: the two update periods, fixed at
/// construction, the two clocks the loop advances, and the keyboard state
/// that keeps repeat detection.
pub struct Application {
    keyboard_state: KeyboardState,
    fixed_update_period: u64,
    variable_update_min_period: u64,
    last_fixed_update_time: u64,
    last_variable_update_time: u64,
}

impl Application {
    /// Nanoseconds between two fixed updates; positive.
    pub closed spec fn spec_fixed_period(self) -> u64 {
        self.fixed_update_period
    }

    /// Least nanoseconds between two variable updates; zero means uncapped.
    pub closed spec fn spec_variable_min_period(self) -> u64 {
        self.variable_update_min_period
    }

    /// The fixed-update clock: start time plus one period per fixed update
    /// run so far.
    pub closed spec fn spec_last_fixed(self) -> u64 {
        self.last_fixed_update_time
    }

    /// When the last variable update fired (or the start time, before any
    /// fired).
    pub closed spec fn spec_last_variable(self) -> u64 {
        self.last_variable_update_time
    }

    pub closed spec fn spec_keyboard(self) -> KeyboardState {
        self.keyboard_state
    }

    pub open spec fn wf(self) -> bool {
        self.spec_fixed_period() > 0 && self.spec_keyboard().wf()
    }

    /// The configuration chosen at construction does not change.
    pub open spec fn config_unchanged(pre: Application, post: Application) -> bool {
        post.spec_fixed_period() == pre.spec_fixed_period()
            && post.spec_variable_min_period() == pre.spec_variable_min_period()
    }

    /// What a completed update phase at time `now` does to the two clocks.
    pub open spec fn timers_updated(pre: Application, post: Application, now: u64) -> bool {
        &&& post.spec_last_fixed() as int == next_fixed_time(
            pre.spec_last_fixed() as int,
            pre.spec_fixed_period() as int,
            now as int,
        )
        &&& if variable_fires(
            pre.spec_last_variable() as int,
            pre.spec_variable_min_period() as int,
            now as int,
        ) {
            post.spec_last_variable() == now
        } else {
            post.spec_last_variable() == pre.spec_last_variable()
        }
    }

    /// What an update phase aborted by a handler failure leaves behind: the
    /// fixed clock advanced by whole periods, at most as many as were due,
    /// and the variable clock either untouched (the variable update did not
    /// fire, or failed) or set to `now` (it fired, and a later hook failed).
    pub open spec fn timers_aborted(pre: Application, post: Application, now: u64) -> bool {
        &&& exists|k: int|
            0 <= k <= fixed_count(
                pre.spec_last_fixed() as int,
                pre.spec_fixed_period() as int,
                now as int,
            ) && post.spec_last_fixed() as int == pre.spec_last_fixed()
                + #[trigger] (pre.spec_fixed_period() * k)
        &&& (post.spec_last_variable() == pre.spec_last_variable() || post.spec_last_variable()
            == now)
    }

    /// A loop that ticks `fixed_update_frequency_hz` times per second, with
    /// the variable update capped at `variable_update_max_frequency_hz` when
    /// given and uncapped otherwise. Frequencies must be positive, and the
    /// fixed frequency at most one tick per nanosecond; both clocks start at
    /// zero, to be reset by [`Application::start`].
    pub fn new(fixed_update_frequency_hz: u64, variable_update_max_frequency_hz: Option<u64>) -> (r: Application)
        requires
            0 < fixed_update_frequency_hz <= NANOS_PER_SECOND,
            variable_update_max_frequency_hz matches Some(v) ==> v > 0,
        ensures
            r.wf(),
            r.spec_fixed_period() == NANOS_PER_SECOND / fixed_update_frequency_hz,
            r.spec_variable_min_period() == (match variable_update_max_frequency_hz {
                Some(v) => NANOS_PER_SECOND / v,
                None => 0,
            }),
            r.spec_last_fixed() == 0,
            r.spec_last_variable() == 0,
            forall|w: Option<u64>, d: u64, s: u32|
                #[trigger] r.spec_keyboard().spec_state(w, d, s) == ElementState::Released,
    {
        let fixed_update_period = NANOS_PER_SECOND / fixed_update_frequency_hz;
        assert(fixed_update_period >= 1) by {
            vstd::arithmetic::div_mod::lemma_div_non_zero(
                NANOS_PER_SECOND as int,
                fixed_update_frequency_hz as int,
            );
        }
        let variable_update_min_period = match variable_update_max_frequency_hz {
            Some(v) => NANOS_PER_SECOND / v,
            None => 0,
        };
        Application {
            keyboard_state: KeyboardState::new(),
            fixed_update_period,
            variable_update_min_period,
            last_fixed_update_time: 0,
            last_variable_update_time: 0,
        }
    }

    pub fn fixed_update_period(&self) -> (r: u64)
        ensures
            r == self.spec_fixed_period(),
    {
        self.fixed_update_period
    }

    pub fn variable_update_min_period(&self) -> (r: u64)
        ensures
            r == self.spec_variable_min_period(),
    {
        self.variable_update_min_period
    }

    pub fn last_fixed_update_time(&self) -> (r: u64)
        ensures
            r == self.spec_last_fixed(),
    {
        self.last_fixed_update_time
    }

    pub fn last_variable_update_time(&self) -> (r: u64)
        ensures
            r == self.spec_last_variable(),
    {
        self.last_variable_update_time
    }

    /// Reset both clocks to the current time, just before the event source
    /// starts delivering: no updates are owed for time spent before the run.
    pub fn start(&mut self, now: u64)
        ensures
            final(self).spec_last_fixed() == now,
            final(self).spec_last_variable() == now,
            Self::config_unchanged(*old(self), *final(self)),
            final(self).spec_keyboard() == old(self).spec_keyboard(),
            old(self).wf() ==> final(self).wf(),
    {
        self.last_fixed_update_time = now;
        self.last_variable_update_time = now;
    }

    /// The update phase, run on each idle marker. While a whole fixed period
    /// has elapsed, runs one fixed update with exactly one period as its dt
    /// and advances the fixed clock by exactly one period — catching up with
    /// as many back-to-back ticks as are due, never skipping and never
    /// drifting. Then, if the elapsed time since the last fired variable
    /// update exceeds the cap (or there is no cap), runs the variable update
    /// once with that true elapsed time. A handler failure aborts the phase
    /// at once.
    pub fn update<E, C, H: EventHandler<E, C>>(&mut self, event_handler: &mut H, now: u64) -> (r: Result<
        UpdateReport,
        E,
    >)
        requires
            old(self).wf(),
            now >= old(self).spec_last_fixed(),
            now >= old(self).spec_last_variable(),
        ensures
            final(self).wf(),
            Self::config_unchanged(*old(self), *final(self)),
            final(self).spec_keyboard() == old(self).spec_keyboard(),
            final(self).spec_last_fixed() <= now,
            final(self).spec_last_variable() <= now,
            match r {
                Ok(report) => {
                    &&& Self::timers_updated(*old(self), *final(self), now)
                    &&& report.fixed_update_count as int == fixed_count(
                        old(self).spec_last_fixed() as int,
                        old(self).spec_fixed_period() as int,
                        now as int,
                    )
                    &&& report.variable_update_dt == (if variable_fires(
                        old(self).spec_last_variable() as int,
                        old(self).spec_variable_min_period() as int,
                        now as int,
                    ) {
                        Some((now - old(self).spec_last_variable()) as u64)
                    } else {
                        None::<u64>
                    })
                },
                Err(_) => {
                    // With no later hook in this phase, a failure always
                    // leaves the variable clock untouched.
                    &&& Self::timers_aborted(*old(self), *final(self), now)
                    &&& final(self).spec_last_variable() == old(self).spec_last_variable()
                },
            },
            // Failure can only come out of a handler hook, so a round that
            // owes no fixed update and fires no variable update cannot fail.
            fixed_count(
                old(self).spec_last_fixed() as int,
                old(self).spec_fixed_period() as int,
                now as int,
            ) == 0 && !variable_fires(
                old(self).spec_last_variable() as int,
                old(self).spec_variable_min_period() as int,
                now as int,
            ) ==> r matches Ok(_),
    {
        let ghost pre = *self;
        let mut fixed_update_count: u64 = 0;
        while now - self.last_fixed_update_time >= self.fixed_update_period
            invariant
                pre == *old(self),
                pre.wf(),
                self.fixed_update_period == pre.fixed_update_period,
                self.variable_update_min_period == pre.variable_update_min_period,
                self.last_variable_update_time == pre.last_variable_update_time,
                self.keyboard_state == pre.keyboard_state,
                pre.last_fixed_update_time <= self.last_fixed_update_time <= now,
                now >= pre.last_variable_update_time,
                self.last_fixed_update_time as int == pre.last_fixed_update_time
                    + pre.fixed_update_period * fixed_update_count,
            decreases now - self.last_fixed_update_time,
        {
            match event_handler.on_fixed_update(self.fixed_update_period) {
                Ok(()) => {},
                Err(e) => {
                    proof {
                        let p = pre.fixed_update_period as int;
                        let c = fixed_update_count as int;
                        // The loop was entered, so at least one whole period
                        // had elapsed and at least one fixed update was due.
                        vstd::arithmetic::div_mod::lemma_div_non_zero(
                            now - pre.last_fixed_update_time,
                            p,
                        );
                        assert(p * c <= now - pre.last_fixed_update_time);
                        vstd::arithmetic::div_mod::lemma_div_is_ordered(
                            p * c,
                            now - pre.last_fixed_update_time,
                            p,
                        );
                        vstd::arithmetic::div_mod::lemma_div_by_multiple(c, p);
                        assert(c <= fixed_count(
                            pre.last_fixed_update_time as int,
                            p,
                            now as int,
                        ));
                        assert(self.last_fixed_update_time as int == pre.last_fixed_update_time
                            + pre.fixed_update_period * c);
                    }
                    return Err(e);
                },
            }
            proof {
                let p = pre.fixed_update_period as int;
                let c = fixed_update_count as int;
                assert(p * (c + 1) == p * c + p) by (nonlinear_arith);
                assert(c + 1 <= p * (c + 1)) by (nonlinear_arith)
                    requires
                        p >= 1,
                        c + 1 >= 1,
                ;
            }
            fixed_update_count = fixed_update_count + 1;
            self.last_fixed_update_time = self.last_fixed_update_time + self.fixed_update_period;
        }
        proof {
            lemma_fundamental_div_mod_converse_div(
                now - pre.last_fixed_update_time,
                pre.fixed_update_period as int,
                fixed_update_count as int,
                now - self.last_fixed_update_time,
            );
        }
        let elapsed = now - self.last_variable_update_time;
        let mut variable_update_dt: Option<u64> = None;
        if self.variable_update_min_period == 0 || elapsed > self.variable_update_min_period {
            match event_handler.on_variable_update(elapsed) {
                Ok(()) => {},
                Err(e) => {
                    return Err(e);
                },
            }
            self.last_variable_update_time = now;
            variable_update_dt = Some(elapsed);
        }
        Ok(UpdateReport { fixed_update_count, variable_update_dt })
    }

    /// Process one notification from the event source. A discrete event is
    /// classified by kind and forwarded to the one matching handler hook —
    /// keyboard input first passes through the keyboard state to earn its
    /// repeat flag, and event kinds the platforms do not all support are
    /// silently ignored. The idle marker runs the update phase and then
    /// forwards `on_main_events_cleared`. The first handler failure is
    /// returned at once: nothing further is dispatched for this
    /// notification.
    pub fn handle_event<E, C, H: EventHandler<E, C>>(
        &mut self,
        event_handler: &mut H,
        event: Event<C>,
        now: u64,
    ) -> (r: Result<(), E>)
        requires
            old(self).wf(),
            event_wf(event),
            now >= old(self).spec_last_fixed(),
            now >= old(self).spec_last_variable(),
        ensures
            final(self).wf(),
            Self::config_unchanged(*old(self), *final(self)),
            final(self).spec_last_fixed() <= now,
            final(self).spec_last_variable() <= now,
            crate::keyboard::keyboard_updated(
                old(self).spec_keyboard(),
                final(self).spec_keyboard(),
                keyboard_observation(event),
            ),
            !(event matches Event::MainEventsCleared) ==> final(self).spec_last_fixed() == old(
                self,
            ).spec_last_fixed() && final(self).spec_last_variable() == old(
                self,
            ).spec_last_variable(),
            event matches Event::MainEventsCleared ==> match r {
                Ok(_) => Self::timers_updated(*old(self), *final(self), now),
                Err(_) => Self::timers_aborted(*old(self), *final(self), now),
            },
            // Unsupported kinds are ignored silently: never an error.
            event_ignored(event) ==> r matches Ok(_),
    {
        match event {
            Event::NewEvents(start_cause) => event_handler.on_new_events(start_cause),
            Event::UserEvent(custom) => event_handler.on_custom_event(custom),
            Event::Suspended => event_handler.on_suspended(),
            Event::Resumed => event_handler.on_resumed(),
            Event::MainEventsCleared => {
                match self.update(event_handler, now) {
                    Ok(_report) => {
                        proof {
                            let due = fixed_count(
                                old(self).spec_last_fixed() as int,
                                old(self).spec_fixed_period() as int,
                                now as int,
                            );
                            assert(self.spec_last_fixed() as int == old(self).spec_last_fixed()
                                + old(self).spec_fixed_period() * due);
                        }
                        event_handler.on_main_events_cleared()
                    },
                    Err(e) => Err(e),
                }
            },
            Event::RedrawRequested(window_id) => event_handler.on_redraw_requested(window_id),
            Event::RedrawEventsCleared => event_handler.on_redraw_events_cleared(),
            Event::LoopDestroyed => event_handler.on_event_loop_destroyed(),
            Event::WindowEvent { window_id, event } => match event {
                WindowEvent::CloseRequested => event_handler.on_close_requested(window_id),
                WindowEvent::Destroyed => event_handler.on_destroyed(window_id),
                WindowEvent::Focused(focused) => {
                    if focused {
                        event_handler.on_focus_gained(window_id)
                    } else {
                        event_handler.on_focus_lost(window_id)
                    }
                },
                WindowEvent::Resized(size) => event_handler.on_resized(window_id, size),
                WindowEvent::ScaleFactorChanged { scale_factor_bits, new_inner_size } =>
                    event_handler.on_scale_factor_changed(
                    window_id,
                    scale_factor_bits,
                    new_inner_size,
                ),
                WindowEvent::Moved(position) => event_handler.on_moved(window_id, position),
                WindowEvent::ReceivedCharacter(c) => event_handler.on_received_character(
                    window_id,
                    c,
                ),
                WindowEvent::DroppedFile(path) => event_handler.on_hovered_file_dropped(
                    window_id,
                    path,
                ),
                WindowEvent::HoveredFile(path) => event_handler.on_hovered_file_entered(
                    window_id,
                    path,
                ),
                WindowEvent::HoveredFileCancelled => event_handler.on_hovered_file_left(window_id),
                WindowEvent::KeyboardInput { device_id, input, is_synthetic } => {
                    let is_repeat = self.keyboard_state.transition(
                        Some(window_id),
                        device_id,
                        input.scan_code,
                        input.state,
                    );
                    match input.state {
                        ElementState::Pressed => event_handler.on_key_pressed(
                            window_id,
                            device_id,
                            input.scan_code,
                            input.key_code,
                            is_synthetic,
                            is_repeat,
                        ),
                        ElementState::Released => event_handler.on_key_released(
                            window_id,
                            device_id,
                            input.scan_code,
                            input.key_code,
                            is_synthetic,
                        ),
                    }
                },
                WindowEvent::ModifiersChanged(modifiers) => event_handler.on_modifiers_changed(
                    window_id,
                    modifiers,
                ),
                WindowEvent::CursorMoved { device_id, position } => event_handler.on_cursor_moved(
                    window_id,
                    device_id,
                    position,
                ),
                WindowEvent::CursorEntered { device_id } => event_handler.on_cursor_entered(
                    window_id,
                    device_id,
                ),
                WindowEvent::CursorLeft { device_id } => event_handler.on_cursor_left(
                    window_id,
                    device_id,
                ),
                WindowEvent::MouseInput { device_id, state, button } => match state {
                    ElementState::Pressed => event_handler.on_mouse_button_pressed(
                        window_id,
                        device_id,
                        button,
                    ),
                    ElementState::Released => event_handler.on_mouse_button_released(
                        window_id,
                        device_id,
                        button,
                    ),
                },
                WindowEvent::MouseWheel { device_id, delta, phase } => event_handler.on_scroll(
                    window_id,
                    device_id,
                    delta,
                    phase,
                ),
                WindowEvent::Touch { device_id, phase, location, force_bits, id } => event_handler
                    .on_touch(window_id, device_id, phase, location, force_bits, id),
                WindowEvent::AxisMotion { device_id, axis, value_bits } => event_handler
                    .on_axis_moved(window_id, device_id, axis, value_bits),
                WindowEvent::TouchpadPressure => Ok(()),
                WindowEvent::ThemeChanged => Ok(()),
            },
            Event::DeviceEvent { device_id, event } => match event {
                DeviceEvent::Added => event_handler.on_device_added(device_id),
                DeviceEvent::Removed => event_handler.on_device_removed(device_id),
                DeviceEvent::MouseMotion { delta } => event_handler.on_device_cursor_moved(
                    device_id,
                    delta,
                ),
                DeviceEvent::MouseWheel { delta } => event_handler.on_device_scroll(
                    device_id,
                    delta,
                ),
                DeviceEvent::Motion { axis, value_bits } => event_handler.on_device_axis_moved(
                    device_id,
                    axis,
                    value_bits,
                ),
                DeviceEvent::Button { button, state } => match state {
                    ElementState::Pressed => event_handler.on_device_button_pressed(
                        device_id,
                        button,
                    ),
                    ElementState::Released => event_handler.on_device_button_released(
                        device_id,
                        button,
                    ),
                },
                DeviceEvent::Key(input) => {
                    let is_repeat = self.keyboard_state.transition(
                        None,
                        device_id,
                        input.scan_code,
                        input.state,
                    );
                    match input.state {
                        ElementState::Pressed => event_handler.on_device_key_pressed(
                            device_id,
                            input.scan_code,
                            input.key_code,
                            is_repeat,
                        ),
                        ElementState::Released => event_handler.on_device_key_released(
                            device_id,
                            input.scan_code,
                            input.key_code,
                        ),
                    }
                },
                DeviceEvent::Text { codepoint } => event_handler.on_device_text(
                    device_id,
                    codepoint,
                ),
            },
        }
    }

    /// Process one notification, then poll the handler's close query: the
    /// returned flow is `Exit` exactly when the handler wants to stop, and a
    /// handler failure is passed through for the embedding to report before
    /// it terminates the run.
    pub fn run_frame<E, C, H: EventHandler<E, C>>(
        &mut self,
        event_handler: &mut H,
        event: Event<C>,
        now: u64,
    ) -> (r: Result<ControlFlow, E>)
        requires
            old(self).wf(),
            event_wf(event),
            now >= old(self).spec_last_fixed(),
            now >= old(self).spec_last_variable(),
        ensures
            final(self).wf(),
            Self::config_unchanged(*old(self), *final(self)),
            final(self).spec_last_fixed() <= now,
            final(self).spec_last_variable() <= now,
            crate::keyboard::keyboard_updated(
                old(self).spec_keyboard(),
                final(self).spec_keyboard(),
                keyboard_observation(event),
            ),
            !(event matches Event::MainEventsCleared) ==> final(self).spec_last_fixed() == old(
                self,
            ).spec_last_fixed() && final(self).spec_last_variable() == old(
                self,
            ).spec_last_variable(),
            event matches Event::MainEventsCleared ==> match r {
                Ok(_) => Self::timers_updated(*old(self), *final(self), now),
                Err(_) => Self::timers_aborted(*old(self), *final(self), now),
            },
            // Unsupported kinds are ignored silently: never an error.
            event_ignored(event) ==> r matches Ok(_),
    {
        match self.handle_event(event_handler, event, now) {
            Ok(()) => {},
            Err(e) => {
                return Err(e);
            },
        }
        Ok(exit_flow(event_handler.is_close_requested()))
    }
}

/// The loop's termination rule: a raised close query turns the flow to
/// `Exit`, so the event source stops after the current iteration; otherwise
/// the loop keeps polling. [`Application::run_frame`] applies it to the
/// handler's answer after every processed notification.
pub fn exit_flow(close_requested: bool) -> (r: ControlFlow)
    ensures
        r == (if close_requested {
            ControlFlow::Exit
        } else {
            ControlFlow::Continue
        }),
{
    if close_requested {
        ControlFlow::Exit
    } else {
        ControlFlow::Continue
    }
}

/// Where the fixed-update clock stands after a sequence of completed update
/// phases, one per idle marker.
pub open spec fn fixed_time_after(last_fixed: int, period: int, nows: Seq<int>) -> int
    decreases nows.len(),
{
    if nows.len() == 0 {
        last_fixed
    } else {
        fixed_time_after(next_fixed_time(last_fixed, period, nows[0]), period, nows.drop_first())
    }
}

/// How many fixed updates a sequence of completed update phases runs in
/// total.
pub open spec fn total_fixed_count(last_fixed: int, period: int, nows: Seq<int>) -> int
    decreases nows.len(),
{
    if nows.len() == 0 {
        0
    } else {
        fixed_count(last_fixed, period, nows[0]) + total_fixed_count(
            next_fixed_time(last_fixed, period, nows[0]),
            period,
            nows.drop_first(),
        )
    }
}

/// The times of a monotonic clock: `t0` no later than the first reading, and
/// readings never decreasing.
pub open spec fn nondecreasing_from(t0: int, nows: Seq<int>) -> bool {
    &&& nows.len() > 0 ==> t0 <= nows[0]
    &&& forall|i: int| 0 <= i < nows.len() - 1 ==> #[trigger] nows[i] <= nows[i + 1]
}

/// One completed update phase advances the fixed clock by whole periods to
/// within one period of `now`, and splitting the elapsed time at such a
/// point loses no fixed update: the counts before and after add up exactly.
proof fn lemma_fixed_count_telescopes(last_fixed: int, period: int, n1: int, n2: int)
    requires
        period > 0,
        last_fixed <= n1 <= n2,
    ensures
        last_fixed <= next_fixed_time(last_fixed, period, n1) <= n1,
        fixed_count(last_fixed, period, n1) + fixed_count(
            next_fixed_time(last_fixed, period, n1),
            period,
            n2,
        ) == fixed_count(last_fixed, period, n2),
{
    let c1 = fixed_count(last_fixed, period, n1);
    let t1 = next_fixed_time(last_fixed, period, n1);
    vstd::arithmetic::div_mod::lemma_fundamental_div_mod(n1 - last_fixed, period);
    vstd::arithmetic::div_mod::lemma_mod_division_less_than_divisor(n1 - last_fixed, period);
    vstd::arithmetic::div_mod::lemma_div_pos_is_pos(n1 - last_fixed, period);
    vstd::arithmetic::div_mod::lemma_hoist_over_denominator(n2 - t1, c1, period as nat);
    assert(n2 - t1 + c1 * period == n2 - last_fixed) by (nonlinear_arith)
        requires
            t1 == last_fixed + period * c1,
    ;
}

/// A monotonic clock's last reading is no earlier than its start.
proof fn lemma_nondecreasing_last(t0: int, nows: Seq<int>)
    requires
        nows.len() > 0,
        nondecreasing_from(t0, nows),
    ensures
        t0 <= nows.last(),
    decreases nows.len(),
{
    if nows.len() > 1 {
        let rest = nows.drop_first();
        assert(forall|i: int| 0 <= i < rest.len() ==> #[trigger] rest[i] == nows[i + 1]);
        assert(nondecreasing_from(nows[0], rest));
        lemma_nondecreasing_last(nows[0], rest);
        assert(rest.last() == nows.last());
    }
}

/// Law of the fixed-rate clock. Across any sequence of idle markers read
/// from a monotonic clock, the completed update phases run exactly
/// `floor((now - t0) / period)` fixed updates in total, where `t0` is where
/// the fixed clock started and `now` is the last reading — however the
/// readings are spaced, with no drift accumulating across phases. Each of
/// those updates receives exactly one period as its `dt`, as
/// [`Application::update`] ensures.
pub proof fn lemma_fixed_updates_no_drift(last_fixed: int, period: int, nows: Seq<int>)
    requires
        period > 0,
        nows.len() > 0,
        nondecreasing_from(last_fixed, nows),
    ensures
        total_fixed_count(last_fixed, period, nows) == fixed_count(
            last_fixed,
            period,
            nows.last(),
        ),
        fixed_time_after(last_fixed, period, nows) == next_fixed_time(
            last_fixed,
            period,
            nows.last(),
        ),
    decreases nows.len(),
{
    let t1 = next_fixed_time(last_fixed, period, nows[0]);
    let rest = nows.drop_first();
    lemma_fixed_count_telescopes(last_fixed, period, nows[0], nows[0]);
    if nows.len() == 1 {
        assert(rest.len() == 0);
        assert(total_fixed_count(t1, period, rest) == 0);
        assert(fixed_time_after(t1, period, rest) == t1);
        assert(nows.last() == nows[0]);
    } else {
        assert(forall|i: int| 0 <= i < rest.len() ==> #[trigger] rest[i] == nows[i + 1]);
        assert(rest.last() == nows.last());
        assert(nondecreasing_from(t1, rest));
        assert(nondecreasing_from(nows[0], rest));
        lemma_nondecreasing_last(nows[0], rest);
        lemma_fixed_count_telescopes(last_fixed, period, nows[0], nows.last());
        lemma_fixed_updates_no_drift(t1, period, rest);
        let c1 = fixed_count(last_fixed, period, nows[0]);
        let c2 = fixed_count(t1, period, nows.last());
        assert(period * (c1 + c2) == period * c1 + period * c2) by (nonlinear_arith);
    }
}

/// Where the variable-update clock stands after `now`: moved to `now` when
/// the update fires there, held otherwise.
pub open spec fn next_variable_time(last_variable: int, min_period: int, now: int) -> int {
    if variable_fires(last_variable, min_period, now) {
        now
    } else {
        last_variable
    }
}

/// Where the variable-update clock stands after a sequence of completed
/// update phases, one per idle marker.
pub open spec fn variable_time_after(last_variable: int, min_period: int, nows: Seq<int>) -> int
    decreases nows.len(),
{
    if nows.len() == 0 {
        last_variable
    } else {
        variable_time_after(
            next_variable_time(last_variable, min_period, nows[0]),
            min_period,
            nows.drop_first(),
        )
    }
}

/// Law of the variable-update reference point. While the cap keeps the
/// variable update from firing, the recorded time of the last fired variable
/// update does not move: the elapsed time keeps accumulating toward the next
/// fire instead of being measured from the latest idle marker. Hence when
/// the update finally fires at time `now`, the `dt` it receives — `now`
/// minus that recorded time, as [`Application::update`] ensures — is the
/// true elapsed wall time since the previous fired variable update.
pub proof fn lemma_variable_clock_holds(last_variable: int, min_period: int, nows: Seq<int>)
    requires
        forall|i: int| 0 <= i < nows.len() ==> !variable_fires(
            last_variable,
            min_period,
            #[trigger] nows[i],
        ),
    ensures
        variable_time_after(last_variable, min_period, nows) == last_variable,
    decreases nows.len(),
{
    if nows.len() > 0 {
        assert(!variable_fires(last_variable, min_period, nows[0]));
        let rest = nows.drop_first();
        assert(forall|i: int|
            0 <= i < rest.len() ==> #[trigger] rest[i] == nows[i + 1]);
        lemma_variable_clock_holds(last_variable, min_period, rest);
    }
}

/// Law of the uncapped variable update: with a minimum period of zero, the
/// variable update fires on every idle marker.
pub proof fn lemma_uncapped_variable_always_fires(last_variable: int, now: int)
    ensures
        variable_fires(last_variable, 0, now),
{
}

} // verus!
