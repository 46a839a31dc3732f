use rae_app::application::Application;
use rae_app::event::ControlFlow;
use rae_app::event::DeviceEvent;
use rae_app::event::Event;
use rae_app::event::KeyboardInput;
use rae_app::event::PhysicalSize;
use rae_app::event::StartCause;
use rae_app::event::WindowEvent;
use rae_app::handler::EventHandler;
use rae_app::keyboard::ElementState;

/// Logs every hook invocation in order; raises the close flag when a close
/// is requested, and can be told to fail fixed updates.
struct DispatchRecorder {
    log: Vec<String>,
    close_requested: bool,
    fail_fixed_updates: bool,
}

impl DispatchRecorder {
    fn new() -> DispatchRecorder {
        DispatchRecorder { log: Vec::new(), close_requested: false, fail_fixed_updates: false }
    }
}

impl EventHandler<String, u32> for DispatchRecorder {
    fn is_close_requested(&self) -> bool {
        self.close_requested
    }

    fn on_close_requested(&mut self, window_id: u64) -> Result<(), String> {
        self.close_requested = true;
        self.log.push(format!("close_requested {}", window_id));
        Ok(())
    }

    fn on_focus_gained(&mut self, window_id: u64) -> Result<(), String> {
        self.log.push(format!("focus_gained {}", window_id));
        Ok(())
    }

    fn on_focus_lost(&mut self, window_id: u64) -> Result<(), String> {
        self.log.push(format!("focus_lost {}", window_id));
        Ok(())
    }

    fn on_resized(&mut self, window_id: u64, size: PhysicalSize) -> Result<(), String> {
        self.log.push(format!("resized {} {}x{}", window_id, size.width, size.height));
        Ok(())
    }

    fn on_key_pressed(
        &mut self,
        window_id: u64,
        device_id: u64,
        scan_code: u32,
        key_code: Option<u32>,
        is_synthetic: bool,
        is_repeat: bool,
    ) -> Result<(), String> {
        self.log.push(format!(
            "key_pressed {} {} {} {:?} synthetic={} repeat={}",
            window_id, device_id, scan_code, key_code, is_synthetic, is_repeat
        ));
        Ok(())
    }

    fn on_key_released(
        &mut self,
        window_id: u64,
        device_id: u64,
        scan_code: u32,
        key_code: Option<u32>,
        is_synthetic: bool,
    ) -> Result<(), String> {
        self.log.push(format!(
            "key_released {} {} {} {:?} synthetic={}",
            window_id, device_id, scan_code, key_code, is_synthetic
        ));
        Ok(())
    }

    fn on_device_key_pressed(
        &mut self,
        device_id: u64,
        scan_code: u32,
        key_code: Option<u32>,
        is_repeat: bool,
    ) -> Result<(), String> {
        self.log.push(format!(
            "device_key_pressed {} {} {:?} repeat={}",
            device_id, scan_code, key_code, is_repeat
        ));
        Ok(())
    }

    fn on_custom_event(&mut self, event: u32) -> Result<(), String> {
        self.log.push(format!("custom {}", event));
        Ok(())
    }

    fn on_new_events(&mut self, _start_cause: StartCause) -> Result<(), String> {
        self.log.push(String::from("new_events"));
        Ok(())
    }

    fn on_main_events_cleared(&mut self) -> Result<(), String> {
        self.log.push(String::from("main_events_cleared"));
        Ok(())
    }

    fn on_fixed_update(&mut self, dt_nanos: u64) -> Result<(), String> {
        self.log.push(format!("fixed {}", dt_nanos));
        if self.fail_fixed_updates {
            return Err(String::from("fixed update failed"));
        }
        Ok(())
    }

    fn on_variable_update(&mut self, dt_nanos: u64) -> Result<(), String> {
        self.log.push(format!("variable {}", dt_nanos));
        Ok(())
    }
}

fn key_down(window_id: u64, device_id: u64, scan_code: u32) -> Event<u32> {
    Event::WindowEvent {
        window_id,
        event: WindowEvent::KeyboardInput {
            device_id,
            input: KeyboardInput {
                scan_code,
                key_code: Some(40),
                state: ElementState::Pressed,
            },
            is_synthetic: false,
        },
    }
}

#[test]
fn initial_key_down_is_forwarded_once_without_repeat() {
    // An initial key-down reaches on_key_pressed exactly once, marked
    // non-repeat; a second key-down for the same key before any release is
    // marked repeat.
    let mut app = Application::new(10, Some(10));
    let mut handler = DispatchRecorder::new();
    app.start(0);

    let flow = app.run_frame(&mut handler, key_down(1, 2, 30), 0).unwrap();
    assert_eq!(flow, ControlFlow::Continue);
    assert_eq!(handler.log, vec![String::from("key_pressed 1 2 30 Some(40) synthetic=false repeat=false")]);

    app.run_frame(&mut handler, key_down(1, 2, 30), 0).unwrap();
    assert_eq!(handler.log.len(), 2);
    assert_eq!(handler.log[1], "key_pressed 1 2 30 Some(40) synthetic=false repeat=true");
}

#[test]
fn key_release_is_forwarded_without_repeat_flag() {
    let mut app = Application::new(10, Some(10));
    let mut handler = DispatchRecorder::new();
    app.start(0);
    app.run_frame(&mut handler, key_down(1, 2, 30), 0).unwrap();
    let release = Event::WindowEvent {
        window_id: 1,
        event: WindowEvent::KeyboardInput {
            device_id: 2,
            input: KeyboardInput { scan_code: 30, key_code: Some(40), state: ElementState::Released },
            is_synthetic: true,
        },
    };
    app.run_frame(&mut handler, release, 0).unwrap();
    assert_eq!(handler.log[1], "key_released 1 2 30 Some(40) synthetic=true");
}

#[test]
fn device_keys_repeat_independently_of_window_keys() {
    let mut app = Application::new(10, Some(10));
    let mut handler = DispatchRecorder::new();
    app.start(0);
    app.run_frame(&mut handler, key_down(1, 2, 30), 0).unwrap();
    let device_key: Event<u32> = Event::DeviceEvent {
        device_id: 2,
        event: DeviceEvent::Key(KeyboardInput {
            scan_code: 30,
            key_code: Some(40),
            state: ElementState::Pressed,
        }),
    };
    app.run_frame(&mut handler, device_key, 0).unwrap();
    // Same device and scan code, but the device-global scope had not seen
    // the key yet.
    assert_eq!(handler.log[1], "device_key_pressed 2 30 Some(40) repeat=false");
}

#[test]
fn exit_flow_maps_the_close_query() {
    assert_eq!(rae_app::application::exit_flow(true), ControlFlow::Exit);
    assert_eq!(rae_app::application::exit_flow(false), ControlFlow::Continue);
}

#[test]
fn close_request_stops_the_loop_after_the_notification() {
    let mut app = Application::new(10, Some(10));
    let mut handler = DispatchRecorder::new();
    app.start(0);

    let focus: Event<u32> = Event::WindowEvent { window_id: 1, event: WindowEvent::Focused(true) };
    assert_eq!(app.run_frame(&mut handler, focus, 0).unwrap(), ControlFlow::Continue);

    let close: Event<u32> = Event::WindowEvent { window_id: 1, event: WindowEvent::CloseRequested };
    let flow = app.run_frame(&mut handler, close, 0).unwrap();
    // The notification is still processed in full, then the poll of
    // is_close_requested turns the flow to Exit.
    assert_eq!(handler.log[1], "close_requested 1");
    assert_eq!(flow, ControlFlow::Exit);
}

#[test]
fn idle_marker_runs_updates_then_forwards_the_marker() {
    let mut app = Application::new(10, None);
    let mut handler = DispatchRecorder::new();
    app.start(0);
    let flow = app.run_frame(&mut handler, Event::MainEventsCleared, 150_000_000).unwrap();
    assert_eq!(flow, ControlFlow::Continue);
    assert_eq!(
        handler.log,
        vec![
            String::from("fixed 100000000"),
            String::from("variable 150000000"),
            String::from("main_events_cleared"),
        ]
    );
}

#[test]
fn discrete_events_do_not_advance_the_clocks() {
    let mut app = Application::new(10, Some(10));
    let mut handler = DispatchRecorder::new();
    app.start(0);
    let resized: Event<u32> = Event::WindowEvent {
        window_id: 1,
        event: WindowEvent::Resized(PhysicalSize { width: 800, height: 600 }),
    };
    app.run_frame(&mut handler, resized, 500_000_000).unwrap();
    assert_eq!(handler.log, vec![String::from("resized 1 800x600")]);
    assert_eq!(app.last_fixed_update_time(), 0);
    assert_eq!(app.last_variable_update_time(), 0);
}

#[test]
fn unsupported_window_events_are_silently_ignored() {
    let mut app = Application::new(10, Some(10));
    let mut handler = DispatchRecorder::new();
    app.start(0);
    let pressure: Event<u32> = Event::WindowEvent { window_id: 1, event: WindowEvent::TouchpadPressure };
    let theme: Event<u32> = Event::WindowEvent { window_id: 1, event: WindowEvent::ThemeChanged };
    assert_eq!(app.run_frame(&mut handler, pressure, 0).unwrap(), ControlFlow::Continue);
    assert_eq!(app.run_frame(&mut handler, theme, 0).unwrap(), ControlFlow::Continue);
    assert!(handler.log.is_empty());
}

#[test]
fn lifecycle_and_custom_events_reach_their_hooks() {
    let mut app = Application::new(10, Some(10));
    let mut handler = DispatchRecorder::new();
    app.start(0);
    app.run_frame(&mut handler, Event::NewEvents(StartCause::Poll), 0).unwrap();
    app.run_frame(&mut handler, Event::UserEvent(7), 0).unwrap();
    let focus_lost: Event<u32> = Event::WindowEvent { window_id: 3, event: WindowEvent::Focused(false) };
    app.run_frame(&mut handler, focus_lost, 0).unwrap();
    assert_eq!(
        handler.log,
        vec![String::from("new_events"), String::from("custom 7"), String::from("focus_lost 3")]
    );
}

#[test]
fn failing_callback_during_idle_marker_propagates_and_stops_dispatch() {
    // The handler fails on the first fixed update of the batch: no further
    // fixed updates run, the variable update never runs, the idle marker is
    // not forwarded, and the error comes back for the embedding to report
    // before it terminates the loop.
    let mut app = Application::new(10, None);
    let mut handler = DispatchRecorder::new();
    handler.fail_fixed_updates = true;
    app.start(0);
    let result = app.run_frame(&mut handler, Event::MainEventsCleared, 250_000_000);
    assert_eq!(result, Err(String::from("fixed update failed")));
    assert_eq!(handler.log, vec![String::from("fixed 100000000")]);
    assert_eq!(app.last_variable_update_time(), 0);
}
