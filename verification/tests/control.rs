use rusty_boids::control::{
    handle_key, process_event, process_keypress, process_window_event, react, Command,
    ControlEvent, ElementState, Event, Key, WindowEvent,
};

type Point = (f32, f32);

#[test]
fn escape_and_q_stop_the_run() {
    assert_eq!(process_keypress::<Point>(Key::Escape), Some(ControlEvent::Stop));
    assert_eq!(process_keypress::<Point>(Key::Q), Some(ControlEvent::Stop));
}

#[test]
fn other_keys_are_passed_on() {
    assert_eq!(process_keypress::<Point>(Key::R), Some(ControlEvent::Key(Key::R)));
    assert_eq!(process_keypress::<Point>(Key::F), Some(ControlEvent::Key(Key::F)));
    assert_eq!(process_keypress::<Point>(Key::C), Some(ControlEvent::Key(Key::C)));
    assert_eq!(process_keypress::<Point>(Key::Other), Some(ControlEvent::Key(Key::Other)));
}

#[test]
fn pressed_key_is_processed_as_keypress() {
    let pressed = |key| WindowEvent::<Point>::KeyboardInput {
        state: ElementState::Pressed,
        virtual_keycode: Some(key),
    };
    assert_eq!(process_window_event(pressed(Key::Escape)), Some(ControlEvent::Stop));
    assert_eq!(process_window_event(pressed(Key::R)), Some(ControlEvent::Key(Key::R)));
}

#[test]
fn released_or_unknown_key_means_nothing() {
    let released = WindowEvent::<Point>::KeyboardInput {
        state: ElementState::Released,
        virtual_keycode: Some(Key::Q),
    };
    assert_eq!(process_window_event(released), None);
    let unknown = WindowEvent::<Point>::KeyboardInput {
        state: ElementState::Pressed,
        virtual_keycode: None,
    };
    assert_eq!(process_window_event(unknown), None);
}

#[test]
fn moved_cursor_reports_its_position() {
    let event = WindowEvent::CursorMoved { position: (12.5f32, 300.25f32) };
    assert_eq!(process_window_event(event), Some(ControlEvent::MouseMove((12.5, 300.25))));
}

#[test]
fn mouse_button_reports_press_and_release() {
    let down = WindowEvent::<Point>::MouseInput { state: ElementState::Pressed };
    let up = WindowEvent::<Point>::MouseInput { state: ElementState::Released };
    assert_eq!(process_window_event(down), Some(ControlEvent::MousePress));
    assert_eq!(process_window_event(up), Some(ControlEvent::MouseRelease));
}

#[test]
fn closed_window_stops_the_run() {
    assert_eq!(process_window_event(WindowEvent::<Point>::Closed), Some(ControlEvent::Stop));
}

#[test]
fn other_window_events_mean_nothing() {
    assert_eq!(process_window_event(WindowEvent::<Point>::Other), None);
}

#[test]
fn only_window_events_mean_anything() {
    assert_eq!(process_event(Event::<Point>::Other), None);
    assert_eq!(
        process_event(Event::WindowEvent(WindowEvent::<Point>::Closed)),
        Some(ControlEvent::Stop)
    );
    assert_eq!(
        process_event(Event::WindowEvent(WindowEvent::CursorMoved { position: (1.0f32, 2.0f32) })),
        Some(ControlEvent::MouseMove((1.0, 2.0)))
    );
}

#[test]
fn keys_give_their_commands() {
    assert_eq!(handle_key::<Point>(Key::R), Some(Command::Randomise));
    assert_eq!(handle_key::<Point>(Key::F), Some(Command::Zeroise));
    assert_eq!(handle_key::<Point>(Key::C), Some(Command::Centralise));
    assert_eq!(handle_key::<Point>(Key::Other), None);
    assert_eq!(handle_key::<Point>(Key::Escape), None);
    assert_eq!(handle_key::<Point>(Key::Q), None);
}

#[test]
fn stop_ends_the_run_and_gives_no_command() {
    assert_eq!(react::<Point>(true, Some(ControlEvent::Stop)), (false, None));
    assert_eq!(react::<Point>(false, Some(ControlEvent::Stop)), (false, None));
}

#[test]
fn a_stopped_run_stays_stopped() {
    assert_eq!(react::<Point>(false, None), (false, None));
    assert_eq!(
        react::<Point>(false, Some(ControlEvent::MousePress)),
        (false, Some(Command::EnableMouseAttraction))
    );
    assert_eq!(
        react::<Point>(false, Some(ControlEvent::Key(Key::R))),
        (false, Some(Command::Randomise))
    );
}

#[test]
fn events_give_their_commands_while_running() {
    assert_eq!(react::<Point>(true, None), (true, None));
    assert_eq!(
        react::<Point>(true, Some(ControlEvent::Key(Key::C))),
        (true, Some(Command::Centralise))
    );
    assert_eq!(react::<Point>(true, Some(ControlEvent::Key(Key::Other))), (true, None));
    assert_eq!(
        react(true, Some(ControlEvent::MouseMove((3.0f32, 4.0f32)))),
        (true, Some(Command::SetMouse((3.0, 4.0))))
    );
    assert_eq!(
        react::<Point>(true, Some(ControlEvent::MousePress)),
        (true, Some(Command::EnableMouseAttraction))
    );
    assert_eq!(
        react::<Point>(true, Some(ControlEvent::MouseRelease)),
        (true, Some(Command::EnableMouseRepulsion))
    );
}

#[test]
fn a_batch_of_events_is_worked_off_in_order() {
    let events = vec![
        Event::WindowEvent(WindowEvent::CursorMoved { position: (10.0f32, 20.0f32) }),
        Event::Other,
        Event::WindowEvent(WindowEvent::MouseInput { state: ElementState::Pressed }),
        Event::WindowEvent(WindowEvent::KeyboardInput {
            state: ElementState::Pressed,
            virtual_keycode: Some(Key::Q),
        }),
        Event::WindowEvent(WindowEvent::KeyboardInput {
            state: ElementState::Pressed,
            virtual_keycode: Some(Key::F),
        }),
    ];
    let mut running = true;
    let mut commands = Vec::new();
    for event in events {
        let (still_running, command) = react(running, process_event(event));
        running = still_running;
        if let Some(command) = command {
            commands.push(command);
        }
    }
    assert!(!running);
    assert_eq!(
        commands,
        vec![
            Command::SetMouse((10.0, 20.0)),
            Command::EnableMouseAttraction,
            Command::Zeroise,
        ]
    );
}
