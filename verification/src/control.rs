//! From window events to commands for the running simulation.
//!
//! The types here hold what the control logic reads of a window event.
//! The pointer position is carried along as it comes: its type `P` is the
//! caller's choice, and nothing here looks into it.

use vstd::prelude::*;

verus! {

/// The keys that mean something to the simulator; every other key is
/// `Other`.
#[derive(Clone, Copy, Debug, PartialEq, Eq)]
pub enum Key {
    Escape,
    Q,
    R,
    F,
    C,
    Other,
}

/// Whether a key or a mouse button went down or came up.
#[derive(Clone, Copy, Debug, PartialEq, Eq)]
pub enum ElementState {
    Pressed,
    Released,
}

/// An event of the simulation window.
#[derive(Clone, Copy, Debug, PartialEq, Eq)]
pub enum WindowEvent<P> {
    KeyboardInput { state: ElementState, virtual_keycode: Option<Key> },
    CursorMoved { position: P },
    MouseInput { state: ElementState },
    Closed,
    Other,
}

/// An event that the window system reports.
#[derive(Clone, Copy, Debug, PartialEq, Eq)]
pub enum Event<P> {
    WindowEvent(WindowEvent<P>),
    Other,
}

/// What an event means to the simulator.
#[derive(Clone, Copy, Debug, PartialEq, Eq)]
pub enum ControlEvent<P> {
    Stop,
    Key(Key),
    MouseMove(P),
    MousePress,
    MouseRelease,
}

/// What the simulation is told to do between two ticks.
#[derive(Clone, Copy, Debug, PartialEq, Eq)]
pub enum Command<P> {
    Randomise,
    Zeroise,
    Centralise,
    SetMouse(P),
    EnableMouseAttraction,
    EnableMouseRepulsion,
}

/// What a pressed key means: Escape and Q stop the run, every other key
/// is passed on.
pub open spec fn keypress_meaning<P>(key: Key) -> Option<ControlEvent<P>> {
    if key == Key::Escape || key == Key::Q {
        Some(ControlEvent::Stop)
    } else {
        Some(ControlEvent::Key(key))
    }
}

/// What a window event means: a key that went down and is known means
/// what its keypress means, a moved pointer reports where it is, a mouse
/// button reports whether it went down or came up, and a closed window
/// stops the run. Nothing else means anything.
pub open spec fn window_event_meaning<P>(event: WindowEvent<P>) -> Option<ControlEvent<P>> {
    match event {
        WindowEvent::KeyboardInput { state: ElementState::Pressed, virtual_keycode: Some(key) } => {
            keypress_meaning(key)
        },
        WindowEvent::CursorMoved { position } => Some(ControlEvent::MouseMove(position)),
        WindowEvent::MouseInput { state: ElementState::Pressed } => Some(ControlEvent::MousePress),
        WindowEvent::MouseInput { state: ElementState::Released } => Some(
            ControlEvent::MouseRelease,
        ),
        WindowEvent::Closed => Some(ControlEvent::Stop),
        _ => None,
    }
}

/// What an event means: only window events mean anything.
pub open spec fn event_meaning<P>(event: Event<P>) -> Option<ControlEvent<P>> {
    match event {
        Event::WindowEvent(e) => window_event_meaning(e),
        Event::Other => None,
    }
}

/// The command that a key gives: R scatters the flock, F gathers it at the
/// origin, C gathers it at the centre. No other key gives one.
pub open spec fn key_command<P>(key: Key) -> Option<Command<P>> {
    match key {
        Key::R => Some(Command::Randomise),
        Key::F => Some(Command::Zeroise),
        Key::C => Some(Command::Centralise),
        _ => None,
    }
}

/// The command that follows from what an event means.
pub open spec fn command_for<P>(event: Option<ControlEvent<P>>) -> Option<Command<P>> {
    match event {
        Some(ControlEvent::Key(key)) => key_command(key),
        Some(ControlEvent::MouseMove(position)) => Some(Command::SetMouse(position)),
        Some(ControlEvent::MousePress) => Some(Command::EnableMouseAttraction),
        Some(ControlEvent::MouseRelease) => Some(Command::EnableMouseRepulsion),
        _ => None,
    }
}

/// Whether the run goes on after an event: it does unless it had stopped
/// already or the event stops it.
pub open spec fn runs_on<P>(running: bool, event: Option<ControlEvent<P>>) -> bool {
    running && event != Some(ControlEvent::<P>::Stop)
}

pub fn process_keypress<P>(key: Key) -> (r: Option<ControlEvent<P>>)
    ensures
        r == keypress_meaning::<P>(key),
{
    match key {
        Key::Escape | Key::Q => Some(ControlEvent::Stop),
        _ => Some(ControlEvent::Key(key)),
    }
}

pub fn process_window_event<P>(event: WindowEvent<P>) -> (r: Option<ControlEvent<P>>)
    ensures
        r == window_event_meaning(event),
{
    match event {
        WindowEvent::KeyboardInput { state: ElementState::Pressed, virtual_keycode: Some(k) } => {
            process_keypress(k)
        },
        WindowEvent::CursorMoved { position } => Some(ControlEvent::MouseMove(position)),
        WindowEvent::MouseInput { state: ElementState::Pressed } => Some(ControlEvent::MousePress),
        WindowEvent::MouseInput { state: ElementState::Released } => Some(
            ControlEvent::MouseRelease,
        ),
        WindowEvent::Closed => Some(ControlEvent::Stop),
        _ => None,
    }
}

pub fn process_event<P>(event: Event<P>) -> (r: Option<ControlEvent<P>>)
    ensures
        r == event_meaning(event),
{
    match event {
        Event::WindowEvent(e) => process_window_event(e),
        _ => None,
    }
}

/// The command, if any, that the simulation is given when `key` is
/// pressed.
pub fn handle_key<P>(key: Key) -> (r: Option<Command<P>>)
    ensures
        r == key_command::<P>(key),
{
    match key {
        Key::R => Some(Command::Randomise),
        Key::F => Some(Command::Zeroise),
        Key::C => Some(Command::Centralise),
        _ => None,
    }
}

/// One step of the run between two ticks: takes whether the run is still
/// on and what the next event means, and gives whether the run goes on and
/// the command to carry out.
pub fn react<P>(running: bool, event: Option<ControlEvent<P>>) -> (r: (bool, Option<Command<P>>))
    ensures
        r.0 == runs_on(running, event),
        r.1 == command_for(event),
{
    match event {
        Some(ControlEvent::Stop) => (false, None),
        Some(ControlEvent::Key(k)) => (running, handle_key(k)),
        Some(ControlEvent::MouseMove(position)) => (running, Some(Command::SetMouse(position))),
        Some(ControlEvent::MousePress) => (running, Some(Command::EnableMouseAttraction)),
        Some(ControlEvent::MouseRelease) => (running, Some(Command::EnableMouseRepulsion)),
        None => (running, None),
    }
}

} // verus!
