//! How the application reacts to the events of the window system's event
//! loop. The reaction depends on the event and on whether the GPU state
//! (window, surface, device and buffers) has been created yet.
use vstd::prelude::*;
use crate::controls::{Key, Command, key_command, command_for_key};

verus! {

/// The window events the application tells apart.
#[derive(Clone, Copy, Debug, PartialEq, Eq, Structural)]
pub enum WindowEventKind {
    CloseRequested,
    Destroyed,
    /// A key was pressed or released.
    KeyboardInput(Key),
    RedrawRequested,
    Other,
}

/// The events of the event loop the application handles.
#[derive(Clone, Copy, Debug, PartialEq, Eq, Structural)]
pub enum LoopEvent {
    /// The application may create its window and render.
    Resumed,
    Window(WindowEventKind),
    /// The event loop is about to wait for new events.
    AboutToWait,
}

/// What the application does in response to an event.
#[derive(Clone, Copy, Debug, PartialEq, Eq, Structural)]
pub enum Reaction {
    /// Create the window, the starting balls and the GPU state.
    CreateWindow,
    /// Leave the event loop.
    Exit,
    /// Carry out a keyboard command on the parameters.
    Control(Command),
    /// Run one compute pass, render the balls, and ask for the next redraw.
    Frame,
    /// Ask the window for a redraw.
    RequestRedraw,
    Nothing,
}

/// The reaction to `event` when `ready` tells whether the GPU state exists.
/// Closing or destroying the window always exits and resuming always
/// (re)creates the window; before the GPU state exists nothing else
/// happens; afterwards a key press runs the key's command, a redraw request
/// renders a frame, and waiting for events asks for another redraw.
pub fn react(event: LoopEvent, ready: bool) -> (reaction: Reaction)
    ensures
        event == LoopEvent::Resumed ==> reaction == Reaction::CreateWindow,
        event == LoopEvent::Window(WindowEventKind::CloseRequested) ==> reaction == Reaction::Exit,
        event == LoopEvent::Window(WindowEventKind::Destroyed) ==> reaction == Reaction::Exit,
        event == LoopEvent::Window(WindowEventKind::Other) ==> reaction == Reaction::Nothing,
        !ready && event != LoopEvent::Resumed
            && event != LoopEvent::Window(WindowEventKind::CloseRequested)
            && event != LoopEvent::Window(WindowEventKind::Destroyed) ==> reaction == Reaction::Nothing,
        ready ==> (event matches LoopEvent::Window(WindowEventKind::KeyboardInput(key))
            ==> reaction == Reaction::Control(key_command(key))),
        ready && event == LoopEvent::Window(WindowEventKind::RedrawRequested) ==> reaction == Reaction::Frame,
        ready && event == LoopEvent::AboutToWait ==> reaction == Reaction::RequestRedraw,
{
    match event {
        LoopEvent::Resumed => Reaction::CreateWindow,
        LoopEvent::Window(WindowEventKind::CloseRequested) | LoopEvent::Window(WindowEventKind::Destroyed) => Reaction::Exit,
        LoopEvent::Window(WindowEventKind::KeyboardInput(key)) => {
            if ready {
                Reaction::Control(command_for_key(key))
            } else {
                Reaction::Nothing
            }
        },
        LoopEvent::Window(WindowEventKind::RedrawRequested) => {
            if ready {
                Reaction::Frame
            } else {
                Reaction::Nothing
            }
        },
        LoopEvent::Window(WindowEventKind::Other) => Reaction::Nothing,
        LoopEvent::AboutToWait => {
            if ready {
                Reaction::RequestRedraw
            } else {
                Reaction::Nothing
            }
        },
    }
}

} // verus!
