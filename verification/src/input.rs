use vstd::prelude::*;

verus! {

/// The keys the visualizer reacts to. Every other key is `Other`.
#[derive(Clone, Copy, Debug, PartialEq, Eq, Structural)]
pub enum Key {
    /// Raises the magnitude of the next charge by one elementary charge.
    Equals,
    /// Lowers the magnitude of the next charge by one elementary charge.
    Minus,
    /// Makes the next charge neutral.
    N,
    /// Quits.
    Q,
    Other,
}

/// An input event, as far as the visualizer cares about it.
#[derive(Clone, Copy, Debug, PartialEq, Eq, Structural)]
pub enum InputEvent {
    /// The window was closed.
    Quit,
    MouseMotion { x: i32, y: i32 },
    MouseButtonDown { x: i32, y: i32 },
    KeyDown { key: Key },
    KeyUp { key: Key },
    /// Anything else the window system reports.
    Other,
}

} // verus!
