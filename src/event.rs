//! The events handed to the consumer and the input reported by the window.
//!
//! Keys, mouse buttons and coordinates are type parameters: the scheduler
//! passes them through without reading them.
use vstd::prelude::*;

verus! {

/// Render argument.
#[derive(Clone, Copy, Debug, PartialEq, Eq)]
pub struct RenderArgs {
    /// Time since the last logic update, in nanoseconds, used to extrapolate
    /// positions for smooth animation.
    pub ext_dt_ns: u64,
    /// The width of the rendered area.
    pub width: u32,
    /// The height of the rendered area.
    pub height: u32,
}

/// Update argument.
#[derive(Clone, Copy, Debug, PartialEq, Eq)]
pub struct UpdateArgs {
    /// The fixed logic rate: every update advances the simulation by
    /// `1 / updates_per_second` seconds.
    pub updates_per_second: u64,
}

/// Key press arguments.
#[derive(Clone, Copy, Debug, PartialEq, Eq)]
pub struct KeyPressArgs<K> {
    /// Keyboard key.
    pub key: K,
}

/// Key release arguments.
#[derive(Clone, Copy, Debug, PartialEq, Eq)]
pub struct KeyReleaseArgs<K> {
    /// Keyboard key.
    pub key: K,
}

/// Mouse press arguments.
#[derive(Clone, Copy, Debug, PartialEq, Eq)]
pub struct MousePressArgs<B> {
    /// Mouse button.
    pub button: B,
}

/// Mouse release arguments.
#[derive(Clone, Copy, Debug, PartialEq, Eq)]
pub struct MouseReleaseArgs<B> {
    /// Mouse button.
    pub button: B,
}

/// Mouse move arguments.
#[derive(Clone, Copy, Debug, PartialEq, Eq)]
pub struct MouseMoveArgs<C> {
    /// x.
    pub x: C,
    /// y.
    pub y: C,
}

/// Mouse relative move arguments.
#[derive(Clone, Copy, Debug, PartialEq, Eq)]
pub struct MouseRelativeMoveArgs<C> {
    /// Delta x.
    pub dx: C,
    /// Delta y.
    pub dy: C,
}

/// Mouse scroll arguments.
#[derive(Clone, Copy, Debug, PartialEq, Eq)]
pub struct MouseScrollArgs<C> {
    /// x.
    pub x: C,
    /// y.
    pub y: C,
}

/// Contains the different game events.
#[derive(Clone, Copy, Debug, PartialEq, Eq)]
pub enum GameEvent<K, B, C> {
    /// Render graphics.
    Render(RenderArgs),
    /// Update physical state of the game.
    Update(UpdateArgs),
    /// Pressed a keyboard key.
    KeyPress(KeyPressArgs<K>),
    /// Released a keyboard key.
    KeyRelease(KeyReleaseArgs<K>),
    /// Pressed a mouse button.
    MousePress(MousePressArgs<B>),
    /// Released a mouse button.
    MouseRelease(MouseReleaseArgs<B>),
    /// Moved mouse cursor.
    MouseMove(MouseMoveArgs<C>),
    /// Moved mouse relative, not bounded by cursor.
    MouseRelativeMove(MouseRelativeMoveArgs<C>),
    /// Scrolled mouse.
    MouseScroll(MouseScrollArgs<C>),
}

/// One result of a non-blocking poll of the window's input queue.
#[derive(Clone, Copy, Debug, PartialEq, Eq)]
pub enum InputEvent<K, B, C> {
    /// The queue is empty.
    NoEvent,
    /// A key went down.
    KeyPressed(K),
    /// A key went up.
    KeyReleased(K),
    /// A mouse button went down.
    MouseButtonPressed(B),
    /// A mouse button went up.
    MouseButtonReleased(B),
    /// The cursor moved to `(x, y)`, optionally with an unbounded relative
    /// delta `(dx, dy)`.
    MouseMoved(C, C, Option<(C, C)>),
    /// The wheel scrolled by `(x, y)`.
    MouseScrolled(C, C),
}

/// The event that a polled input maps to, one for one; `None` for an empty
/// queue. A relative delta that comes with a cursor move is not part of it.
pub open spec fn input_to_event<K, B, C>(input: InputEvent<K, B, C>) -> Option<GameEvent<K, B, C>> {
    match input {
        InputEvent::NoEvent => None,
        InputEvent::KeyPressed(key) => Some(GameEvent::KeyPress(KeyPressArgs { key })),
        InputEvent::KeyReleased(key) => Some(GameEvent::KeyRelease(KeyReleaseArgs { key })),
        InputEvent::MouseButtonPressed(button) => Some(GameEvent::MousePress(MousePressArgs { button })),
        InputEvent::MouseButtonReleased(button) => Some(GameEvent::MouseRelease(MouseReleaseArgs { button })),
        InputEvent::MouseMoved(x, y, _) => Some(GameEvent::MouseMove(MouseMoveArgs { x, y })),
        InputEvent::MouseScrolled(x, y) => Some(GameEvent::MouseScroll(MouseScrollArgs { x, y })),
    }
}

} // verus!
