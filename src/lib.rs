//! A pull-based game loop scheduler.
//!
//! The scheduler turns a window backend into an ordered stream of game
//! events: render ticks capped at a frame rate, fixed-timestep logic updates,
//! and the input that arrived in between. It never touches the window itself:
//! each call of [`GameIterator::advance`] either yields an event, ends the
//! stream, or asks the driver to perform one window operation (or a pacing
//! sleep) and report back.
pub mod event;
pub mod timing;
pub mod scheduler;
pub mod laws;

pub use event::{
    GameEvent, InputEvent, KeyPressArgs, KeyReleaseArgs, MouseMoveArgs, MousePressArgs,
    MouseRelativeMoveArgs, MouseReleaseArgs, MouseScrollArgs, RenderArgs, UpdateArgs,
};
pub use scheduler::{GameIterator, GameIteratorModel, GameIteratorState, Reply, Request, Step};
pub use timing::GameIteratorSettings;
