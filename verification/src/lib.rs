//! A verified core for driving interactive vector-animation content.
//!
//! Assets are parsed from a binary buffer into a `File`, from which
//! `Artboard`s and `StateMachine`s are instantiated through a handle-based
//! protocol. Either kind of object fulfils the polymorphic `Scene` role: it
//! can be advanced in time, fed pointer input, and drawn each frame through a
//! backend-agnostic `Renderer` capability. Viewport fitting is done with
//! exact rational arithmetic, so the content-to-surface transform and its
//! inverse compose to the identity by construction.

pub mod any_scene;
pub mod artboard;
pub mod asset;
pub mod components;
pub mod encoding;
pub mod file;
pub mod instantiate;
pub mod ownership;
pub mod renderer;
pub mod scene;
pub mod state_machine;
pub mod transform;
