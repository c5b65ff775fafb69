//! Control layer of a small real-time rendering scaffold: the input event model,
//! a registry of controllable objects with ordered dispatch, the frame-loop state
//! machine, and the input decisions of a first-person camera.
pub mod lang;
pub mod input;
pub mod registry;
pub mod window;
pub mod camera;
