//! Render orchestration for a scene of instanced meshes: a pipeline cache keyed
//! by name, two draw strategies, renderable objects and the per-frame recording
//! of render commands.
//!
//! The crate never talks to a GPU. Resources are named by handles, a render
//! pass is the list of commands recorded on it, and whoever owns the device
//! creates the resources and replays the commands.

pub mod bytes;
pub mod draw_laws;
pub mod draw_traits;
pub mod frame_laws;
pub mod gpu;
pub mod input;
pub mod instance;
pub mod model;
pub mod pass_state;
pub mod pipeline_manager;
pub mod renderable_object;
pub mod state;
pub mod surface;
pub mod uniforms;
