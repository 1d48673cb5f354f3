//! Verified core of a small immediate-mode Vulkan renderer: staging-buffer
//! layout, per-batch draw planning, the per-frame state machine, the sprite
//! atlas protocol and the fixed pipeline state.

pub mod staging;
pub mod scene;
pub mod pipeline;
pub mod frame;
pub mod executor;
pub mod atlas;
pub mod text_system;
pub mod dispatcher;
