//! OpenXR/Vulkan interop for Bevy: the decisions behind it, verified.

pub mod extensions;
pub mod fov;
pub mod frame_call_laws;
pub mod frame_laws;
pub mod frame_loop;
pub mod init;
pub mod loader;
pub mod plugin;
pub mod pose;
pub mod projection;
pub mod scalar;
pub mod scene;
pub mod session;
pub mod session_state;
pub mod startup_laws;
pub mod swapchain;
pub mod text;
pub mod view_laws;

