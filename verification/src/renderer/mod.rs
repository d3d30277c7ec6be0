//! The rendering pipeline: frame buffer, compositor, timeline and batching.

pub mod blender;
pub mod compositor;
pub mod encoder;
pub mod engine;
pub mod frame_buffer;
pub mod gpu_renderer;
pub mod timeline;

pub use blender::BlenderRenderer;
pub use compositor::Compositor;
pub use encoder::VideoEncoder;
pub use engine::RenderEngine;
pub use frame_buffer::FrameBuffer;
pub use gpu_renderer::GpuRenderer;
pub use timeline::Timeline;

