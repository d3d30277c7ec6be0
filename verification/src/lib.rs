//! Frame timeline, CPU frame buffer, batched compositor and audio mixing plan
//! for rendering a declarative scene script, with machine-checked contracts.

pub mod analysis;
pub mod assets;
pub mod audio;
pub mod config;
pub mod decimal;
pub mod digits;
pub mod parser;
pub mod renderer;
pub mod script;
pub mod templates;
pub mod text;

pub use assets::AssetLoader;
pub use audio::AudioMixer;
pub use parser::ScriptParser;
pub use renderer::{Compositor, FrameBuffer, RenderEngine, Timeline};
pub use script::VideoScript;
