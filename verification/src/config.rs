//! Settings of the application, with their defaults.

use vstd::prelude::*;

verus! {

/// All settings.
#[derive(Clone, Debug)]
pub struct AppConfig {
    pub renderer: RendererConfig,
    pub video: VideoConfig,
    pub assets: AssetsConfig,
}

/// Which renderer is used, and where its output goes.
#[derive(Clone, Debug)]
pub struct RendererConfig {
    /// `native` or `blender`.
    pub engine: String,
    pub output_dir: String,
}

/// Defaults for videos.
#[derive(Clone, Debug)]
pub struct VideoConfig {
    pub default_resolution: String,
    pub default_fps: u32,
}

/// Where assets are looked for.
#[derive(Clone, Debug)]
pub struct AssetsConfig {
    pub base_path: String,
}

impl AppConfig {
    /// Whether these are the default settings: the native renderer writing
    /// to `output`, 1920x1080 at 30 frames per second, assets in the
    /// current directory.
    pub open spec fn spec_is_default(&self) -> bool {
        &&& self.renderer.engine@ == "native"@
        &&& self.renderer.output_dir@ == "output"@
        &&& self.video.default_resolution@ == "1920x1080"@
        &&& self.video.default_fps == 30
        &&& self.assets.base_path@ == "."@
    }

    /// Whether the settings choose the Blender backend.
    pub fn uses_blender(&self) -> (blender: bool)
        ensures
            blender == (self.renderer.engine@ == "blender"@),
    {
        crate::text::str_equal(self.renderer.engine.as_str(), "blender")
    }
}

impl Default for AppConfig {
    fn default() -> (config: AppConfig)
        ensures
            config.spec_is_default(),
    {
        AppConfig {
            renderer: RendererConfig {
                engine: String::from_str("native"),
                output_dir: String::from_str("output"),
            },
            video: VideoConfig {
                default_resolution: String::from_str("1920x1080"),
                default_fps: 30,
            },
            assets: AssetsConfig { base_path: String::from_str(".") },
        }
    }
}

} // verus!
