//! The render engine: frame by frame from script to pixels.
//!
//! The engine owns the script, its timeline, the frame buffer, the optional
//! accelerated renderer and the texture cache. It decides what is drawn;
//! reading image files and talking to the device are the caller's part:
//!
//! 1. [`RenderEngine::missing_textures`] names the images of a frame that
//!    are not cached yet. The caller decodes those it can and hands each to
//!    [`RenderEngine::cache_texture`].
//! 2. [`RenderEngine::render_frame`] draws the frame and returns the flush
//!    plan, if the accelerated path has something to submit.
//! 3. The caller executes the plan and hands the bytes that came back to
//!    [`RenderEngine::complete_frame`].

use vstd::prelude::*;
use crate::decimal::{spec_clamp_u32, spec_scaled_floor};
use crate::digits::{append_decimal, spec_decimal_chars};
use crate::renderer::compositor::{Compositor, TEXT_HEIGHT, spec_fill_rect, spec_text_width};
use crate::renderer::frame_buffer::{FrameBuffer, spec_filled};
use crate::renderer::gpu_renderer::{
    BatchModel,
    DecodedImage,
    FlushPlan,
    GpuError,
    GpuRenderer,
    TextureHandle,
    lemma_enqueue_vertices,
    spec_enqueue,
    spec_flush_planned,
    spec_quad,
};
use crate::renderer::timeline::{
    Timeline,
    spec_find_segment,
    spec_frames,
    spec_segments_of,
    lemma_find_segment,
};
use crate::script::{Layer, Scene, VideoScript};
use crate::text::{spec_byte_len, str_equal};

verus! {

/// The colour a frame is cleared to: opaque black.
pub const BACKGROUND: [u8; 4] = [0, 0, 0, 255];

/// The colour of the box that stands for an image.
pub const IMAGE_PLACEHOLDER: [u8; 4] = [100, 100, 200, 255];

/// The colour of the box that stands for a video.
pub const VIDEO_PLACEHOLDER: [u8; 4] = [200, 100, 100, 255];

/// The tint of a textured image: none.
pub const TEXTURE_TINT: [u8; 4] = [255, 255, 255, 255];

/// Width and height of a placeholder box in pixels.
pub const PLACEHOLDER_SIZE: u32 = 100;

/// A texture of the cache: the source path it was made from, its handle
/// and its size in pixels.
pub struct TextureCacheEntry {
    pub source: String,
    pub texture: TextureHandle,
    pub width: u32,
    pub height: u32,
}

/// A cache entry as a plain value.
pub struct CacheEntryModel {
    pub source: Seq<char>,
    pub texture: TextureHandle,
    pub width: u32,
    pub height: u32,
}

impl TextureCacheEntry {
    /// The entry as a plain value.
    pub open spec fn model(&self) -> CacheEntryModel {
        CacheEntryModel {
            source: self.source@,
            texture: self.texture,
            width: self.width,
            height: self.height,
        }
    }
}

/// The cache as plain values.
pub open spec fn spec_cache_model(cache: Seq<TextureCacheEntry>) -> Seq<CacheEntryModel> {
    cache.map_values(|e: TextureCacheEntry| e.model())
}

/// The first entry at or after `from` that was made from `source`.
pub open spec fn spec_cache_lookup(cache: Seq<CacheEntryModel>, source: Seq<char>, from: int) -> Option<
    int,
>
    decreases cache.len() - from,
{
    if from >= cache.len() {
        None
    } else if cache[from].source == source {
        Some(from)
    } else {
        spec_cache_lookup(cache, source, from + 1)
    }
}

/// No source path has two entries.
pub open spec fn spec_cache_distinct(cache: Seq<CacheEntryModel>) -> bool {
    forall|i: int, j: int|
        0 <= i < j < cache.len() ==> (#[trigger] cache[i]).source != (#[trigger] cache[j]).source
}

/// Every entry names a texture of the table, with the size recorded there.
pub open spec fn spec_cache_valid(cache: Seq<CacheEntryModel>, textures: Seq<(u32, u32)>) -> bool {
    forall|i: int|
        0 <= i < cache.len() ==> (#[trigger] cache[i]).texture.index < textures.len()
            && textures[cache[i].texture.index as int] == (cache[i].width, cache[i].height)
}

/// The first scene at or after `from` with the given id.
pub open spec fn spec_find_scene(scenes: Seq<Scene>, id: Seq<char>, from: int) -> Option<int>
    decreases scenes.len() - from,
{
    if from >= scenes.len() {
        None
    } else if scenes[from].id@ == id {
        Some(from)
    } else {
        spec_find_scene(scenes, id, from + 1)
    }
}

/// The scene that is rendered at `frame`: the timeline gives the id of the
/// scene on screen, and the first scene of the script with that id is drawn.
pub open spec fn spec_scene_at(script: VideoScript, frame: int) -> Option<int> {
    let segments = spec_segments_of(script.scenes@, script.metadata.fps);
    match spec_find_segment(segments, frame, 0) {
        Some(i) => spec_find_scene(script.scenes@, segments[i].scene_id, 0),
        None => None,
    }
}

/// Whether a layer is drawn as a quad on the accelerated path.
pub open spec fn spec_draws_quad(layer: Layer) -> bool {
    layer is Image || layer is Video
}

/// The number of quads among the first `n` layers.
pub open spec fn spec_quad_count(layers: Seq<Layer>, n: int) -> int
    decreases n,
{
    if n <= 0 {
        0
    } else {
        spec_quad_count(layers, n - 1) + if spec_draws_quad(layers[n - 1]) {
            1int
        } else {
            0int
        }
    }
}

/// What one layer does to the frame buffer. Text is always drawn there, as
/// a box; images and videos are drawn there, as boxes at the layer's
/// position, only where no accelerated renderer is active.
pub open spec fn spec_layer_on_buffer(
    bytes: Seq<u8>,
    buffer_width: int,
    layer: Layer,
    gpu_active: bool,
) -> Seq<u8> {
    match layer {
        Layer::Image { source, effects, transform } => if gpu_active {
            bytes
        } else {
            spec_fill_rect(
                bytes,
                buffer_width,
                transform.position.x as int,
                transform.position.y as int,
                PLACEHOLDER_SIZE as int,
                PLACEHOLDER_SIZE as int,
                IMAGE_PLACEHOLDER@,
            )
        },
        Layer::Video { source, effects, transform } => if gpu_active {
            bytes
        } else {
            spec_fill_rect(
                bytes,
                buffer_width,
                transform.position.x as int,
                transform.position.y as int,
                PLACEHOLDER_SIZE as int,
                PLACEHOLDER_SIZE as int,
                VIDEO_PLACEHOLDER@,
            )
        },
        Layer::Text { content, font, font_size, color, position, effects } => spec_fill_rect(
            bytes,
            buffer_width,
            position.x as int,
            position.y as int,
            spec_text_width(spec_byte_len(content@)),
            TEXT_HEIGHT as int,
            seq![color.r, color.g, color.b, color.a],
        ),
    }
}

/// What the first `n` layers do to the frame buffer, one after the other.
pub open spec fn spec_layers_on_buffer(
    bytes: Seq<u8>,
    buffer_width: int,
    layers: Seq<Layer>,
    gpu_active: bool,
    n: int,
) -> Seq<u8>
    decreases n,
{
    if n <= 0 {
        bytes
    } else {
        spec_layer_on_buffer(
            spec_layers_on_buffer(bytes, buffer_width, layers, gpu_active, n - 1),
            buffer_width,
            layers[n - 1],
            gpu_active,
        )
    }
}

/// What one layer enqueues on the accelerated path. An image whose source
/// is cached is drawn with its texture, at the texture's size times the
/// layer's scale; any other image, and every video, is a placeholder box
/// drawn with the white texture. Text enqueues nothing.
pub open spec fn spec_layer_on_batches(
    batches: Seq<BatchModel>,
    target_width: int,
    target_height: int,
    layer: Layer,
    cache: Seq<CacheEntryModel>,
) -> Seq<BatchModel> {
    match layer {
        Layer::Image { source, effects, transform } => match spec_cache_lookup(cache, source@, 0) {
            Some(k) => spec_enqueue(
                batches,
                cache[k].texture,
                spec_quad(
                    target_width,
                    target_height,
                    transform.position.x as int,
                    transform.position.y as int,
                    spec_clamp_u32(
                        spec_scaled_floor(transform.scale.millis as int, cache[k].width as int),
                    ),
                    spec_clamp_u32(
                        spec_scaled_floor(transform.scale.millis as int, cache[k].height as int),
                    ),
                    TEXTURE_TINT,
                ),
            ),
            None => spec_enqueue(
                batches,
                TextureHandle { index: 0 },
                spec_quad(
                    target_width,
                    target_height,
                    transform.position.x as int,
                    transform.position.y as int,
                    PLACEHOLDER_SIZE as int,
                    PLACEHOLDER_SIZE as int,
                    IMAGE_PLACEHOLDER,
                ),
            ),
        },
        Layer::Video { source, effects, transform } => spec_enqueue(
            batches,
            TextureHandle { index: 0 },
            spec_quad(
                target_width,
                target_height,
                transform.position.x as int,
                transform.position.y as int,
                PLACEHOLDER_SIZE as int,
                PLACEHOLDER_SIZE as int,
                VIDEO_PLACEHOLDER,
            ),
        ),
        Layer::Text { content, font, font_size, color, position, effects } => batches,
    }
}

/// What the first `n` layers enqueue, one after the other.
pub open spec fn spec_layers_on_batches(
    batches: Seq<BatchModel>,
    target_width: int,
    target_height: int,
    layers: Seq<Layer>,
    cache: Seq<CacheEntryModel>,
    n: int,
) -> Seq<BatchModel>
    decreases n,
{
    if n <= 0 {
        batches
    } else {
        spec_layer_on_batches(
            spec_layers_on_batches(batches, target_width, target_height, layers, cache, n - 1),
            target_width,
            target_height,
            layers[n - 1],
            cache,
        )
    }
}

/// The image sources among the first `n` layers that have no cache entry,
/// in layer order.
pub open spec fn spec_missing_sources(
    layers: Seq<Layer>,
    cache: Seq<CacheEntryModel>,
    n: int,
) -> Seq<Seq<char>>
    decreases n,
{
    if n <= 0 {
        Seq::empty()
    } else {
        let before = spec_missing_sources(layers, cache, n - 1);
        match layers[n - 1] {
            Layer::Image { source, effects, transform } => if spec_cache_lookup(
                cache,
                source@,
                0,
            ).is_none() {
                before.push(source@)
            } else {
                before
            },
            _ => before,
        }
    }
}

/// What rendering frame `frame` does to an engine.
///
/// The frame buffer is cleared to opaque black. Where no scene is on screen
/// nothing else happens. Otherwise the layers of the scene are drawn in
/// order: without an accelerated renderer onto the frame buffer; with one,
/// text onto the frame buffer and everything else into its batches, after
/// which the flush is planned. Where the quads of the scene would exceed the
/// vertex budget, none is drawn and the frame is refused.
pub open spec fn spec_frame_rendered(
    before: RenderEngine,
    after: RenderEngine,
    frame: int,
    result: Result<Option<FlushPlan>, GpuError>,
) -> bool {
    let script = before.spec_script();
    let buffer = before.spec_frame_buffer();
    let black = spec_filled(buffer@.len(), BACKGROUND@);
    match spec_scene_at(script, frame) {
        None => {
            &&& result matches Ok(None)
            &&& after.spec_frame_buffer()@ == black
            &&& after.spec_gpu() == before.spec_gpu()
        },
        Some(si) => {
            let layers = script.scenes@[si].layers@;
            let n = layers.len() as int;
            match before.spec_gpu() {
                None => {
                    &&& result matches Ok(None)
                    &&& after.spec_gpu().is_none()
                    &&& after.spec_frame_buffer()@ == spec_layers_on_buffer(
                        black,
                        buffer.spec_width(),
                        layers,
                        false,
                        n,
                    )
                },
                Some(gpu) => if gpu.spec_pending_vertices() + 6 * spec_quad_count(layers, n)
                    > gpu.spec_vertex_budget() {
                    &&& result matches Err(GpuError::TooManyVertices)
                    &&& after.spec_frame_buffer()@ == black
                    &&& after.spec_gpu() == before.spec_gpu()
                } else {
                    &&& after.spec_frame_buffer()@ == spec_layers_on_buffer(
                        black,
                        buffer.spec_width(),
                        layers,
                        true,
                        n,
                    )
                    &&& after.spec_gpu().is_some()
                    &&& after.spec_gpu().unwrap().spec_textures() == gpu.spec_textures()
                    &&& after.spec_gpu().unwrap().spec_vertex_budget() == gpu.spec_vertex_budget()
                    &&& after.spec_batches() == spec_layers_on_batches(
                        gpu.spec_batches(),
                        gpu.spec_width(),
                        gpu.spec_height(),
                        layers,
                        before.spec_cache(),
                        n,
                    )
                    &&& result.is_ok()
                    &&& spec_flush_planned(
                        result.unwrap(),
                        after.spec_batches(),
                        gpu.spec_target(),
                        after.spec_gpu().unwrap().spec_target(),
                        after.spec_frame_buffer(),
                    )
                },
            }
        },
    }
}

/// The file name under which frame `frame` is saved.
pub open spec fn spec_frame_file_name(frame: u32) -> Seq<char> {
    "frame_"@ + spec_decimal_chars(frame as nat) + ".ppm"@
}

/// The file name under which frame `frame` is saved: `frame_`, the
/// zero-based frame number in decimal, and `.ppm`.
pub fn frame_file_name(frame: u32) -> (name: String)
    ensures
        name@ == spec_frame_file_name(frame),
{
    let mut name = String::from_str("frame_");
    append_decimal(&mut name, frame as u64);
    name.append(".ppm");
    name
}

/// Look a source path up in the cache.
fn cache_lookup(cache: &Vec<TextureCacheEntry>, source: &str) -> (found: Option<usize>)
    ensures
        match found {
            Some(k) => spec_cache_lookup(spec_cache_model(cache@), source@, 0) == Some(k as int)
                && k < cache@.len(),
            None => spec_cache_lookup(spec_cache_model(cache@), source@, 0).is_none(),
        },
{
    let ghost model = spec_cache_model(cache@);
    let mut i: usize = 0;
    while i < cache.len()
        invariant
            i <= cache@.len(),
            model == spec_cache_model(cache@),
            spec_cache_lookup(model, source@, 0) == spec_cache_lookup(model, source@, i as int),
        decreases cache@.len() - i,
    {
        assert(model[i as int] == cache@[i as int].model());
        if str_equal(cache[i].source.as_str(), source) {
            return Some(i);
        }
        i = i + 1;
    }
    None
}

/// Render a single layer: onto the accelerated renderer where one is
/// active, else onto the frame buffer. Text always goes to the frame buffer.
fn render_layer(
    frame_buffer: &mut FrameBuffer,
    gpu_renderer: &mut Option<GpuRenderer>,
    cache: &Vec<TextureCacheEntry>,
    layer: &Layer,
)
    requires
        match *old(gpu_renderer) {
            Some(gpu) => {
                &&& gpu.wf()
                &&& spec_cache_valid(spec_cache_model(cache@), gpu.spec_textures())
                &&& spec_draws_quad(*layer) ==> gpu.spec_pending_vertices() + 6
                    <= gpu.spec_vertex_budget()
            },
            None => true,
        },
    ensures
        final(frame_buffer).spec_width() == old(frame_buffer).spec_width(),
        final(frame_buffer).spec_height() == old(frame_buffer).spec_height(),
        final(frame_buffer)@ == spec_layer_on_buffer(
            old(frame_buffer)@,
            old(frame_buffer).spec_width(),
            *layer,
            old(gpu_renderer).is_some(),
        ),
        match (*old(gpu_renderer), *final(gpu_renderer)) {
            (Some(before), Some(after)) => {
                &&& after.wf()
                &&& after.spec_width() == before.spec_width()
                &&& after.spec_height() == before.spec_height()
                &&& after.spec_textures() == before.spec_textures()
                &&& after.spec_target() == before.spec_target()
                &&& after.spec_vertex_budget() == before.spec_vertex_budget()
                &&& after.spec_batches() == spec_layer_on_batches(
                    before.spec_batches(),
                    before.spec_width(),
                    before.spec_height(),
                    *layer,
                    spec_cache_model(cache@),
                )
            },
            (None, None) => true,
            _ => false,
        },
{
    let ghost model = spec_cache_model(cache@);
    match layer {
        Layer::Image { source, effects: _, transform } => {
            let (x, y) = Compositor::apply_transform(0, 0, transform);
            match gpu_renderer {
                Some(gpu) => {
                    match cache_lookup(cache, source.as_str()) {
                        Some(k) => {
                            let entry = &cache[k];
                            assert(model[k as int] == entry.model());
                            let draw_w: u32 = transform.scale.scale_u32(entry.width);
                            let draw_h: u32 = transform.scale.scale_u32(entry.height);
                            let _ = gpu.draw_texture(
                                entry.texture,
                                x,
                                y,
                                draw_w,
                                draw_h,
                                TEXTURE_TINT,
                            );
                        },
                        None => {
                            let _ = gpu.fill_rect(
                                x,
                                y,
                                PLACEHOLDER_SIZE,
                                PLACEHOLDER_SIZE,
                                IMAGE_PLACEHOLDER,
                            );
                        },
                    }
                },
                None => {
                    Compositor::fill_rect(
                        frame_buffer,
                        x,
                        y,
                        PLACEHOLDER_SIZE,
                        PLACEHOLDER_SIZE,
                        IMAGE_PLACEHOLDER,
                    );
                },
            }
        },
        Layer::Video { source: _, effects: _, transform } => {
            let (x, y) = Compositor::apply_transform(0, 0, transform);
            match gpu_renderer {
                Some(gpu) => {
                    let _ = gpu.fill_rect(
                        x,
                        y,
                        PLACEHOLDER_SIZE,
                        PLACEHOLDER_SIZE,
                        VIDEO_PLACEHOLDER,
                    );
                },
                None => {
                    Compositor::fill_rect(
                        frame_buffer,
                        x,
                        y,
                        PLACEHOLDER_SIZE,
                        PLACEHOLDER_SIZE,
                        VIDEO_PLACEHOLDER,
                    );
                },
            }
        },
        Layer::Text { content, font: _, font_size: _, color, position, effects: _ } => {
            let rgba = color.to_rgba();
            Compositor::draw_text_placeholder(
                frame_buffer,
                content.as_str(),
                position.x,
                position.y,
                rgba,
            );
        },
    }
}

/// Main rendering engine.
pub struct RenderEngine {
    script: VideoScript,
    timeline: Timeline,
    frame_buffer: FrameBuffer,
    gpu_renderer: Option<GpuRenderer>,
    texture_cache: Vec<TextureCacheEntry>,
}

impl RenderEngine {
    /// The script that is rendered.
    pub closed spec fn spec_script(&self) -> VideoScript {
        self.script
    }

    /// The timeline of the script.
    pub closed spec fn spec_timeline(&self) -> Timeline {
        self.timeline
    }

    /// The frame that was rendered last.
    pub closed spec fn spec_frame_buffer(&self) -> FrameBuffer {
        self.frame_buffer
    }

    /// The accelerated renderer, where one is active.
    pub closed spec fn spec_gpu(&self) -> Option<GpuRenderer> {
        self.gpu_renderer
    }

    /// The texture cache, oldest entry first.
    pub closed spec fn spec_cache(&self) -> Seq<CacheEntryModel> {
        spec_cache_model(self.texture_cache@)
    }

    /// The engine is consistent: the timeline is that of the script, the
    /// frame buffer has the script's resolution, and the cache holds at most
    /// one entry for each source path, each a texture of the accelerated
    /// renderer. Without an accelerated renderer the cache is empty.
    pub open spec fn wf(&self) -> bool {
        let script = self.spec_script();
        let timeline = self.spec_timeline();
        &&& timeline.wf()
        &&& timeline.spec_fps() == script.metadata.fps
        &&& timeline.spec_total_frames() == spec_clamp_u32(
            spec_frames(script.metadata.duration, script.metadata.fps),
        )
        &&& timeline.spec_segments() == spec_segments_of(script.scenes@, script.metadata.fps)
        &&& self.spec_frame_buffer().wf()
        &&& self.spec_frame_buffer().spec_width() == script.metadata.resolution.spec_dimensions().0
        &&& self.spec_frame_buffer().spec_height() == script.metadata.resolution.spec_dimensions().1
        &&& spec_cache_distinct(self.spec_cache())
        &&& match self.spec_gpu() {
            Some(gpu) => {
                &&& gpu.wf()
                &&& gpu.spec_width() == self.spec_frame_buffer().spec_width()
                &&& gpu.spec_height() == self.spec_frame_buffer().spec_height()
                &&& spec_cache_valid(self.spec_cache(), gpu.spec_textures())
            },
            None => self.spec_cache().len() == 0,
        }
    }

    /// The pending batches of the accelerated renderer; none without one.
    pub open spec fn spec_batches(&self) -> Seq<BatchModel> {
        match self.spec_gpu() {
            Some(gpu) => gpu.spec_batches(),
            None => Seq::empty(),
        }
    }

    /// Create new render engine from script. `gpu_available` says whether
    /// an accelerated device could be set up; without one every frame is
    /// drawn on the frame buffer.
    pub fn new(script: VideoScript, gpu_available: bool) -> (engine: RenderEngine)
        requires
            script.metadata.resolution.spec_dimensions().0
                * script.metadata.resolution.spec_dimensions().1 * 4 <= usize::MAX,
        ensures
            engine.wf(),
            engine.spec_script() == script,
            engine.spec_gpu().is_some() == gpu_available,
            engine.spec_batches().len() == 0,
            engine.spec_cache().len() == 0,
            engine.spec_frame_buffer()@ == Seq::new(engine.spec_frame_buffer()@.len(), |i: int| 0u8),
            match engine.spec_gpu() {
                Some(gpu) => gpu.spec_textures() == seq![(1u32, 1u32)] && gpu.spec_target().is_none()
                    && gpu.spec_vertex_budget() == crate::renderer::gpu_renderer::MAX_PENDING_VERTICES,
                None => true,
            },
    {
        let (width, height) = script.metadata.resolution.dimensions();
        let gpu = if gpu_available {
            Some(GpuRenderer::new(width, height))
        } else {
            None
        };
        Self::with_renderer(script, gpu)
    }

    /// Create a render engine that draws on the accelerated path and lets
    /// no more than `budget` vertices wait for one flush.
    pub fn with_vertex_budget(script: VideoScript, budget: u64) -> (engine: RenderEngine)
        requires
            script.metadata.resolution.spec_dimensions().0
                * script.metadata.resolution.spec_dimensions().1 * 4 <= usize::MAX,
        ensures
            engine.wf(),
            engine.spec_script() == script,
            engine.spec_batches().len() == 0,
            engine.spec_cache().len() == 0,
            engine.spec_frame_buffer()@ == Seq::new(engine.spec_frame_buffer()@.len(), |i: int| 0u8),
            match engine.spec_gpu() {
                Some(gpu) => {
                    &&& gpu.spec_textures() == seq![(1u32, 1u32)]
                    &&& gpu.spec_target().is_none()
                    &&& gpu.spec_vertex_budget() == if budget
                        > crate::renderer::gpu_renderer::MAX_PENDING_VERTICES {
                        crate::renderer::gpu_renderer::MAX_PENDING_VERTICES
                    } else {
                        budget
                    }
                },
                None => false,
            },
    {
        let (width, height) = script.metadata.resolution.dimensions();
        let gpu = GpuRenderer::with_vertex_budget(width, height, budget);
        Self::with_renderer(script, Some(gpu))
    }

    /// Create a render engine that draws with the given accelerated
    /// renderer, or on the frame buffer if there is none. The renderer is
    /// one for the script's resolution that has not been used yet.
    fn with_renderer(script: VideoScript, gpu: Option<GpuRenderer>) -> (engine: RenderEngine)
        requires
            script.metadata.resolution.spec_dimensions().0
                * script.metadata.resolution.spec_dimensions().1 * 4 <= usize::MAX,
            match gpu {
                Some(g) => {
                    &&& g.wf()
                    &&& g.spec_width() == script.metadata.resolution.spec_dimensions().0
                    &&& g.spec_height() == script.metadata.resolution.spec_dimensions().1
                    &&& g.spec_batches().len() == 0
                },
                None => true,
            },
        ensures
            engine.wf(),
            engine.spec_script() == script,
            engine.spec_gpu() == gpu,
            engine.spec_cache().len() == 0,
            engine.spec_frame_buffer()@ == Seq::new(engine.spec_frame_buffer()@.len(), |i: int| 0u8),
    {
        let (width, height) = script.metadata.resolution.dimensions();
        let timeline = Timeline::from_script(&script);
        let frame_buffer = FrameBuffer::new(width, height);
        let gpu_renderer = gpu;
        let engine = RenderEngine {
            script,
            timeline,
            frame_buffer,
            gpu_renderer,
            texture_cache: Vec::new(),
        };
        assert(engine.spec_cache() =~= Seq::<CacheEntryModel>::empty());
        assert(engine.spec_frame_buffer()@ =~= Seq::new(
            engine.spec_frame_buffer()@.len(),
            |i: int| 0u8,
        ));
        engine
    }

    /// Get timeline.
    pub fn timeline(&self) -> (timeline: &Timeline)
        ensures
            *timeline == self.spec_timeline(),
    {
        &self.timeline
    }

    /// The frame that was rendered last.
    pub fn frame_buffer(&self) -> (frame_buffer: &FrameBuffer)
        ensures
            *frame_buffer == self.spec_frame_buffer(),
    {
        &self.frame_buffer
    }

    /// The script that is rendered.
    pub fn script(&self) -> (script: &VideoScript)
        ensures
            *script == self.spec_script(),
    {
        &self.script
    }

    /// The accelerated renderer, where one is active.
    pub fn gpu_renderer(&self) -> (gpu: Option<&GpuRenderer>)
        ensures
            match gpu {
                Some(g) => self.spec_gpu() == Some(*g),
                None => self.spec_gpu().is_none(),
            },
    {
        self.gpu_renderer.as_ref()
    }

    /// Whether frames are drawn on the accelerated path.
    pub fn uses_gpu(&self) -> (active: bool)
        ensures
            active == self.spec_gpu().is_some(),
    {
        self.gpu_renderer.is_some()
    }

    /// The number of cached textures.
    pub fn cached_textures(&self) -> (count: usize)
        ensures
            count == self.spec_cache().len(),
    {
        self.texture_cache.len()
    }

    /// The scene that is rendered at `frame`: its index in the script.
    pub fn active_scene(&self, frame: u32) -> (scene: Option<usize>)
        requires
            self.wf(),
        ensures
            match scene {
                Some(i) => spec_scene_at(self.spec_script(), frame as int) == Some(i as int) && i
                    < self.spec_script().scenes@.len(),
                None => spec_scene_at(self.spec_script(), frame as int).is_none(),
            },
    {
        let ghost scenes = self.script.scenes@;
        match self.timeline.get_scene_at_frame(frame) {
            None => None,
            Some(id) => {
                assert(spec_scene_at(self.spec_script(), frame as int) == spec_find_scene(
                    scenes,
                    id@,
                    0,
                ));
                let mut i: usize = 0;
                while i < self.script.scenes.len()
                    invariant
                        i <= scenes.len(),
                        scenes == self.script.scenes@,
                        spec_scene_at(self.spec_script(), frame as int) == spec_find_scene(
                            scenes,
                            id@,
                            0,
                        ),
                        spec_find_scene(scenes, id@, 0) == spec_find_scene(scenes, id@, i as int),
                    decreases scenes.len() - i,
                {
                    if str_equal(self.script.scenes[i].id.as_str(), id) {
                        return Some(i);
                    }
                    i = i + 1;
                }
                None
            },
        }
    }

    /// The source paths of the images of the frame that have no texture
    /// yet, in layer order. Empty without an accelerated renderer, and where
    /// no scene is on screen.
    pub fn missing_textures(&self, frame: u32) -> (sources: Vec<String>)
        requires
            self.wf(),
        ensures
            sources@.map_values(|s: String| s@) == match (
                self.spec_gpu(),
                spec_scene_at(self.spec_script(), frame as int),
            ) {
                (Some(_), Some(i)) => spec_missing_sources(
                    self.spec_script().scenes@[i].layers@,
                    self.spec_cache(),
                    self.spec_script().scenes@[i].layers@.len() as int,
                ),
                _ => Seq::empty(),
            },
    {
        let mut sources: Vec<String> = Vec::new();
        assert(sources@.map_values(|s: String| s@) =~= Seq::<Seq<char>>::empty());
        if self.gpu_renderer.is_none() {
            return sources;
        }
        match self.active_scene(frame) {
            None => sources,
            Some(si) => {
                let scene = &self.script.scenes[si];
                let ghost layers = scene.layers@;
                let ghost cache = self.spec_cache();
                let mut li: usize = 0;
                while li < scene.layers.len()
                    invariant
                        li <= layers.len(),
                        layers == scene.layers@,
                        cache == spec_cache_model(self.texture_cache@),
                        sources@.map_values(|s: String| s@) == spec_missing_sources(
                            layers,
                            cache,
                            li as int,
                        ),
                    decreases layers.len() - li,
                {
                    let ghost before = sources@.map_values(|s: String| s@);
                    match &scene.layers[li] {
                        Layer::Image { source, effects: _, transform: _ } => {
                            if cache_lookup(&self.texture_cache, source.as_str()).is_none() {
                                sources.push(source.clone());
                                assert(sources@.map_values(|s: String| s@) =~= before.push(
                                    source@,
                                ));
                            }
                        },
                        _ => {},
                    }
                    li = li + 1;
                }
                sources
            },
        }
    }

    /// Render a single frame: clear the buffer, resolve the scene on
    /// screen, draw each of its layers, and plan the flush of the
    /// accelerated renderer. The plan, if any, is what the caller submits
    /// before it calls [`RenderEngine::complete_frame`].
    pub fn render_frame(&mut self, frame_number: u32) -> (result: Result<
        Option<FlushPlan>,
        GpuError,
    >)
        requires
            old(self).wf(),
        ensures
            final(self).wf(),
            final(self).spec_script() == old(self).spec_script(),
            final(self).spec_timeline() == old(self).spec_timeline(),
            final(self).spec_cache() == old(self).spec_cache(),
            spec_frame_rendered(*old(self), *final(self), frame_number as int, result),
    {
        self.frame_buffer.clear(BACKGROUND);
        let ghost black = self.frame_buffer@;
        let ghost bw = self.frame_buffer.spec_width();
        let ghost cache = self.spec_cache();
        let scene_index = self.active_scene(frame_number);
        match scene_index {
            None => Ok(None),
            Some(si) => {
                let layer_count: usize = self.script.scenes[si].layers.len();
                let ghost layers = self.script.scenes@[si as int].layers@;
                let ghost total = spec_quad_count(layers, layer_count as int);
                if self.gpu_renderer.is_some() {
                    let mut quads: usize = 0;
                    let mut k: usize = 0;
                    while k < layer_count
                        invariant
                            k <= layer_count,
                            si < self.script.scenes@.len(),
                            layers == self.script.scenes@[si as int].layers@,
                            layer_count == layers.len(),
                            quads == spec_quad_count(layers, k as int),
                            quads <= k,
                        decreases layer_count - k,
                    {
                        match &self.script.scenes[si].layers[k] {
                            Layer::Text { .. } => {},
                            _ => {
                                quads = quads + 1;
                            },
                        }
                        k = k + 1;
                    }
                    let (pending, budget) = match &self.gpu_renderer {
                        Some(gpu) => (gpu.pending_vertices(), gpu.vertex_budget()),
                        None => (0, 0),
                    };
                    if quads as u64 > (budget - pending) / 6 {
                        return Err(GpuError::TooManyVertices);
                    }
                }
                let ghost start = self.spec_batches();
                let ghost gpu_active = self.gpu_renderer.is_some();
                let mut li: usize = 0;
                while li < layer_count
                    invariant
                        li <= layer_count,
                        si < self.script.scenes@.len(),
                        layers == self.script.scenes@[si as int].layers@,
                        layer_count == layers.len(),
                        total == spec_quad_count(layers, layer_count as int),
                        self.script == old(self).script,
                        self.timeline == old(self).timeline,
                        self.texture_cache == old(self).texture_cache,
                        cache == spec_cache_model(self.texture_cache@),
                        self.frame_buffer.wf(),
                        self.frame_buffer.spec_width() == bw,
                        self.frame_buffer.spec_width() == old(self).frame_buffer.spec_width(),
                        self.frame_buffer.spec_height() == old(self).frame_buffer.spec_height(),
                        self.frame_buffer@.len() == old(self).frame_buffer@.len(),
                        gpu_active == self.gpu_renderer.is_some(),
                        gpu_active == old(self).gpu_renderer.is_some(),
                        self.frame_buffer@ == spec_layers_on_buffer(
                            black,
                            bw,
                            layers,
                            gpu_active,
                            li as int,
                        ),
                        match (old(self).gpu_renderer, self.gpu_renderer) {
                            (Some(before), Some(gpu)) => {
                                &&& gpu.wf()
                                &&& gpu.spec_width() == before.spec_width()
                                &&& gpu.spec_height() == before.spec_height()
                                &&& gpu.spec_textures() == before.spec_textures()
                                &&& gpu.spec_target() == before.spec_target()
                                &&& gpu.spec_vertex_budget() == before.spec_vertex_budget()
                                &&& spec_cache_valid(cache, gpu.spec_textures())
                                &&& start == before.spec_batches()
                                &&& gpu.spec_batches() == spec_layers_on_batches(
                                    start,
                                    before.spec_width(),
                                    before.spec_height(),
                                    layers,
                                    cache,
                                    li as int,
                                )
                                &&& gpu.spec_pending_vertices() + 6 * (total - spec_quad_count(
                                    layers,
                                    li as int,
                                )) <= gpu.spec_vertex_budget()
                            },
                            (None, None) => true,
                            _ => false,
                        },
                    decreases layer_count - li,
                {
                    proof {
                        lemma_quad_count_monotone(layers, li as int + 1, layer_count as int);
                        match &self.gpu_renderer {
                            Some(gpu) => {
                                lemma_layer_pending(
                                    gpu.spec_batches(),
                                    gpu.spec_width(),
                                    gpu.spec_height(),
                                    layers[li as int],
                                    cache,
                                );
                            },
                            None => {},
                        }
                    }
                    render_layer(
                        &mut self.frame_buffer,
                        &mut self.gpu_renderer,
                        &self.texture_cache,
                        &self.script.scenes[si].layers[li],
                    );
                    li = li + 1;
                }
                match &mut self.gpu_renderer {
                    Some(gpu) => {
                        let plan = gpu.plan_flush(&self.frame_buffer);
                        Ok(plan)
                    },
                    None => Ok(None),
                }
            },
        }
    }

    /// Take the bytes that the device rendered for the planned flush: they
    /// become the frame, and no batch is pending afterwards. Without an
    /// accelerated renderer nothing changes.
    pub fn complete_frame(&mut self, data: &[u8])
        requires
            old(self).wf(),
            data@.len() == old(self).spec_frame_buffer()@.len(),
        ensures
            final(self).wf(),
            final(self).spec_script() == old(self).spec_script(),
            final(self).spec_timeline() == old(self).spec_timeline(),
            final(self).spec_cache() == old(self).spec_cache(),
            match old(self).spec_gpu() {
                Some(gpu) => {
                    &&& final(self).spec_frame_buffer()@ == data@
                    &&& final(self).spec_gpu().is_some()
                    &&& final(self).spec_batches().len() == 0
                    &&& final(self).spec_gpu().unwrap().spec_textures() == gpu.spec_textures()
                    &&& final(self).spec_gpu().unwrap().spec_target() == gpu.spec_target()
                },
                None => {
                    &&& final(self).spec_frame_buffer() == old(self).spec_frame_buffer()
                    &&& final(self).spec_gpu().is_none()
                },
            },
    {
        match &mut self.gpu_renderer {
            Some(gpu) => {
                gpu.complete_flush(&mut self.frame_buffer, data);
            },
            None => {},
        }
    }

    /// Enter a decoded image into the texture cache under its source path.
    /// Returns the handle of the new texture, whose pixels the caller
    /// uploads. Nothing is entered, and `None` returned, without an
    /// accelerated renderer and for a source that is cached already.
    pub fn cache_texture(&mut self, source: &str, image: &DecodedImage) -> (handle: Option<
        TextureHandle,
    >)
        requires
            old(self).wf(),
        ensures
            final(self).wf(),
            final(self).spec_script() == old(self).spec_script(),
            final(self).spec_timeline() == old(self).spec_timeline(),
            final(self).spec_frame_buffer() == old(self).spec_frame_buffer(),
            final(self).spec_batches() == old(self).spec_batches(),
            final(self).spec_gpu().is_some() == old(self).spec_gpu().is_some(),
            match handle {
                Some(h) => {
                    &&& old(self).spec_gpu().is_some()
                    &&& spec_cache_lookup(old(self).spec_cache(), source@, 0).is_none()
                    &&& h.index == old(self).spec_gpu().unwrap().spec_textures().len()
                    &&& final(self).spec_gpu().unwrap().spec_textures() == old(
                        self,
                    ).spec_gpu().unwrap().spec_textures().push(
                        (image.spec_width() as u32, image.spec_height() as u32),
                    )
                    &&& final(self).spec_cache() == old(self).spec_cache().push(
                        CacheEntryModel {
                            source: source@,
                            texture: h,
                            width: image.spec_width() as u32,
                            height: image.spec_height() as u32,
                        },
                    )
                },
                None => {
                    &&& old(self).spec_gpu().is_none() || spec_cache_lookup(
                        old(self).spec_cache(),
                        source@,
                        0,
                    ).is_some()
                    &&& final(self).spec_cache() == old(self).spec_cache()
                    &&& final(self).spec_gpu() == old(self).spec_gpu()
                },
            },
    {
        let ghost cache = self.spec_cache();
        if cache_lookup(&self.texture_cache, source).is_some() {
            return None;
        }
        match &mut self.gpu_renderer {
            None => None,
            Some(gpu) => {
                let (width, height) = image.dimensions();
                let texture = gpu.create_texture(image);
                self.texture_cache.push(
                    TextureCacheEntry { source: String::from_str(source), texture, width, height },
                );
                proof {
                    let entry = CacheEntryModel { source: source@, texture, width, height };
                    assert(self.spec_cache() =~= cache.push(entry));
                    lemma_lookup_none(cache, source@, 0);
                }
                Some(texture)
            },
        }
    }
}

/// More layers never hold fewer quads.
pub proof fn lemma_quad_count_monotone(layers: Seq<Layer>, m: int, n: int)
    requires
        0 <= m <= n,
    ensures
        0 <= spec_quad_count(layers, m) <= spec_quad_count(layers, n),
        spec_quad_count(layers, n) <= n,
    decreases n,
{
    if m < n {
        lemma_quad_count_monotone(layers, m, n - 1);
    } else if m > 0 {
        lemma_quad_count_monotone(layers, m - 1, m - 1);
    }
}

/// A layer that is drawn as a quad adds six vertices to the pending ones,
/// any other adds none.
pub proof fn lemma_layer_pending(
    batches: Seq<BatchModel>,
    target_width: int,
    target_height: int,
    layer: Layer,
    cache: Seq<CacheEntryModel>,
)
    ensures
        ({
            let after = spec_layer_on_batches(batches, target_width, target_height, layer, cache);
            crate::renderer::gpu_renderer::spec_vertices_before(after, after.len() as int)
                == crate::renderer::gpu_renderer::spec_vertices_before(
                batches,
                batches.len() as int,
            ) + if spec_draws_quad(layer) {
                6int
            } else {
                0int
            }
        }),
{
    match layer {
        Layer::Image { source, effects, transform } => {
            match spec_cache_lookup(cache, source@, 0) {
                Some(k) => {
                    lemma_enqueue_vertices(
                        batches,
                        cache[k].texture,
                        spec_quad(
                            target_width,
                            target_height,
                            transform.position.x as int,
                            transform.position.y as int,
                            spec_clamp_u32(
                                spec_scaled_floor(
                                    transform.scale.millis as int,
                                    cache[k].width as int,
                                ),
                            ),
                            spec_clamp_u32(
                                spec_scaled_floor(
                                    transform.scale.millis as int,
                                    cache[k].height as int,
                                ),
                            ),
                            TEXTURE_TINT,
                        ),
                    );
                },
                None => {
                    lemma_enqueue_vertices(
                        batches,
                        TextureHandle { index: 0 },
                        spec_quad(
                            target_width,
                            target_height,
                            transform.position.x as int,
                            transform.position.y as int,
                            PLACEHOLDER_SIZE as int,
                            PLACEHOLDER_SIZE as int,
                            IMAGE_PLACEHOLDER,
                        ),
                    );
                },
            }
        },
        Layer::Video { source, effects, transform } => {
            lemma_enqueue_vertices(
                batches,
                TextureHandle { index: 0 },
                spec_quad(
                    target_width,
                    target_height,
                    transform.position.x as int,
                    transform.position.y as int,
                    PLACEHOLDER_SIZE as int,
                    PLACEHOLDER_SIZE as int,
                    VIDEO_PLACEHOLDER,
                ),
            );
        },
        Layer::Text { content, font, font_size, color, position, effects } => {},
    }
}

/// A lookup that finds nothing: no entry was made from the source.
pub proof fn lemma_lookup_none(cache: Seq<CacheEntryModel>, source: Seq<char>, from: int)
    requires
        0 <= from,
        spec_cache_lookup(cache, source, from).is_none(),
    ensures
        forall|i: int| from <= i < cache.len() ==> (#[trigger] cache[i]).source != source,
    decreases cache.len() - from,
{
    if from < cache.len() {
        lemma_lookup_none(cache, source, from + 1);
    }
}

} // verus!
