//! Quad batching for the accelerated path.
//!
//! The renderer collects two-triangle quads into batches that share one
//! texture, lays the batches out in one vertex buffer, and takes the rendered
//! bytes back into a [`FrameBuffer`]. Talking to the device is left to the
//! caller: [`GpuRenderer::plan_flush`] says what has to be submitted, and
//! [`GpuRenderer::complete_flush`] takes the bytes that came back.

use vstd::prelude::*;
use crate::renderer::frame_buffer::FrameBuffer;

verus! {

/// Size of one vertex in the vertex buffer: two position components, four
/// colour components and two texture coordinates of four bytes each.
pub const VERTEX_STRIDE: u64 = 32;

/// The most vertices that may ever wait for one flush, so that every vertex
/// count fits a draw call and every byte offset fits a buffer address. A
/// renderer may be given a smaller budget.
pub const MAX_PENDING_VERTICES: u64 = 0xFFFF_FFFF;

/// Names a texture of a [`GpuRenderer`]: its index in the texture table.
#[derive(Clone, Copy, Debug, PartialEq, Eq, Structural)]
pub struct TextureHandle {
    pub index: usize,
}

/// A coordinate of normalized device space, the exact fraction `num / den`.
#[derive(Clone, Copy, Debug, PartialEq, Eq, Structural)]
pub struct NdcCoord {
    pub num: i64,
    pub den: u32,
}

/// One corner of a quad: position in normalized device space, tint (each
/// channel out of 255) and texture coordinates (each 0 or 1).
#[derive(Clone, Copy, Debug)]
pub struct Vertex {
    pub x: NdcCoord,
    pub y: NdcCoord,
    pub color: [u8; 4],
    pub u: u8,
    pub v: u8,
}

/// Vertices that are drawn with one texture binding.
pub struct DrawBatch {
    pub texture: TextureHandle,
    pub vertices: Vec<Vertex>,
}

/// A decoded image: `width * height` RGBA pixels, row by row.
pub struct DecodedImage {
    width: u32,
    height: u32,
    rgba: Vec<u8>,
}

/// Why a draw was refused.
#[derive(Clone, Copy, Debug, PartialEq, Eq, Structural)]
pub enum GpuError {
    /// The handle names no texture of this renderer.
    UnknownTexture,
    /// The quad would exceed the renderer's vertex budget.
    TooManyVertices,
}

/// The horizontal device coordinate of pixel column `x` on a target `width`
/// pixels wide: `2x / width - 1`, as numerator over `width`.
pub open spec fn spec_ndc_x(x: int, width: int) -> NdcCoord {
    NdcCoord { num: (2 * x - width) as i64, den: width as u32 }
}

/// The vertical device coordinate of pixel row `y` on a target `height`
/// pixels high: `-(2y / height - 1)`, as numerator over `height`. Device
/// space has y pointing up, pixel space has it pointing down.
pub open spec fn spec_ndc_y(y: int, height: int) -> NdcCoord {
    NdcCoord { num: (height - 2 * y) as i64, den: height as u32 }
}

/// The corner of a quad at pixel `(px, py)` with texture coordinates `(u, v)`.
pub open spec fn spec_corner(
    target_width: int,
    target_height: int,
    px: int,
    py: int,
    color: [u8; 4],
    u: u8,
    v: u8,
) -> Vertex {
    Vertex { x: spec_ndc_x(px, target_width), y: spec_ndc_y(py, target_height), color, u, v }
}

/// The six vertices, two triangles, of the rectangle with top-left pixel
/// `(x, y)` and the given size.
pub open spec fn spec_quad(
    target_width: int,
    target_height: int,
    x: int,
    y: int,
    width: int,
    height: int,
    color: [u8; 4],
) -> Seq<Vertex> {
    let (tw, th) = (target_width, target_height);
    let (x2, y2) = (x + width, y + height);
    seq![
        spec_corner(tw, th, x, y, color, 0, 0),
        spec_corner(tw, th, x2, y, color, 1, 0),
        spec_corner(tw, th, x2, y2, color, 1, 1),
        spec_corner(tw, th, x, y, color, 0, 0),
        spec_corner(tw, th, x2, y2, color, 1, 1),
        spec_corner(tw, th, x, y2, color, 0, 1),
    ]
}

/// A batch as a plain value: its texture and its vertices.
pub struct BatchModel {
    pub texture: TextureHandle,
    pub vertices: Seq<Vertex>,
}

/// The merging rule: vertices drawn with the texture of the last batch join
/// that batch, any others open a new one.
pub open spec fn spec_enqueue(
    batches: Seq<BatchModel>,
    texture: TextureHandle,
    vertices: Seq<Vertex>,
) -> Seq<BatchModel> {
    if batches.len() > 0 && batches.last().texture == texture {
        batches.update(
            batches.len() - 1,
            BatchModel { texture, vertices: batches.last().vertices + vertices },
        )
    } else {
        batches.push(BatchModel { texture, vertices })
    }
}

/// Where one batch lies in the vertex buffer, and what it is drawn with.
#[derive(Clone, Copy, Debug, PartialEq, Eq, Structural)]
pub struct BatchRange {
    pub texture: TextureHandle,
    pub byte_offset: u64,
    pub byte_len: u64,
    pub vertex_count: u32,
}

/// What one flush submits: one render pass over `ranges`, cleared to black,
/// and one copy of the target into a staging buffer.
pub struct FlushPlan {
    /// Size of the frame that is copied out.
    pub width: u32,
    pub height: u32,
    /// Whether the render target and the staging buffer have to be
    /// allocated first. They are allocated once and used again afterwards.
    pub allocate_target: bool,
    /// Size of the staging buffer in bytes: that of the frame buffer.
    pub staging_size: u64,
    /// Bytes in one row of the copy.
    pub bytes_per_row: u64,
    /// The batches, at increasing offsets of the vertex buffer.
    pub ranges: Vec<BatchRange>,
    /// Bytes of vertex data in all batches together.
    pub vertex_bytes: u64,
}

/// No two neighbouring batches share a texture: whatever could be merged
/// has been merged.
pub open spec fn spec_merged(batches: Seq<BatchModel>) -> bool {
    forall|i: int| 0 < i < batches.len() ==> batches[i - 1].texture != (#[trigger] batches[i]).texture
}

/// The number of vertices in the first `n` batches.
pub open spec fn spec_vertices_before(batches: Seq<BatchModel>, n: int) -> int
    decreases n,
{
    if n <= 0 {
        0
    } else {
        spec_vertices_before(batches, n - 1) + batches[n - 1].vertices.len()
    }
}

/// The place of batch `i`: the batches lie one behind the other, each
/// vertex taking [`VERTEX_STRIDE`] bytes.
pub open spec fn spec_batch_range(batches: Seq<BatchModel>, i: int) -> BatchRange {
    BatchRange {
        texture: batches[i].texture,
        byte_offset: (VERTEX_STRIDE * spec_vertices_before(batches, i)) as u64,
        byte_len: (VERTEX_STRIDE * batches[i].vertices.len()) as u64,
        vertex_count: batches[i].vertices.len() as u32,
    }
}

/// The places of all batches.
pub open spec fn spec_batch_ranges(batches: Seq<BatchModel>) -> Seq<BatchRange> {
    Seq::new(batches.len(), |i: int| spec_batch_range(batches, i))
}

/// What [`GpuRenderer::plan_flush`] decides, given the pending batches,
/// the render target before and after and the frame buffer to fill: no
/// plan and no change where nothing is pending; else a plan for the frame
/// buffer's size that places the batches one behind the other and asks for
/// the render target only if there was none.
pub open spec fn spec_flush_planned(
    plan: Option<FlushPlan>,
    batches: Seq<BatchModel>,
    target_before: Option<(u32, u32)>,
    target_after: Option<(u32, u32)>,
    frame_buffer: FrameBuffer,
) -> bool {
    match plan {
        None => {
            &&& batches.len() == 0
            &&& target_after == target_before
        },
        Some(p) => {
            &&& batches.len() > 0
            &&& p.width == frame_buffer.spec_width()
            &&& p.height == frame_buffer.spec_height()
            &&& p.staging_size == frame_buffer@.len()
            &&& p.bytes_per_row == 4 * frame_buffer.spec_width()
            &&& p.allocate_target == target_before.is_none()
            &&& target_after == if target_before.is_none() {
                Some((p.width, p.height))
            } else {
                target_before
            }
            &&& p.ranges@ == spec_batch_ranges(batches)
            &&& p.vertex_bytes == VERTEX_STRIDE * spec_vertices_before(
                batches,
                batches.len() as int,
            )
        },
    }
}

impl DecodedImage {
    /// The width in pixels.
    pub closed spec fn spec_width(&self) -> int {
        self.width as int
    }

    /// The height in pixels.
    pub closed spec fn spec_height(&self) -> int {
        self.height as int
    }

    /// The RGBA bytes, row by row.
    pub closed spec fn spec_bytes(&self) -> Seq<u8> {
        self.rgba@
    }

    /// There are exactly four bytes for each pixel.
    #[verifier::type_invariant]
    pub open spec fn wf(&self) -> bool {
        &&& 0 <= self.spec_width() <= u32::MAX
        &&& 0 <= self.spec_height() <= u32::MAX
        &&& self.spec_bytes().len() == self.spec_width() * self.spec_height() * 4
    }

    /// An image of the given size, or `None` if `rgba` does not hold four
    /// bytes for each pixel.
    pub fn new(width: u32, height: u32, rgba: Vec<u8>) -> (image: Option<DecodedImage>)
        ensures
            match image {
                Some(img) => {
                    &&& rgba@.len() == width * height * 4
                    &&& img.wf()
                    &&& img.spec_width() == width
                    &&& img.spec_height() == height
                    &&& img.spec_bytes() == rgba@
                },
                None => rgba@.len() != width * height * 4,
            },
    {
        assert(0 <= width * height <= u64::MAX) by (nonlinear_arith)
            requires
                0 <= width <= u32::MAX,
                0 <= height <= u32::MAX,
        ;
        let pixels: u64 = (width as u64) * (height as u64);
        let len: u64 = rgba.len() as u64;
        if len % 4 == 0 && len / 4 == pixels {
            Some(DecodedImage { width, height, rgba })
        } else {
            None
        }
    }

    /// Width and height in pixels.
    pub fn dimensions(&self) -> (dims: (u32, u32))
        ensures
            dims.0 == self.spec_width(),
            dims.1 == self.spec_height(),
    {
        (self.width, self.height)
    }

    /// The RGBA bytes, row by row.
    pub fn as_bytes(&self) -> (bytes: &[u8])
        ensures
            bytes@ == self.spec_bytes(),
    {
        self.rgba.as_slice()
    }

    /// Bytes in one row of the image.
    pub fn bytes_per_row(&self) -> (n: u64)
        ensures
            n == 4 * self.spec_width(),
    {
        4 * (self.width as u64)
    }
}

impl DrawBatch {
    /// The batch as a plain value.
    pub open spec fn model(&self) -> BatchModel {
        BatchModel { texture: self.texture, vertices: self.vertices@ }
    }
}

/// Batches quads per texture and plans their submission.
pub struct GpuRenderer {
    width: u32,
    height: u32,
    batches: Vec<DrawBatch>,
    /// Width and height of every texture, by handle. The first is the
    /// reserved white texture.
    textures: Vec<(u32, u32)>,
    /// The number of vertices in `batches`.
    pending: u64,
    /// The most vertices that may wait for one flush.
    budget: u64,
    /// Size of the render target, once it has been allocated.
    target: Option<(u32, u32)>,
}

impl GpuRenderer {
    /// Width of the target that positions are normalized against.
    pub closed spec fn spec_width(&self) -> int {
        self.width as int
    }

    /// Height of the target that positions are normalized against.
    pub closed spec fn spec_height(&self) -> int {
        self.height as int
    }

    /// The pending batches, oldest first.
    pub closed spec fn spec_batches(&self) -> Seq<BatchModel> {
        self.batches@.map_values(|b: DrawBatch| b.model())
    }

    /// Width and height of every texture, by handle.
    pub closed spec fn spec_textures(&self) -> Seq<(u32, u32)> {
        self.textures@
    }

    /// Size of the off-screen render target, if one has been allocated.
    pub closed spec fn spec_target(&self) -> Option<(u32, u32)> {
        self.target
    }

    /// The most vertices that may wait for one flush.
    pub closed spec fn spec_vertex_budget(&self) -> int {
        self.budget as int
    }

    /// The number of vertices that wait for the next flush.
    pub open spec fn spec_pending_vertices(&self) -> int {
        spec_vertices_before(self.spec_batches(), self.spec_batches().len() as int)
    }

    /// The renderer is consistent: the white texture exists, every batch
    /// names a texture of the table, and the pending vertices are within
    /// the budget.
    pub closed spec fn wf(&self) -> bool {
        &&& self.textures@.len() >= 1
        &&& self.textures@[0] == (1u32, 1u32)
        &&& self.pending == self.spec_pending_vertices()
        &&& self.pending <= self.budget
        &&& self.budget <= MAX_PENDING_VERTICES
        &&& spec_merged(self.spec_batches())
        &&& forall|i: int|
            0 <= i < self.batches@.len() ==> (#[trigger] self.batches@[i]).texture.index
                < self.textures@.len()
    }

    /// What a well-formed renderer guarantees to its users.
    pub proof fn lemma_wf(&self)
        requires
            self.wf(),
        ensures
            self.spec_textures().len() >= 1,
            self.spec_textures()[0] == (1u32, 1u32),
            0 <= self.spec_pending_vertices() <= self.spec_vertex_budget()
                <= MAX_PENDING_VERTICES,
            spec_merged(self.spec_batches()),
            forall|i: int|
                0 <= i < self.spec_batches().len() ==> (#[trigger] self.spec_batches()[i]).texture.index
                    < self.spec_textures().len(),
    {
    }

    /// A renderer for a target of the given size, with nothing pending and
    /// the white texture as its only texture.
    pub fn new(width: u32, height: u32) -> (gpu: GpuRenderer)
        ensures
            gpu.wf(),
            gpu.spec_width() == width,
            gpu.spec_height() == height,
            gpu.spec_batches() == Seq::<BatchModel>::empty(),
            gpu.spec_textures() == seq![(1u32, 1u32)],
            gpu.spec_target().is_none(),
            gpu.spec_vertex_budget() == MAX_PENDING_VERTICES,
    {
        Self::with_vertex_budget(width, height, MAX_PENDING_VERTICES)
    }

    /// A renderer as [`GpuRenderer::new`] makes it, that lets no more than
    /// `budget` vertices wait for one flush. A budget above
    /// [`MAX_PENDING_VERTICES`] is cut down to that.
    pub fn with_vertex_budget(width: u32, height: u32, budget: u64) -> (gpu: GpuRenderer)
        ensures
            gpu.wf(),
            gpu.spec_width() == width,
            gpu.spec_height() == height,
            gpu.spec_batches() == Seq::<BatchModel>::empty(),
            gpu.spec_textures() == seq![(1u32, 1u32)],
            gpu.spec_target().is_none(),
            gpu.spec_vertex_budget() == if budget > MAX_PENDING_VERTICES {
                MAX_PENDING_VERTICES
            } else {
                budget
            },
    {
        let mut textures: Vec<(u32, u32)> = Vec::new();
        textures.push((1, 1));
        let gpu = GpuRenderer {
            width,
            height,
            batches: Vec::new(),
            textures,
            pending: 0,
            budget: if budget > MAX_PENDING_VERTICES {
                MAX_PENDING_VERTICES
            } else {
                budget
            },
            target: None,
        };
        assert(gpu.spec_batches() =~= Seq::<BatchModel>::empty());
        assert(gpu.spec_textures() =~= seq![(1u32, 1u32)]);
        gpu
    }

    /// The most vertices that may wait for one flush.
    pub fn vertex_budget(&self) -> (budget: u64)
        ensures
            budget == self.spec_vertex_budget(),
    {
        self.budget
    }

    /// The reserved 1x1 opaque white texture, with which untextured fills
    /// are drawn.
    pub fn white_texture(&self) -> (handle: TextureHandle)
        ensures
            handle.index == 0,
    {
        TextureHandle { index: 0 }
    }

    /// The corner of a quad at pixel `(px, py)`.
    fn corner(&self, px: i64, py: i64, color: [u8; 4], u: u8, v: u8) -> (vertex: Vertex)
        requires
            -0x1_0000_0000 <= px <= 0x2_0000_0000,
            -0x1_0000_0000 <= py <= 0x2_0000_0000,
        ensures
            vertex == spec_corner(
                self.spec_width(),
                self.spec_height(),
                px as int,
                py as int,
                color,
                u,
                v,
            ),
    {
        Vertex {
            x: NdcCoord { num: 2 * px - (self.width as i64), den: self.width },
            y: NdcCoord { num: (self.height as i64) - 2 * py, den: self.height },
            color,
            u,
            v,
        }
    }

    /// Draw a textured rectangle with top-left pixel `(x, y)`: six vertices
    /// in normalized device space, tinted with `color`, join the last batch
    /// if it has the same texture and open a new batch otherwise.
    pub fn draw_texture(
        &mut self,
        texture: TextureHandle,
        x: i32,
        y: i32,
        width: u32,
        height: u32,
        color: [u8; 4],
    ) -> (result: Result<(), GpuError>)
        requires
            old(self).wf(),
        ensures
            final(self).wf(),
            final(self).spec_width() == old(self).spec_width(),
            final(self).spec_height() == old(self).spec_height(),
            final(self).spec_textures() == old(self).spec_textures(),
            final(self).spec_vertex_budget() == old(self).spec_vertex_budget(),
            final(self).spec_target() == old(self).spec_target(),
            match result {
                Ok(()) => {
                    &&& texture.index < old(self).spec_textures().len()
                    &&& old(self).spec_pending_vertices() + 6 <= old(self).spec_vertex_budget()
                    &&& final(self).spec_batches() == spec_enqueue(
                        old(self).spec_batches(),
                        texture,
                        spec_quad(
                            old(self).spec_width(),
                            old(self).spec_height(),
                            x as int,
                            y as int,
                            width as int,
                            height as int,
                            color,
                        ),
                    )
                },
                Err(GpuError::UnknownTexture) => {
                    &&& texture.index >= old(self).spec_textures().len()
                    &&& final(self).spec_batches() == old(self).spec_batches()
                },
                Err(GpuError::TooManyVertices) => {
                    &&& texture.index < old(self).spec_textures().len()
                    &&& old(self).spec_pending_vertices() + 6 > old(self).spec_vertex_budget()
                    &&& final(self).spec_batches() == old(self).spec_batches()
                },
            },
    {
        if texture.index >= self.textures.len() {
            return Err(GpuError::UnknownTexture);
        }
        if self.budget < 6 || self.pending > self.budget - 6 {
            return Err(GpuError::TooManyVertices);
        }
        let x1: i64 = x as i64;
        let y1: i64 = y as i64;
        let x2: i64 = x1 + (width as i64);
        let y2: i64 = y1 + (height as i64);
        let mut quad: Vec<Vertex> = vec![
            self.corner(x1, y1, color, 0, 0),
            self.corner(x2, y1, color, 1, 0),
            self.corner(x2, y2, color, 1, 1),
            self.corner(x1, y1, color, 0, 0),
            self.corner(x2, y2, color, 1, 1),
            self.corner(x1, y2, color, 0, 1),
        ];
        let ghost quad_model = spec_quad(
            self.spec_width(),
            self.spec_height(),
            x as int,
            y as int,
            width as int,
            height as int,
            color,
        );
        assert(quad@ =~= quad_model);
        proof {
            lemma_enqueue_vertices(self.spec_batches(), texture, quad_model);
            lemma_enqueue_keeps_merged(self.spec_batches(), texture, quad_model);
        }
        let n: usize = self.batches.len();
        if n > 0 && self.batches[n - 1].texture.index == texture.index {
            self.batches[n - 1].vertices.append(&mut quad);
        } else {
            self.batches.push(DrawBatch { texture, vertices: quad });
        }
        self.pending = self.pending + 6;
        assert(self.spec_batches() =~~= spec_enqueue(old(self).spec_batches(), texture, quad_model));
        Ok(())
    }

    /// Fill a rectangle with a color: a draw with the white texture.
    pub fn fill_rect(&mut self, x: i32, y: i32, width: u32, height: u32, color: [u8; 4]) -> (result:
        Result<(), GpuError>)
        requires
            old(self).wf(),
        ensures
            final(self).wf(),
            final(self).spec_width() == old(self).spec_width(),
            final(self).spec_height() == old(self).spec_height(),
            final(self).spec_textures() == old(self).spec_textures(),
            final(self).spec_vertex_budget() == old(self).spec_vertex_budget(),
            final(self).spec_target() == old(self).spec_target(),
            match result {
                Ok(()) => {
                    &&& old(self).spec_pending_vertices() + 6 <= old(self).spec_vertex_budget()
                    &&& final(self).spec_batches() == spec_enqueue(
                        old(self).spec_batches(),
                        TextureHandle { index: 0 },
                        spec_quad(
                            old(self).spec_width(),
                            old(self).spec_height(),
                            x as int,
                            y as int,
                            width as int,
                            height as int,
                            color,
                        ),
                    )
                },
                Err(e) => {
                    &&& e == GpuError::TooManyVertices
                    &&& old(self).spec_pending_vertices() + 6 > old(self).spec_vertex_budget()
                    &&& final(self).spec_batches() == old(self).spec_batches()
                },
            },
    {
        let white = self.white_texture();
        self.draw_texture(white, x, y, width, height, color)
    }

    /// Enter an image into the texture table. The new handle is the next
    /// free index; the caller uploads the image's bytes under it.
    pub fn create_texture(&mut self, image: &DecodedImage) -> (handle: TextureHandle)
        requires
            old(self).wf(),
        ensures
            final(self).wf(),
            handle.index == old(self).spec_textures().len(),
            final(self).spec_textures() == old(self).spec_textures().push(
                (image.spec_width() as u32, image.spec_height() as u32),
            ),
            final(self).spec_width() == old(self).spec_width(),
            final(self).spec_height() == old(self).spec_height(),
            final(self).spec_batches() == old(self).spec_batches(),
            final(self).spec_target() == old(self).spec_target(),
            final(self).spec_vertex_budget() == old(self).spec_vertex_budget(),
    {
        let handle = TextureHandle { index: self.textures.len() };
        self.textures.push(image.dimensions());
        handle
    }

    /// The pending batches, oldest first: what a flush uploads.
    pub fn batches(&self) -> (batches: &[DrawBatch])
        ensures
            batches@.map_values(|b: DrawBatch| b.model()) == self.spec_batches(),
    {
        self.batches.as_slice()
    }

    /// Width and height of the target that positions are normalized
    /// against.
    pub fn dimensions(&self) -> (dims: (u32, u32))
        ensures
            dims.0 == self.spec_width(),
            dims.1 == self.spec_height(),
    {
        (self.width, self.height)
    }

    /// The number of vertices that wait for the next flush.
    pub fn pending_vertices(&self) -> (count: u64)
        requires
            self.wf(),
        ensures
            count == self.spec_pending_vertices(),
            count <= self.spec_vertex_budget(),
    {
        self.pending
    }

    /// Whether any batch waits for a flush.
    pub fn has_pending(&self) -> (pending: bool)
        ensures
            pending == (self.spec_batches().len() > 0),
    {
        self.batches.len() > 0
    }

    /// Decide what a flush into `frame_buffer` submits. With no batch
    /// pending there is nothing to do and nothing changes. Otherwise the
    /// plan places the batches one behind the other in the vertex buffer and
    /// asks for the render target on the first flush only.
    pub fn plan_flush(&mut self, frame_buffer: &FrameBuffer) -> (plan: Option<FlushPlan>)
        requires
            old(self).wf(),
        ensures
            final(self).wf(),
            final(self).spec_width() == old(self).spec_width(),
            final(self).spec_height() == old(self).spec_height(),
            final(self).spec_textures() == old(self).spec_textures(),
            final(self).spec_vertex_budget() == old(self).spec_vertex_budget(),
            final(self).spec_batches() == old(self).spec_batches(),
            spec_flush_planned(
                plan,
                old(self).spec_batches(),
                old(self).spec_target(),
                final(self).spec_target(),
                *frame_buffer,
            ),
    {
        let count: usize = self.batches.len();
        if count == 0 {
            return None;
        }
        let (width, height) = frame_buffer.dimensions();
        let staging_size: u64 = frame_buffer.as_bytes().len() as u64;
        let allocate_target: bool = self.target.is_none();
        if allocate_target {
            self.target = Some((width, height));
        }
        let ghost batches = self.spec_batches();
        let mut ranges: Vec<BatchRange> = Vec::new();
        let mut before: u64 = 0;
        let mut i: usize = 0;
        while i < count
            invariant
                self.wf(),
                batches == self.spec_batches(),
                count == self.batches@.len(),
                i <= count,
                before == spec_vertices_before(batches, i as int),
                ranges@.len() == i,
                forall|j: int| 0 <= j < i ==> ranges@[j] == spec_batch_range(batches, j),
            decreases count - i,
        {
            proof {
                lemma_vertices_before_monotone(batches, i as int + 1, count as int);
                lemma_vertices_before_monotone(batches, i as int, i as int + 1);
            }
            let len: u64 = self.batches[i].vertices.len() as u64;
            assert(len == batches[i as int].vertices.len());
            ranges.push(
                BatchRange {
                    texture: self.batches[i].texture,
                    byte_offset: VERTEX_STRIDE * before,
                    byte_len: VERTEX_STRIDE * len,
                    vertex_count: len as u32,
                },
            );
            before = before + len;
            i = i + 1;
        }
        assert(ranges@ =~= spec_batch_ranges(batches));
        Some(
            FlushPlan {
                width,
                height,
                allocate_target,
                staging_size,
                bytes_per_row: 4 * (width as u64),
                ranges,
                vertex_bytes: VERTEX_STRIDE * before,
            },
        )
    }

    /// Take the rendered bytes: they replace the frame buffer's contents as
    /// they are, and no batch is pending afterwards.
    pub fn complete_flush(&mut self, frame_buffer: &mut FrameBuffer, data: &[u8])
        requires
            old(self).wf(),
            data@.len() == old(frame_buffer)@.len(),
        ensures
            final(self).wf(),
            final(self).spec_width() == old(self).spec_width(),
            final(self).spec_height() == old(self).spec_height(),
            final(self).spec_textures() == old(self).spec_textures(),
            final(self).spec_vertex_budget() == old(self).spec_vertex_budget(),
            final(self).spec_target() == old(self).spec_target(),
            final(self).spec_batches() == Seq::<BatchModel>::empty(),
            final(frame_buffer)@ == data@,
            final(frame_buffer).spec_width() == old(frame_buffer).spec_width(),
            final(frame_buffer).spec_height() == old(frame_buffer).spec_height(),
    {
        frame_buffer.copy_from_slice(data);
        self.batches.clear();
        self.pending = 0;
        assert(self.spec_batches() =~= Seq::<BatchModel>::empty());
    }

    /// Width and height of a texture, or `None` for a handle that names none.
    pub fn texture_size(&self, handle: TextureHandle) -> (size: Option<(u32, u32)>)
        ensures
            size == if handle.index < self.spec_textures().len() {
                Some(self.spec_textures()[handle.index as int])
            } else {
                None
            },
    {
        if handle.index < self.textures.len() {
            Some(self.textures[handle.index])
        } else {
            None
        }
    }
}

/// The vertex count of a prefix does not depend on the batches behind it.
pub proof fn lemma_vertices_before_prefix(a: Seq<BatchModel>, b: Seq<BatchModel>, n: int)
    requires
        0 <= n <= a.len(),
        n <= b.len(),
        forall|i: int| 0 <= i < n ==> a[i] == b[i],
    ensures
        spec_vertices_before(a, n) == spec_vertices_before(b, n),
    decreases n,
{
    if n > 0 {
        lemma_vertices_before_prefix(a, b, n - 1);
    }
}

/// A longer prefix holds at least as many vertices.
pub proof fn lemma_vertices_before_monotone(batches: Seq<BatchModel>, m: int, n: int)
    requires
        0 <= m <= n,
    ensures
        0 <= spec_vertices_before(batches, m) <= spec_vertices_before(batches, n),
    decreases n,
{
    if m < n {
        lemma_vertices_before_monotone(batches, m, n - 1);
    } else if m > 0 {
        lemma_vertices_before_monotone(batches, m - 1, m - 1);
    }
}

/// Enqueueing vertices raises the number of pending vertices by their count.
pub proof fn lemma_enqueue_vertices(
    batches: Seq<BatchModel>,
    texture: TextureHandle,
    vertices: Seq<Vertex>,
)
    ensures
        spec_vertices_before(
            spec_enqueue(batches, texture, vertices),
            spec_enqueue(batches, texture, vertices).len() as int,
        ) == spec_vertices_before(batches, batches.len() as int) + vertices.len(),
{
    let after = spec_enqueue(batches, texture, vertices);
    if batches.len() > 0 && batches.last().texture == texture {
        lemma_vertices_before_prefix(batches, after, batches.len() - 1);
    } else {
        lemma_vertices_before_prefix(batches, after, batches.len() as int);
    }
}

/// Enqueueing never leaves two neighbouring batches with one texture.
pub proof fn lemma_enqueue_keeps_merged(
    batches: Seq<BatchModel>,
    texture: TextureHandle,
    vertices: Seq<Vertex>,
)
    requires
        spec_merged(batches),
    ensures
        spec_merged(spec_enqueue(batches, texture, vertices)),
{
    let after = spec_enqueue(batches, texture, vertices);
    assert forall|i: int| 0 < i < after.len() implies after[i - 1].texture != (#[trigger] after[i]).texture by {
        if i < batches.len() {
            assert(batches[i - 1].texture != batches[i].texture);
        }
    }
}

/// A quad has six vertices, so two quads in one batch make twelve.
pub proof fn lemma_quad_has_six_vertices(
    target_width: int,
    target_height: int,
    x: int,
    y: int,
    width: int,
    height: int,
    color: [u8; 4],
)
    ensures
        spec_quad(target_width, target_height, x, y, width, height, color).len() == 6,
        (spec_quad(target_width, target_height, x, y, width, height, color) + spec_quad(
            target_width,
            target_height,
            x,
            y,
            width,
            height,
            color,
        )).len() == 12,
{
}

/// Two draws in a row with one texture end up in one batch: the second
/// adds no batch, and its vertices follow those of the first. On an empty
/// queue the result is a single batch that holds both.
pub proof fn lemma_same_texture_merges(
    batches: Seq<BatchModel>,
    texture: TextureHandle,
    first: Seq<Vertex>,
    second: Seq<Vertex>,
)
    ensures
        ({
            let once = spec_enqueue(batches, texture, first);
            let twice = spec_enqueue(once, texture, second);
            &&& twice.len() == once.len()
            &&& twice.last().texture == texture
            &&& twice.last().vertices == once.last().vertices + second
            &&& twice.last().vertices.len() == once.last().vertices.len() + second.len()
            &&& forall|i: int| 0 <= i < once.len() - 1 ==> twice[i] == once[i]
            &&& batches.len() == 0 ==> twice == seq![
                (BatchModel { texture, vertices: first + second }),
            ]
        }),
{
    let once = spec_enqueue(batches, texture, first);
    let twice = spec_enqueue(once, texture, second);
    if batches.len() == 0 {
        assert(twice =~~= seq![(BatchModel { texture, vertices: first + second })]);
    }
}

/// A draw with another texture than the one before opens a new batch that
/// holds exactly its vertices, and leaves the earlier batches as they are.
pub proof fn lemma_other_texture_opens_batch(
    batches: Seq<BatchModel>,
    texture: TextureHandle,
    other: TextureHandle,
    first: Seq<Vertex>,
    second: Seq<Vertex>,
)
    requires
        texture != other,
    ensures
        ({
            let once = spec_enqueue(batches, texture, first);
            let twice = spec_enqueue(once, other, second);
            &&& twice.len() == once.len() + 1
            &&& twice.last() == (BatchModel { texture: other, vertices: second })
            &&& forall|i: int| 0 <= i < once.len() ==> twice[i] == once[i]
        }),
{
}

} // verus!
