//! A row-major RGBA pixel buffer, four bytes per pixel.

use vstd::prelude::*;
use crate::digits::{push_decimal, spec_decimal};

verus! {

/// The byte offset of pixel `(x, y)` in a buffer `width` pixels wide.
pub open spec fn spec_pixel_offset(width: int, x: int, y: int) -> int {
    (y * width + x) * 4
}

/// A buffer of `len` bytes in which every pixel is `color`.
pub open spec fn spec_filled(len: nat, color: Seq<u8>) -> Seq<u8> {
    Seq::new(len, |i: int| color[i % 4])
}

/// The buffer `bytes` with the four bytes from `offset` on replaced by `color`.
pub open spec fn spec_with_pixel(bytes: Seq<u8>, offset: int, color: Seq<u8>) -> Seq<u8> {
    Seq::new(
        bytes.len(),
        |i: int|
            if offset <= i < offset + 4 {
                color[i - offset]
            } else {
                bytes[i]
            },
    )
}

/// One colour channel of source-over compositing with integer alpha:
/// `(fg * alpha + bg * (255 - alpha)) / 255`, rounded towards zero.
pub open spec fn spec_blend_channel(fg: u8, bg: u8, alpha: u8) -> u8 {
    ((fg as int * alpha as int + bg as int * (255 - alpha as int)) / 255) as u8
}

/// The pixel that results from compositing `fg` over `bg`. Its alpha is
/// always fully opaque.
pub open spec fn spec_blend(fg: Seq<u8>, bg: Seq<u8>) -> Seq<u8> {
    seq![
        spec_blend_channel(fg[0], bg[0], fg[3]),
        spec_blend_channel(fg[1], bg[1], fg[3]),
        spec_blend_channel(fg[2], bg[2], fg[3]),
        255u8,
    ]
}

/// The colour bytes of `bytes`: of every pixel the red, green and blue
/// byte, the alpha byte left out.
pub open spec fn spec_rgb(bytes: Seq<u8>) -> Seq<u8> {
    Seq::new((bytes.len() / 4 * 3) as nat, |i: int| bytes[(i / 3) * 4 + i % 3])
}

/// The header of a binary PPM image: the two magic bytes, width and height in
/// decimal, and the largest channel value, 255, each followed by a line
/// feed or a space.
pub open spec fn spec_ppm_header(width: nat, height: nat) -> Seq<u8> {
    seq![80u8, 54u8, 10u8] + spec_decimal(width) + seq![32u8] + spec_decimal(height) + seq![
        10u8,
        50u8,
        53u8,
        53u8,
        10u8,
    ]
}

/// A frame as a binary PPM image: the header, then the colour bytes row by
/// row.
pub open spec fn spec_ppm(width: nat, height: nat, bytes: Seq<u8>) -> Seq<u8> {
    spec_ppm_header(width, height) + spec_rgb(bytes)
}

/// RGBA frame buffer for rendering.
pub struct FrameBuffer {
    width: u32,
    height: u32,
    pixels: Vec<u8>,
}

impl View for FrameBuffer {
    type V = Seq<u8>;

    /// The bytes of the buffer, row by row.
    closed spec fn view(&self) -> Seq<u8> {
        self.pixels@
    }
}

impl FrameBuffer {
    /// The width in pixels.
    pub closed spec fn spec_width(&self) -> int {
        self.width as int
    }

    /// The height in pixels.
    pub closed spec fn spec_height(&self) -> int {
        self.height as int
    }

    /// The buffer holds exactly four bytes for each pixel.
    #[verifier::type_invariant]
    pub open spec fn wf(&self) -> bool {
        &&& 0 <= self.spec_width() <= u32::MAX
        &&& 0 <= self.spec_height() <= u32::MAX
        &&& self@.len() == self.spec_width() * self.spec_height() * 4
    }

    /// Whether `(x, y)` names a pixel of the buffer.
    pub open spec fn spec_in_bounds(&self, x: int, y: int) -> bool {
        0 <= x < self.spec_width() && 0 <= y < self.spec_height()
    }

    /// The four bytes of pixel `(x, y)`.
    pub open spec fn spec_pixel(&self, x: int, y: int) -> Seq<u8> {
        let offset = spec_pixel_offset(self.spec_width(), x, y);
        self@.subrange(offset, offset + 4)
    }

    /// What [`FrameBuffer::get_pixel`] yields: the pixel at an in-bounds
    /// position, nothing elsewhere.
    pub open spec fn spec_get_pixel(&self, x: int, y: int) -> Option<Seq<u8>> {
        if self.spec_in_bounds(x, y) {
            Some(self.spec_pixel(x, y))
        } else {
            None
        }
    }

    /// The pixels of an in-bounds coordinate lie inside the buffer.
    pub proof fn lemma_offset_in_range(&self, x: int, y: int)
        requires
            self.wf(),
            self.spec_in_bounds(x, y),
        ensures
            0 <= y * self.spec_width(),
            0 <= spec_pixel_offset(self.spec_width(), x, y),
            spec_pixel_offset(self.spec_width(), x, y) + 4 <= self@.len(),
    {
        let w = self.spec_width();
        let h = self.spec_height();
        assert(y * w + x + 1 <= h * w) by (nonlinear_arith)
            requires
                0 <= x < w,
                0 <= y < h,
        ;
        assert(0 <= y * w) by (nonlinear_arith)
            requires
                0 <= y,
                0 <= w,
        ;
        assert(w * h == h * w) by (nonlinear_arith);
    }

    /// Create a new frame buffer with the given dimensions, every byte zero.
    pub fn new(width: u32, height: u32) -> (fb: FrameBuffer)
        requires
            width * height * 4 <= usize::MAX,
        ensures
            fb.wf(),
            fb.spec_width() == width,
            fb.spec_height() == height,
            fb@ == Seq::new((width * height * 4) as nat, |i: int| 0u8),
    {
        assert(0 <= width * height <= width * height * 4) by (nonlinear_arith);
        let size: usize = (width as usize) * (height as usize) * 4;
        let pixels: Vec<u8> = vec![0u8; size];
        assert(pixels@ =~= Seq::new((width * height * 4) as nat, |i: int| 0u8));
        FrameBuffer { width, height, pixels }
    }

    /// Get buffer dimensions.
    pub fn dimensions(&self) -> (dims: (u32, u32))
        ensures
            dims.0 == self.spec_width(),
            dims.1 == self.spec_height(),
    {
        (self.width, self.height)
    }

    /// Get raw pixel data.
    pub fn as_bytes(&self) -> (bytes: &[u8])
        ensures
            bytes@ == self@,
    {
        self.pixels.as_slice()
    }

    /// Clear buffer with color.
    pub fn clear(&mut self, color: [u8; 4])
        ensures
            final(self).spec_width() == old(self).spec_width(),
            final(self).spec_height() == old(self).spec_height(),
            final(self)@ == spec_filled(old(self)@.len(), color@),
    {
        proof {
            use_type_invariant(&*self);
        }
        let n: usize = self.pixels.len();
        let mut i: usize = 0;
        while i < n
            invariant
                n == self.pixels@.len(),
                n == self.width * self.height * 4,
                i % 4 == 0,
                i <= n,
                self.width == old(self).width,
                self.height == old(self).height,
                self.pixels@.len() == old(self).pixels@.len(),
                forall|j: int| 0 <= j < i ==> self.pixels@[j] == color@[j % 4],
            decreases n - i,
        {
            self.pixels[i] = color[0];
            self.pixels[i + 1] = color[1];
            self.pixels[i + 2] = color[2];
            self.pixels[i + 3] = color[3];
            i = i + 4;
        }
        assert(self.pixels@ =~= spec_filled(old(self)@.len(), color@));
    }

    /// Set pixel at position. A position outside the buffer is ignored.
    pub fn set_pixel(&mut self, x: u32, y: u32, color: [u8; 4])
        ensures
            final(self).spec_width() == old(self).spec_width(),
            final(self).spec_height() == old(self).spec_height(),
            old(self).spec_in_bounds(x as int, y as int) ==> final(self)@ == spec_with_pixel(
                old(self)@,
                spec_pixel_offset(old(self).spec_width(), x as int, y as int),
                color@,
            ),
            !old(self).spec_in_bounds(x as int, y as int) ==> final(self)@ == old(self)@,
    {
        proof {
            use_type_invariant(&*self);
        }
        if x < self.width && y < self.height {
            proof {
                self.lemma_offset_in_range(x as int, y as int);
                assert(self.pixels@.len() == self.pixels.len());
                assert(y * self.width <= y * self.width + x <= (y * self.width + x) * 4);
            }
            let idx: usize = ((y as usize) * (self.width as usize) + (x as usize)) * 4;
            self.pixels[idx] = color[0];
            self.pixels[idx + 1] = color[1];
            self.pixels[idx + 2] = color[2];
            self.pixels[idx + 3] = color[3];
            assert(self.pixels@ =~= spec_with_pixel(old(self)@, idx as int, color@));
        }
    }

    /// Get pixel at position, or `None` for a position outside the buffer.
    pub fn get_pixel(&self, x: u32, y: u32) -> (pixel: Option<[u8; 4]>)
        ensures
            match pixel {
                Some(p) => self.spec_get_pixel(x as int, y as int) == Some(p@),
                None => self.spec_get_pixel(x as int, y as int).is_none(),
            },
    {
        proof {
            use_type_invariant(self);
        }
        if x < self.width && y < self.height {
            proof {
                self.lemma_offset_in_range(x as int, y as int);
                assert(self.pixels@.len() == self.pixels.len());
                assert(y * self.width <= y * self.width + x <= (y * self.width + x) * 4);
            }
            let idx: usize = ((y as usize) * (self.width as usize) + (x as usize)) * 4;
            let pixel: [u8; 4] = [
                self.pixels[idx],
                self.pixels[idx + 1],
                self.pixels[idx + 2],
                self.pixels[idx + 3],
            ];
            assert(pixel@ =~= self.spec_pixel(x as int, y as int));
            Some(pixel)
        } else {
            None
        }
    }

    /// Alpha blend a color onto the buffer at position: source-over
    /// compositing, with the result fully opaque. A position outside the
    /// buffer is ignored.
    pub fn blend_pixel(&mut self, x: u32, y: u32, color: [u8; 4])
        ensures
            final(self).spec_width() == old(self).spec_width(),
            final(self).spec_height() == old(self).spec_height(),
            old(self).spec_in_bounds(x as int, y as int) ==> final(self)@ == spec_with_pixel(
                old(self)@,
                spec_pixel_offset(old(self).spec_width(), x as int, y as int),
                spec_blend(color@, old(self).spec_pixel(x as int, y as int)),
            ),
            !old(self).spec_in_bounds(x as int, y as int) ==> final(self)@ == old(self)@,
    {
        match self.get_pixel(x, y) {
            Some(bg) => {
                let blended: [u8; 4] = [
                    blend_channel(color[0], bg[0], color[3]),
                    blend_channel(color[1], bg[1], color[3]),
                    blend_channel(color[2], bg[2], color[3]),
                    255,
                ];
                assert(blended@ =~= spec_blend(color@, bg@));
                self.set_pixel(x, y, blended);
            },
            None => {},
        }
    }

    /// The frame as a binary PPM image, alpha dropped: what is written
    /// when a frame is saved.
    pub fn to_ppm(&self) -> (out: Vec<u8>)
        ensures
            out@ == spec_ppm(self.spec_width() as nat, self.spec_height() as nat, self@),
    {
        proof {
            use_type_invariant(self);
        }
        let mut out: Vec<u8> = Vec::new();
        out.push(80);
        out.push(54);
        out.push(10);
        push_decimal(&mut out, self.width as u64);
        out.push(32);
        push_decimal(&mut out, self.height as u64);
        out.push(10);
        out.push(50);
        out.push(53);
        out.push(53);
        out.push(10);
        let ghost header = out@;
        assert(header =~= spec_ppm_header(self.spec_width() as nat, self.spec_height() as nat));
        let n: usize = self.pixels.len();
        let mut i: usize = 0;
        while i < n
            invariant
                n == self.pixels@.len(),
                n % 4 == 0,
                i % 4 == 0,
                i <= n,
                out@.len() == header.len() + (i / 4) * 3,
                forall|j: int| 0 <= j < header.len() ==> out@[j] == header[j],
                forall|k: int|
                    header.len() <= k < out@.len() ==> #[trigger] out@[k] == self.pixels@[((k
                        - header.len()) / 3) * 4 + (k - header.len()) % 3],
            decreases n - i,
        {
            out.push(self.pixels[i]);
            out.push(self.pixels[i + 1]);
            out.push(self.pixels[i + 2]);
            i = i + 4;
        }
        assert(out@ =~= header + spec_rgb(self@));
        out
    }

    /// Copy data from a slice into the buffer.
    pub fn copy_from_slice(&mut self, data: &[u8])
        requires
            data@.len() == old(self)@.len(),
        ensures
            final(self).spec_width() == old(self).spec_width(),
            final(self).spec_height() == old(self).spec_height(),
            final(self)@ == data@,
    {
        proof {
            use_type_invariant(&*self);
        }
        let n: usize = self.pixels.len();
        let mut i: usize = 0;
        while i < n
            invariant
                n == self.pixels@.len(),
                n == self.width * self.height * 4,
                n == data@.len(),
                i <= n,
                self.width == old(self).width,
                self.height == old(self).height,
                forall|j: int| 0 <= j < i ==> self.pixels@[j] == data@[j],
            decreases n - i,
        {
            self.pixels[i] = data[i];
            i = i + 1;
        }
        assert(self.pixels@ =~= data@);
    }
}

/// Clearing and reading back: once every pixel has been set to `color`,
/// each position inside the buffer reads as `color` and each position
/// outside it reads as nothing.
pub proof fn lemma_clear_then_get_pixel(fb: FrameBuffer, color: Seq<u8>, x: int, y: int)
    requires
        fb.wf(),
        color.len() == 4,
        fb@ == spec_filled(fb@.len(), color),
    ensures
        fb.spec_in_bounds(x, y) ==> fb.spec_get_pixel(x, y) == Some(color),
        !fb.spec_in_bounds(x, y) ==> fb.spec_get_pixel(x, y).is_none(),
{
    if fb.spec_in_bounds(x, y) {
        fb.lemma_offset_in_range(x, y);
        assert(fb.spec_pixel(x, y) =~= color);
    }
}

/// Writing and reading back: a pixel set at an in-bounds position is the
/// pixel read there, and every other pixel is untouched.
pub proof fn lemma_set_then_get_pixel(
    before: FrameBuffer,
    after: FrameBuffer,
    color: Seq<u8>,
    x: int,
    y: int,
    ox: int,
    oy: int,
)
    requires
        before.wf(),
        after.wf(),
        color.len() == 4,
        before.spec_in_bounds(x, y),
        after.spec_width() == before.spec_width(),
        after.spec_height() == before.spec_height(),
        after@ == spec_with_pixel(
            before@,
            spec_pixel_offset(before.spec_width(), x, y),
            color,
        ),
    ensures
        after.spec_get_pixel(x, y) == Some(color),
        (ox != x || oy != y) ==> after.spec_get_pixel(ox, oy) == before.spec_get_pixel(ox, oy),
{
    let w = before.spec_width();
    before.lemma_offset_in_range(x, y);
    assert(after.spec_pixel(x, y) =~= color);
    if (ox != x || oy != y) && before.spec_in_bounds(ox, oy) {
        before.lemma_offset_in_range(ox, oy);
        lemma_distinct_pixels_disjoint(w, x, y, ox, oy);
        assert(after.spec_pixel(ox, oy) =~= before.spec_pixel(ox, oy));
    }
}

/// Two different positions of one buffer never share a byte.
pub proof fn lemma_distinct_pixels_disjoint(width: int, x: int, y: int, ox: int, oy: int)
    requires
        0 <= x < width,
        0 <= ox < width,
        0 <= y,
        0 <= oy,
        x != ox || y != oy,
    ensures
        spec_pixel_offset(width, x, y) + 4 <= spec_pixel_offset(width, ox, oy)
            || spec_pixel_offset(width, ox, oy) + 4 <= spec_pixel_offset(width, x, y),
{
    if y < oy {
        assert(y * width + width <= oy * width) by (nonlinear_arith)
            requires
                y + 1 <= oy,
                0 <= width,
        ;
    } else if oy < y {
        assert(oy * width + width <= y * width) by (nonlinear_arith)
            requires
                oy + 1 <= y,
                0 <= width,
        ;
    }
}

/// Compositing a fully opaque colour replaces the background by it.
pub proof fn lemma_blend_opaque(fg: Seq<u8>, bg: Seq<u8>)
    requires
        fg.len() == 4,
        bg.len() == 4,
        fg[3] == 255,
    ensures
        spec_blend(fg, bg) == seq![fg[0], fg[1], fg[2], 255u8],
{
    assert(spec_blend(fg, bg) =~= seq![fg[0], fg[1], fg[2], 255u8]);
}

/// Compositing a fully transparent colour keeps the background's colour
/// channels; the result is opaque.
pub proof fn lemma_blend_transparent(fg: Seq<u8>, bg: Seq<u8>)
    requires
        fg.len() == 4,
        bg.len() == 4,
        fg[3] == 0,
    ensures
        spec_blend(fg, bg) == seq![bg[0], bg[1], bg[2], 255u8],
{
    assert(spec_blend(fg, bg) =~= seq![bg[0], bg[1], bg[2], 255u8]);
}

/// Every channel of a composited pixel lies between the two colours that
/// were mixed.
pub proof fn lemma_blend_channel_between(fg: u8, bg: u8, alpha: u8)
    ensures
        fg <= bg ==> fg <= spec_blend_channel(fg, bg, alpha) <= bg,
        bg <= fg ==> bg <= spec_blend_channel(fg, bg, alpha) <= fg,
{
    let a = alpha as int;
    let total = fg as int * a + bg as int * (255 - a);
    if fg <= bg {
        assert(fg as int * 255 <= total <= bg as int * 255) by (nonlinear_arith)
            requires
                total == fg as int * a + bg as int * (255 - a),
                0 <= a <= 255,
                0 <= fg as int <= bg as int,
        ;
    } else {
        assert(bg as int * 255 <= total <= fg as int * 255) by (nonlinear_arith)
            requires
                total == fg as int * a + bg as int * (255 - a),
                0 <= a <= 255,
                0 <= bg as int <= fg as int,
        ;
    }
}

/// One channel of source-over compositing.
fn blend_channel(fg: u8, bg: u8, alpha: u8) -> (out: u8)
    ensures
        out == spec_blend_channel(fg, bg, alpha),
{
    let inv: u32 = 255 - (alpha as u32);
    assert(fg * alpha + bg * (255 - alpha) <= 255 * 255) by (nonlinear_arith)
        requires
            0 <= fg <= 255,
            0 <= bg <= 255,
            0 <= alpha <= 255,
    ;
    assert(fg * alpha >= 0 && bg * (255 - alpha) >= 0) by (nonlinear_arith)
        requires
            0 <= fg,
            0 <= bg,
            0 <= alpha <= 255,
    ;
    let sum: u32 = (fg as u32) * (alpha as u32) + (bg as u32) * inv;
    (sum / 255) as u8
}

} // verus!
