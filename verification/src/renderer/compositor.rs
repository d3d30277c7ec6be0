//! Drawing on a frame buffer: rectangles, a stand-in for text, and the
//! placement of a layer.

use vstd::prelude::*;
use vstd::arithmetic::div_mod::lemma_fundamental_div_mod_converse;
use crate::renderer::frame_buffer::{FrameBuffer, spec_pixel_offset, spec_with_pixel};
use crate::script::Transform;
use crate::text::spec_byte_len;

verus! {

/// Width in pixels of each byte of a placeholder text.
pub const TEXT_BYTE_WIDTH: u32 = 8;

/// The widest a placeholder text gets, in pixels.
pub const TEXT_MAX_WIDTH: u32 = 200;

/// Height of a placeholder text in pixels.
pub const TEXT_HEIGHT: u32 = 16;

/// Whether pixel `(px, py)` lies in the rectangle with top-left corner
/// `(x, y)` and the given size.
pub open spec fn spec_in_rect(px: int, py: int, x: int, y: int, width: int, height: int) -> bool {
    x <= px < x + width && y <= py < y + height
}

/// The buffer `bytes`, `buffer_width` pixels wide, after the rectangle has
/// been filled: each pixel of the buffer that lies in the rectangle is
/// `color`, every other pixel is as before.
pub open spec fn spec_fill_rect(
    bytes: Seq<u8>,
    buffer_width: int,
    x: int,
    y: int,
    width: int,
    height: int,
    color: Seq<u8>,
) -> Seq<u8> {
    Seq::new(
        bytes.len(),
        |i: int|
            if buffer_width > 0 && spec_in_rect(
                (i / 4) % buffer_width,
                (i / 4) / buffer_width,
                x,
                y,
                width,
                height,
            ) {
                color[i % 4]
            } else {
                bytes[i]
            },
    )
}

/// The width of the box that stands for a text of `len` bytes.
pub open spec fn spec_text_width(len: int) -> int {
    if len * TEXT_BYTE_WIDTH < TEXT_MAX_WIDTH {
        len * TEXT_BYTE_WIDTH
    } else {
        TEXT_MAX_WIDTH as int
    }
}

/// Layer compositor.
pub struct Compositor;

impl Compositor {
    /// Fill rectangle with color. The rectangle is clipped to the buffer;
    /// its pixels are overwritten, not blended.
    pub fn fill_rect(
        buffer: &mut FrameBuffer,
        x: i32,
        y: i32,
        width: u32,
        height: u32,
        color: [u8; 4],
    )
        ensures
            final(buffer).spec_width() == old(buffer).spec_width(),
            final(buffer).spec_height() == old(buffer).spec_height(),
            final(buffer)@ == spec_fill_rect(
                old(buffer)@,
                old(buffer).spec_width(),
                x as int,
                y as int,
                width as int,
                height as int,
                color@,
            ),
    {
        proof {
            use_type_invariant(&*buffer);
        }
        let (buf_width, buf_height) = buffer.dimensions();
        let ghost bw = buf_width as int;
        let ghost before = buffer@;
        let ghost goal = spec_fill_rect(
            before,
            bw,
            x as int,
            y as int,
            width as int,
            height as int,
            color@,
        );
        let x0: i64 = if x < 0 {
            0
        } else {
            x as i64
        };
        let y0: i64 = if y < 0 {
            0
        } else {
            y as i64
        };
        let x_end: i64 = (x as i64) + (width as i64);
        let y_end: i64 = (y as i64) + (height as i64);
        let x1: i64 = if x_end > buf_width as i64 {
            buf_width as i64
        } else {
            x_end
        };
        let y1: i64 = if y_end > buf_height as i64 {
            buf_height as i64
        } else {
            y_end
        };
        if x0 >= x1 || y0 >= y1 {
            proof {
                assert forall|i: int| 0 <= i < before.len() implies goal[i] == before[i] by {
                    if bw > 0 {
                        lemma_pixel_of_byte(bw, buffer.spec_height(), i);
                    }
                }
                assert(goal =~= before);
            }
            return ;
        }
        let mut py: i64 = y0;
        while py < y1
            invariant
                buffer.wf(),
                buffer.spec_width() == bw,
                buffer.spec_height() == old(buffer).spec_height(),
                buffer.spec_height() == buf_height,
                bw == buf_width,
                bw > 0,
                before == old(buffer)@,
                buffer@.len() == before.len(),
                0 <= x0 < x1 <= buf_width,
                0 <= y0 <= py <= y1 <= buf_height,
                x0 == if x < 0 { 0 } else { x as int },
                y0 == if y < 0 { 0 } else { y as int },
                x1 == if x + width > buf_width { buf_width as int } else { x + width },
                y1 == if y + height > buf_height { buf_height as int } else { y + height },
                forall|i: int|
                    0 <= i < before.len() ==> #[trigger] buffer@[i] == if spec_in_rect(
                        (i / 4) % bw,
                        (i / 4) / bw,
                        x as int,
                        y as int,
                        width as int,
                        height as int,
                    ) && (i / 4) / bw < py {
                        color@[i % 4]
                    } else {
                        before[i]
                    },
            decreases y1 - py,
        {
            let mut px: i64 = x0;
            while px < x1
                invariant
                    buffer.wf(),
                    buffer.spec_width() == bw,
                    buffer.spec_height() == old(buffer).spec_height(),
                    buffer.spec_height() == buf_height,
                    bw == buf_width,
                    bw > 0,
                    before == old(buffer)@,
                    buffer@.len() == before.len(),
                    0 <= x0 <= px <= x1 <= buf_width,
                    0 <= y0 <= py < y1 <= buf_height,
                    x0 == if x < 0 { 0 } else { x as int },
                    y0 == if y < 0 { 0 } else { y as int },
                    x1 == if x + width > buf_width { buf_width as int } else { x + width },
                    y1 == if y + height > buf_height { buf_height as int } else { y + height },
                    forall|i: int|
                        0 <= i < before.len() ==> #[trigger] buffer@[i] == if spec_in_rect(
                            (i / 4) % bw,
                            (i / 4) / bw,
                            x as int,
                            y as int,
                            width as int,
                            height as int,
                        ) && ((i / 4) / bw < py || ((i / 4) / bw == py && (i / 4) % bw < px)) {
                            color@[i % 4]
                        } else {
                            before[i]
                        },
                decreases x1 - px,
            {
                let ghost current = buffer@;
                let ghost offset = spec_pixel_offset(bw, px as int, py as int);
                proof {
                    buffer.lemma_offset_in_range(px as int, py as int);
                }
                buffer.set_pixel(px as u32, py as u32, color);
                proof {
                    assert(buffer@ == spec_with_pixel(current, offset, color@));
                    assert forall|i: int| 0 <= i < before.len() implies #[trigger] buffer@[i]
                        == if spec_in_rect(
                        (i / 4) % bw,
                        (i / 4) / bw,
                        x as int,
                        y as int,
                        width as int,
                        height as int,
                    ) && ((i / 4) / bw < py || ((i / 4) / bw == py && (i / 4) % bw < px + 1)) {
                        color@[i % 4]
                    } else {
                        before[i]
                    } by {
                        lemma_pixel_of_byte(bw, buffer.spec_height(), i);
                        lemma_byte_of_pixel(bw, px as int, py as int, i);
                        assert(current[i] == if spec_in_rect(
                            (i / 4) % bw,
                            (i / 4) / bw,
                            x as int,
                            y as int,
                            width as int,
                            height as int,
                        ) && ((i / 4) / bw < py || ((i / 4) / bw == py && (i / 4) % bw < px)) {
                            color@[i % 4]
                        } else {
                            before[i]
                        });
                    }
                }
                px = px + 1;
            }
            proof {
                assert forall|i: int| 0 <= i < before.len() implies #[trigger] buffer@[i]
                    == if spec_in_rect(
                    (i / 4) % bw,
                    (i / 4) / bw,
                    x as int,
                    y as int,
                    width as int,
                    height as int,
                ) && (i / 4) / bw < py + 1 {
                    color@[i % 4]
                } else {
                    before[i]
                } by {
                    lemma_pixel_of_byte(bw, buffer.spec_height(), i);
                }
            }
            py = py + 1;
        }
        proof {
            assert forall|i: int| 0 <= i < before.len() implies buffer@[i] == goal[i] by {
                lemma_pixel_of_byte(bw, buffer.spec_height(), i);
            }
            assert(buffer@ =~= goal);
        }
    }

    /// Draw text as a placeholder: a box as wide as eight pixels for each
    /// byte of the text, at most 200, and 16 pixels high.
    pub fn draw_text_placeholder(
        buffer: &mut FrameBuffer,
        text: &str,
        x: i32,
        y: i32,
        color: [u8; 4],
    )
        ensures
            final(buffer).spec_width() == old(buffer).spec_width(),
            final(buffer).spec_height() == old(buffer).spec_height(),
            final(buffer)@ == spec_fill_rect(
                old(buffer)@,
                old(buffer).spec_width(),
                x as int,
                y as int,
                spec_text_width(spec_byte_len(text@)),
                TEXT_HEIGHT as int,
                color@,
            ),
    {
        let width: u32 = Self::text_width(text);
        Self::fill_rect(buffer, x, y, width, TEXT_HEIGHT, color);
    }

    /// The width of the box that stands for `text`.
    pub fn text_width(text: &str) -> (width: u32)
        ensures
            width == spec_text_width(spec_byte_len(text@)),
    {
        let len: usize = text.as_bytes().len();
        if len >= 25 {
            TEXT_MAX_WIDTH
        } else {
            (len as u32) * TEXT_BYTE_WIDTH
        }
    }

    /// Apply transform to coordinates: the transform's position is added.
    /// Scale and rotation do not move the coordinates.
    pub fn apply_transform(x: i32, y: i32, transform: &Transform) -> (moved: (i32, i32))
        requires
            i32::MIN <= x + transform.position.x <= i32::MAX,
            i32::MIN <= y + transform.position.y <= i32::MAX,
        ensures
            moved.0 == x + transform.position.x,
            moved.1 == y + transform.position.y,
    {
        (x + transform.position.x, y + transform.position.y)
    }
}

/// The pixel that byte `i` of a buffer belongs to lies inside the buffer.
pub proof fn lemma_pixel_of_byte(buffer_width: int, buffer_height: int, i: int)
    requires
        buffer_width > 0,
        buffer_height >= 0,
        0 <= i < buffer_width * buffer_height * 4,
    ensures
        0 <= (i / 4) % buffer_width < buffer_width,
        0 <= (i / 4) / buffer_width < buffer_height,
        i / 4 == ((i / 4) / buffer_width) * buffer_width + (i / 4) % buffer_width,
{
    let p = i / 4;
    let w = buffer_width;
    vstd::arithmetic::div_mod::lemma_fundamental_div_mod(p, w);
    vstd::arithmetic::div_mod::lemma_mod_bound(p, w);
    vstd::arithmetic::div_mod::lemma_div_pos_is_pos(p, w);
    assert(w * (p / w) == (p / w) * w) by (nonlinear_arith);
    assert(p < w * buffer_height);
    if p / w >= buffer_height {
        assert((p / w) * w >= buffer_height * w) by (nonlinear_arith)
            requires
                p / w >= buffer_height,
                w > 0,
        ;
        assert(buffer_height * w == w * buffer_height) by (nonlinear_arith);
    }
}

/// Byte `i` belongs to pixel `(px, py)` exactly if it is one of the four
/// bytes at the pixel's offset.
pub proof fn lemma_byte_of_pixel(buffer_width: int, px: int, py: int, i: int)
    requires
        0 <= px < buffer_width,
        0 <= py,
        0 <= i,
    ensures
        ((i / 4) % buffer_width == px && (i / 4) / buffer_width == py) <==> (spec_pixel_offset(
            buffer_width,
            px,
            py,
        ) <= i < spec_pixel_offset(buffer_width, px, py) + 4),
{
    let p = i / 4;
    let w = buffer_width;
    vstd::arithmetic::div_mod::lemma_fundamental_div_mod(p, w);
    vstd::arithmetic::div_mod::lemma_mod_bound(p, w);
    assert(w * (p / w) == (p / w) * w) by (nonlinear_arith);
    if spec_pixel_offset(w, px, py) <= i < spec_pixel_offset(w, px, py) + 4 {
        assert(p == py * w + px);
        lemma_fundamental_div_mod_converse(p, w, py, px);
    }
}

/// Filling is idempotent: the same rectangle drawn twice with the same
/// colour gives the buffer that drawing it once gives.
pub proof fn lemma_fill_rect_idempotent(
    bytes: Seq<u8>,
    buffer_width: int,
    x: int,
    y: int,
    width: int,
    height: int,
    color: Seq<u8>,
)
    ensures
        spec_fill_rect(
            spec_fill_rect(bytes, buffer_width, x, y, width, height, color),
            buffer_width,
            x,
            y,
            width,
            height,
            color,
        ) == spec_fill_rect(bytes, buffer_width, x, y, width, height, color),
{
    let once = spec_fill_rect(bytes, buffer_width, x, y, width, height, color);
    assert(spec_fill_rect(once, buffer_width, x, y, width, height, color) =~= once);
}

/// What a fill does pixel by pixel: a pixel of the buffer that lies in the
/// rectangle reads as `color` afterwards, and any other reads as before.
pub proof fn lemma_fill_rect_pixel(
    before: FrameBuffer,
    after: FrameBuffer,
    x: int,
    y: int,
    width: int,
    height: int,
    color: Seq<u8>,
    px: int,
    py: int,
)
    requires
        before.wf(),
        after.wf(),
        color.len() == 4,
        after.spec_width() == before.spec_width(),
        after.spec_height() == before.spec_height(),
        after@ == spec_fill_rect(before@, before.spec_width(), x, y, width, height, color),
        before.spec_in_bounds(px, py),
    ensures
        after.spec_pixel(px, py) == if spec_in_rect(px, py, x, y, width, height) {
            color
        } else {
            before.spec_pixel(px, py)
        },
{
    let bw = before.spec_width();
    let offset = spec_pixel_offset(bw, px, py);
    before.lemma_offset_in_range(px, py);
    let expected = if spec_in_rect(px, py, x, y, width, height) {
        color
    } else {
        before.spec_pixel(px, py)
    };
    assert forall|k: int| 0 <= k < 4 implies after.spec_pixel(px, py)[k] == expected[k] by {
        lemma_byte_of_pixel(bw, px, py, offset + k);
    }
    assert(after.spec_pixel(px, py) =~= expected);
}

} // verus!
