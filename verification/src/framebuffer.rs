//! The logical framebuffer and its conversion into panel chunks.
//!
//! Pixels are raw RGB565 words stored row by row. Drawing clips silently at
//! the buffer's edges. A flush walks the physical panel in bands of rows and
//! packs, for each band, the rotated source pixels as big-endian bytes into
//! one reusable transfer buffer.

use vstd::prelude::*;
use crate::layout::Orientation;

verus! {

/// Logical framebuffer width in landscape.
pub const FB_WIDTH: u32 = 480;

/// Logical framebuffer height in landscape.
pub const FB_HEIGHT: u32 = 320;

/// Native width of the physical panel.
pub const PANEL_WIDTH: u32 = 320;

/// Native height of the physical panel.
pub const PANEL_HEIGHT: u32 = 480;

/// Default number of panel rows sent per chunk.
pub const CHUNK_LINES: u32 = 20;

pub const LCD_OPCODE_WRITE_CMD: u32 = 0x02;

pub const LCD_CMD_RASET: u32 = 0x2B;

/// One addressed pixel: a logical coordinate and an RGB565 word.
#[derive(Debug, Clone, Copy, PartialEq, Eq, Structural)]
pub struct Pixel {
    pub x: i32,
    pub y: i32,
    pub color: u16,
}

/// An axis-aligned rectangle given by its top-left corner and its size.
#[derive(Debug, Clone, Copy, PartialEq, Eq, Structural)]
pub struct Rect {
    pub x: i32,
    pub y: i32,
    pub width: u32,
    pub height: u32,
}

impl Rect {
    /// The rectangle covers at least one pixel.
    pub open spec fn nonempty(self) -> bool {
        self.width > 0 && self.height > 0
    }

    /// The pixel `(x, y)` lies inside the rectangle.
    pub open spec fn contains(self, x: int, y: int) -> bool {
        self.x <= x < self.x + self.width && self.y <= y < self.y + self.height
    }

    /// The far corner of a rectangle that covers pixels lies in the `i32`
    /// coordinate space. A rectangle without pixels is always representable.
    pub open spec fn representable(self) -> bool {
        self.nonempty() ==> {
            &&& self.width <= i32::MAX
            &&& self.height <= i32::MAX
            &&& self.x + self.width <= i32::MAX
            &&& self.y + self.height <= i32::MAX
        }
    }

    pub open spec fn zero() -> Rect {
        Rect { x: 0, y: 0, width: 0, height: 0 }
    }

    /// The common part of two rectangles. Two rectangles that cover pixels
    /// give the rectangle of the shared pixels, or the zero rectangle when
    /// they share none. A rectangle without pixels is handed back unchanged
    /// when its corner lies inside the other one; every other case gives the
    /// zero rectangle.
    pub open spec fn intersection(self, other: Rect) -> Rect {
        if self.nonempty() && other.nonempty() {
            let left = if self.x >= other.x { self.x as int } else { other.x as int };
            let top = if self.y >= other.y { self.y as int } else { other.y as int };
            let right = if self.x + self.width <= other.x + other.width {
                self.x + self.width
            } else {
                other.x + other.width
            };
            let bottom = if self.y + self.height <= other.y + other.height {
                self.y + self.height
            } else {
                other.y + other.height
            };
            if left < right && top < bottom {
                Rect {
                    x: left as i32,
                    y: top as i32,
                    width: (right - left) as u32,
                    height: (bottom - top) as u32,
                }
            } else {
                Rect::zero()
            }
        } else if other.nonempty() {
            if other.contains(self.x as int, self.y as int) {
                self
            } else {
                Rect::zero()
            }
        } else if self.nonempty() {
            if self.contains(other.x as int, other.y as int) {
                other
            } else {
                Rect::zero()
            }
        } else {
            Rect::zero()
        }
    }

    pub fn new(x: i32, y: i32, width: u32, height: u32) -> (r: Rect)
        ensures
            r == (Rect { x, y, width, height }),
    {
        Rect { x, y, width, height }
    }

    /// Tells whether the rectangle can be handed to the clipping routine.
    pub fn is_representable(&self) -> (ok: bool)
        ensures
            ok == self.representable(),
    {
        if self.width == 0 || self.height == 0 {
            true
        } else {
            self.width <= i32::MAX as u32 && self.height <= i32::MAX as u32 && self.x as i64
                + self.width as i64 <= i32::MAX as i64 && self.y as i64 + self.height as i64
                <= i32::MAX as i64
        }
    }

    /// The part of the rectangle whose pixels have coordinates from zero up
    /// to, not including, the largest signed 32-bit number.
    pub open spec fn drawable(self) -> Rect {
        let left = if self.x > 0 {
            self.x as int
        } else {
            0
        };
        let top = if self.y > 0 {
            self.y as int
        } else {
            0
        };
        let right = if self.x + self.width < i32::MAX {
            self.x + self.width
        } else {
            i32::MAX as int
        };
        let bottom = if self.y + self.height < i32::MAX {
            self.y + self.height
        } else {
            i32::MAX as int
        };
        Rect {
            x: left as i32,
            y: top as i32,
            width: if right > left {
                (right - left) as u32
            } else {
                0
            },
            height: if bottom > top {
                (bottom - top) as u32
            } else {
                0
            },
        }
    }

    /// Cuts the rectangle down to the pixels that a framebuffer can hold.
    pub fn drawable_part(&self) -> (r: Rect)
        ensures
            r == self.drawable(),
            r.representable(),
            forall|x: int, y: int|
                0 <= x < i32::MAX && 0 <= y < i32::MAX ==> (#[trigger] r.contains(x, y)
                    <==> self.contains(x, y)),
    {
        let limit: i64 = i32::MAX as i64;
        let left: i64 = if self.x > 0 {
            self.x as i64
        } else {
            0
        };
        let top: i64 = if self.y > 0 {
            self.y as i64
        } else {
            0
        };
        let right: i64 = if self.x as i64 + (self.width as i64) < limit {
            self.x as i64 + self.width as i64
        } else {
            limit
        };
        let bottom: i64 = if self.y as i64 + (self.height as i64) < limit {
            self.y as i64 + self.height as i64
        } else {
            limit
        };
        Rect {
            x: left as i32,
            y: top as i32,
            width: if right > left {
                (right - left) as u32
            } else {
                0
            },
            height: if bottom > top {
                (bottom - top) as u32
            } else {
                0
            },
        }
    }

    /// The pixels that two rectangles share.
    pub fn intersect(&self, other: &Rect) -> (r: Rect)
        requires
            self.representable(),
            other.representable(),
        ensures
            r == self.intersection(*other),
    {
        rectangle_intersection(*self, *other)
    }
}

/// Calls `embedded_graphics::primitives::Rectangle::intersection` on the two
/// rectangles and hands the result back field by field. The contract states
/// the crate's documented result: the shared rectangle, a rectangle without
/// pixels kept as it is when its corner lies inside the other one, and the
/// zero rectangle otherwise. The crate casts sizes to `i32` and adds them to
/// corners in `i32`, so both rectangles must be representable.
#[verifier::external_body]
fn rectangle_intersection(a: Rect, b: Rect) -> (r: Rect)
    requires
        a.representable(),
        b.representable(),
    ensures
        r == a.intersection(b),
{
    let ra = embedded_graphics::primitives::Rectangle::new(
        embedded_graphics::geometry::Point::new(a.x, a.y),
        embedded_graphics::geometry::Size::new(a.width, a.height),
    );
    let rb = embedded_graphics::primitives::Rectangle::new(
        embedded_graphics::geometry::Point::new(b.x, b.y),
        embedded_graphics::geometry::Size::new(b.width, b.height),
    );
    let rc = ra.intersection(&rb);
    Rect { x: rc.top_left.x, y: rc.top_left.y, width: rc.size.width, height: rc.size.height }
}

/// The mathematical content of a framebuffer: its size and its pixels, row by
/// row from the top-left corner.
pub struct FramebufferView {
    pub width: int,
    pub height: int,
    pub pixels: Seq<u16>,
}

impl FramebufferView {
    /// Every pixel has a signed 32-bit coordinate and exactly one stored
    /// word, and the store fits the machine.
    pub open spec fn wf(self) -> bool {
        &&& 0 <= self.width <= i32::MAX
        &&& 0 <= self.height <= i32::MAX
        &&& self.pixels.len() == self.width * self.height
        &&& self.pixels.len() <= usize::MAX
    }

    pub open spec fn in_bounds(self, x: int, y: int) -> bool {
        0 <= x < self.width && 0 <= y < self.height
    }

    /// The word stored for the pixel `(x, y)`.
    pub open spec fn pixel(self, x: int, y: int) -> u16 {
        self.pixels[y * self.width + x]
    }

    /// A framebuffer of the given size with every pixel zero.
    pub open spec fn blank(width: int, height: int) -> FramebufferView {
        FramebufferView { width, height, pixels: Seq::new((width * height) as nat, |i: int| 0u16) }
    }

    /// Every pixel replaced by `color`.
    pub open spec fn cleared(self, color: u16) -> FramebufferView {
        FramebufferView { pixels: Seq::new(self.pixels.len(), |i: int| color), ..self }
    }

    /// One pixel written; a pixel outside the buffer changes nothing.
    pub open spec fn plot(self, p: Pixel) -> FramebufferView {
        if self.in_bounds(p.x as int, p.y as int) {
            FramebufferView {
                pixels: self.pixels.update(p.y * self.width + p.x, p.color),
                ..self
            }
        } else {
            self
        }
    }

    /// The pixels of `ps` written in order, so that a later one wins.
    pub open spec fn plot_all(self, ps: Seq<Pixel>) -> FramebufferView
        decreases ps.len(),
    {
        if ps.len() == 0 {
            self
        } else {
            self.plot_all(ps.drop_last()).plot(ps.last())
        }
    }

    /// The size that a flush under `orientation` expects: the panel's own
    /// size in portrait, its transpose in landscape.
    pub open spec fn fits_panel(self, orientation: Orientation) -> bool {
        if orientation.landscape() {
            self.width == PANEL_HEIGHT && self.height == PANEL_WIDTH
        } else {
            self.width == PANEL_WIDTH && self.height == PANEL_HEIGHT
        }
    }

    /// The logical pixel that the panel pixel `(px, py)` shows. Landscape is
    /// the logical screen turned a quarter clockwise, portrait is the panel's
    /// own layout, and a flipped orientation mirrors both axes.
    pub open spec fn source(self, orientation: Orientation, px: int, py: int) -> (int, int) {
        match orientation {
            Orientation::Landscape => (py, self.height - 1 - px),
            Orientation::LandscapeFlipped => (self.width - 1 - py, px),
            Orientation::Portrait => (px, py),
            Orientation::PortraitFlipped => (self.width - 1 - px, self.height - 1 - py),
        }
    }

    /// The word that the panel pixel `(px, py)` shows.
    pub open spec fn panel_pixel(self, orientation: Orientation, px: int, py: int) -> u16 {
        let (lx, ly) = self.source(orientation, px, py);
        self.pixel(lx, ly)
    }

    /// Byte `k` of the chunk that starts at panel row `y_start`: rows follow
    /// each other, pixels run left to right, and each pixel gives its high
    /// byte and then its low byte.
    pub open spec fn chunk_byte(self, orientation: Orientation, y_start: int, k: int) -> u8 {
        let row = y_start + k / (2 * PANEL_WIDTH as int);
        let px = (k / 2) % (PANEL_WIDTH as int);
        let word = self.panel_pixel(orientation, px, row);
        if k % 2 == 0 {
            #[verifier::truncate]
            ((word >> 8) as u8)
        } else {
            #[verifier::truncate]
            ((word & 0xff) as u8)
        }
    }

    /// The transfer bytes for the panel rows from `y_start` up to, not
    /// including, `y_end`.
    pub open spec fn chunk_bytes(self, orientation: Orientation, y_start: int, y_end: int) -> Seq<
        u8,
    > {
        Seq::new(
            (2 * PANEL_WIDTH * (y_end - y_start)) as nat,
            |k: int| self.chunk_byte(orientation, y_start, k),
        )
    }

    /// The chunks of one flush from panel row `row` to the panel's last row,
    /// in the order in which they are sent.
    pub open spec fn stream_from(self, orientation: Orientation, chunk_lines: int, row: int) -> Seq<
        ChunkModel,
    >
        decreases PANEL_HEIGHT - row,
    {
        if row >= PANEL_HEIGHT || row < 0 || chunk_lines <= 0 {
            Seq::empty()
        } else {
            let end = chunk_end(chunk_lines, row);
            seq![
                ChunkModel {
                    y_start: row,
                    y_end: end,
                    bytes: self.chunk_bytes(orientation, row, end),
                },
            ] + self.stream_from(orientation, chunk_lines, end)
        }
    }

    /// Everything that one flush sends.
    pub open spec fn flush_stream(self, orientation: Orientation, chunk_lines: int) -> Seq<
        ChunkModel,
    > {
        self.stream_from(orientation, chunk_lines, 0)
    }

    /// `self` with the pixels of `area` that lie inside the buffer set to
    /// `color`, and every other pixel kept.
    pub open spec fn is_filled_from(self, before: FramebufferView, area: Rect, color: u16) -> bool {
        &&& self.width == before.width
        &&& self.height == before.height
        &&& self.pixels.len() == before.pixels.len()
        &&& forall|x: int, y: int|
            #![trigger self.pixel(x, y)]
            self.in_bounds(x, y) ==> self.pixel(x, y) == if area.contains(x, y) {
                color
            } else {
                before.pixel(x, y)
            }
    }
}

/// One chunk of a flush as a mathematical value: a band of panel rows and
/// the bytes written for it.
pub struct ChunkModel {
    pub y_start: int,
    pub y_end: int,
    pub bytes: Seq<u8>,
}

/// The row after the last row of the chunk that starts at `row`.
pub open spec fn chunk_end(chunk_lines: int, row: int) -> int {
    if row + chunk_lines <= PANEL_HEIGHT {
        row + chunk_lines
    } else {
        PANEL_HEIGHT as int
    }
}

/// A band of panel rows, from `y_start` up to, not including, `y_end`.
#[derive(Debug, Clone, Copy, PartialEq, Eq, Structural)]
pub struct PanelChunk {
    pub y_start: u32,
    pub y_end: u32,
}

impl PanelChunk {
    /// The panel window that the chunk's bitmap is written to: from the
    /// left edge and the chunk's first row up to, not including, the right
    /// edge and the row after the chunk's last one.
    pub fn window(&self) -> (w: (u32, u32, u32, u32))
        ensures
            w == (0u32, self.y_start, PANEL_WIDTH, self.y_end),
    {
        (0, self.y_start, PANEL_WIDTH, self.y_end)
    }
}

/// Progress of one flush: the height of a chunk and the next panel row that
/// has not been packed yet.
#[derive(Debug, Clone, Copy)]
pub struct FlushCursor {
    chunk_lines: u32,
    next_row: u32,
}

impl FlushCursor {
    pub closed spec fn chunk_lines(self) -> int {
        self.chunk_lines as int
    }

    pub closed spec fn next_row(self) -> int {
        self.next_row as int
    }

    /// Starts a flush at the panel's first row.
    pub fn new(chunk_lines: u32) -> (c: FlushCursor)
        requires
            chunk_lines >= 1,
        ensures
            c.chunk_lines() == chunk_lines,
            c.next_row() == 0,
    {
        FlushCursor { chunk_lines, next_row: 0 }
    }

    /// True once every panel row has been packed.
    pub fn is_done(&self) -> (done: bool)
        ensures
            done == (self.next_row() >= PANEL_HEIGHT),
    {
        self.next_row >= PANEL_HEIGHT
    }

    /// The next panel row to pack.
    pub fn row(&self) -> (r: u32)
        ensures
            r == self.next_row(),
    {
        self.next_row
    }
}

/// The command word that carries an 8-bit panel command on the four-wire
/// bus: the write opcode in the top byte, the command in the second lowest.
pub open spec fn qspi_word(raw: u32) -> int {
    0x0200_0000 + (raw % 256) * 256
}

pub fn qspi_cmd(raw: u32) -> (word: i32)
    ensures
        word == qspi_word(raw),
{
    let low: u32 = raw & 0xFF;
    assert(low == raw % 256 && low < 256) by (bit_vector)
        requires
            low == raw & 0xFF,
    ;
    let shifted: u32 = low << 8;
    assert(shifted == low * 256) by (bit_vector)
        requires
            shifted == low << 8,
            low < 256,
    ;
    let op: u32 = LCD_OPCODE_WRITE_CMD << 24;
    assert(op == 0x0200_0000) by (bit_vector)
        requires
            op == 0x02u32 << 24,
    ;
    let word: u32 = op | shifted;
    assert(word == op + shifted) by (bit_vector)
        requires
            op == 0x0200_0000,
            shifted < 0x1_0000,
            word == op | shifted,
    ;
    word as i32
}

/// The four parameter bytes of the row-address-set command for the rows from
/// `y_start` up to, not including, `y_end`: the first and the last row, each
/// as sixteen bits with the high byte first.
pub fn raset_params(y_start: u32, y_end: u32) -> (params: [u8; 4])
    requires
        y_start < y_end <= 0x1_0000,
    ensures
        params[0] * 256 + params[1] == y_start,
        params[2] * 256 + params[3] == y_end - 1,
{
    let last: u32 = y_end - 1;
    let b0: u8 = ((y_start >> 8) & 0xFF) as u8;
    let b1: u8 = (y_start & 0xFF) as u8;
    let b2: u8 = ((last >> 8) & 0xFF) as u8;
    let b3: u8 = (last & 0xFF) as u8;
    assert(((y_start >> 8) & 0xFF) * 256 + (y_start & 0xFF) == y_start) by (bit_vector)
        requires
            y_start < 0x1_0000,
    ;
    assert(((last >> 8) & 0xFF) * 256 + (last & 0xFF) == last) by (bit_vector)
        requires
            last < 0x1_0000,
    ;
    assert(((y_start >> 8) & 0xFF) < 256 && (y_start & 0xFF) < 256) by (bit_vector);
    assert(((last >> 8) & 0xFF) < 256 && (last & 0xFF) < 256) by (bit_vector);
    [b0, b1, b2, b3]
}

/// An RGB565 framebuffer for one logical screen.
pub struct Framebuffer {
    width: u32,
    height: u32,
    buf: Vec<u16>,
}

impl View for Framebuffer {
    type V = FramebufferView;

    closed spec fn view(&self) -> FramebufferView {
        FramebufferView { width: self.width as int, height: self.height as int, pixels: self.buf@ }
    }
}

/// The row-major index of an in-bounds pixel lies inside the pixel store.
pub proof fn lemma_index_in_store(width: int, height: int, x: int, y: int)
    requires
        0 <= x < width,
        0 <= y < height,
    ensures
        0 <= y * width + x < width * height,
        y * width + x < (y + 1) * width,
{
    assert(y * width >= 0) by (nonlinear_arith)
        requires
            y >= 0,
            width > 0,
    ;
    assert((y + 1) * width <= height * width) by (nonlinear_arith)
        requires
            y + 1 <= height,
            width > 0,
    ;
    assert((y + 1) * width == y * width + width) by (nonlinear_arith);
    assert(height * width == width * height) by (nonlinear_arith);
}

/// Two in-bounds pixels with the same row-major index are the same pixel.
pub proof fn lemma_index_unique(width: int, x1: int, y1: int, x2: int, y2: int)
    requires
        0 <= x1 < width,
        0 <= x2 < width,
        0 <= y1,
        0 <= y2,
        y1 * width + x1 == y2 * width + x2,
    ensures
        x1 == x2,
        y1 == y2,
{
    if y1 < y2 {
        assert((y1 + 1) * width <= y2 * width) by (nonlinear_arith)
            requires
                y1 + 1 <= y2,
                width > 0,
        ;
        assert((y1 + 1) * width == y1 * width + width) by (nonlinear_arith);
    } else if y2 < y1 {
        assert((y2 + 1) * width <= y1 * width) by (nonlinear_arith)
            requires
                y2 + 1 <= y1,
                width > 0,
        ;
        assert((y2 + 1) * width == y2 * width + width) by (nonlinear_arith);
    }
}

/// Two framebuffers of one size that agree on every pixel send the same
/// chunks, byte for byte, when flushed under the same orientation with the
/// same chunk height: a flush depends on nothing but the pixels, the
/// orientation and the chunk height.
pub proof fn lemma_flush_is_deterministic(
    a: FramebufferView,
    b: FramebufferView,
    orientation: Orientation,
    chunk_lines: int,
)
    requires
        a.wf(),
        b.wf(),
        a.width == b.width,
        a.height == b.height,
        forall|x: int, y: int| a.in_bounds(x, y) ==> a.pixel(x, y) == b.pixel(x, y),
    ensures
        a.flush_stream(orientation, chunk_lines) == b.flush_stream(orientation, chunk_lines),
{
    assert forall|i: int| 0 <= i < a.pixels.len() implies a.pixels[i] == b.pixels[i] by {
        let w = a.width;
        let h = a.height;
        if w <= 0 {
            assert(w * h == 0) by (nonlinear_arith)
                requires
                    w == 0,
            ;
        } else {
            let x = i % w;
            let y = i / w;
            assert(i == y * w + x && 0 <= x < w && 0 <= y) by (nonlinear_arith)
                requires
                    x == i % w,
                    y == i / w,
                    w > 0,
                    i >= 0,
            ;
            if y >= h {
                assert(y * w >= h * w) by (nonlinear_arith)
                    requires
                        y >= h,
                        w > 0,
                ;
                assert(h * w == w * h) by (nonlinear_arith);
            }
            assert(a.in_bounds(x, y));
            assert(a.pixel(x, y) == b.pixel(x, y));
        }
    }
    assert(a.pixels =~= b.pixels);
    assert(a == b);
}

impl Framebuffer {
    /// Allocates a framebuffer with every pixel zero.
    pub fn new(width: u32, height: u32) -> (fb: Framebuffer)
        requires
            width <= i32::MAX,
            height <= i32::MAX,
            width * height <= usize::MAX,
        ensures
            fb@ == FramebufferView::blank(width as int, height as int),
            fb@.wf(),
    {
        assert(width as int * height as int >= 0) by (nonlinear_arith)
            requires
                width >= 0,
                height >= 0,
        ;
        let pixels: usize = (width as usize) * (height as usize);
        let buf: Vec<u16> = vec![0u16; pixels];
        assert(buf@ =~= Seq::new((width as int * height as int) as nat, |i: int| 0u16));
        Framebuffer { width, height, buf }
    }

    /// The logical size, width first.
    pub fn size(&self) -> (s: (u32, u32))
        ensures
            s.0 == self@.width,
            s.1 == self@.height,
    {
        (self.width, self.height)
    }

    /// The rectangle of all pixels, with its corner at the origin.
    pub fn bounding_box(&self) -> (r: Rect)
        ensures
            r == (Rect { x: 0, y: 0, width: self@.width as u32, height: self@.height as u32 }),
    {
        Rect { x: 0, y: 0, width: self.width, height: self.height }
    }

    /// Reads one pixel, or `None` outside the buffer.
    pub fn get_pixel(&self, x: i32, y: i32) -> (p: Option<u16>)
        requires
            self@.wf(),
        ensures
            p == if self@.in_bounds(x as int, y as int) {
                Some(self@.pixel(x as int, y as int))
            } else {
                None::<u16>
            },
    {
        if x >= 0 && y >= 0 && (x as u32) < self.width && (y as u32) < self.height {
            proof {
                lemma_index_in_store(self.width as int, self.height as int, x as int, y as int);
            }
            let idx: usize = (y as usize) * (self.width as usize) + (x as usize);
            Some(self.buf[idx])
        } else {
            None
        }
    }

    /// Sets every pixel to `color`.
    pub fn clear_color(&mut self, color: u16)
        requires
            old(self)@.wf(),
        ensures
            final(self)@ == old(self)@.cleared(color),
            final(self)@.wf(),
    {
        let n: usize = self.buf.len();
        let mut i: usize = 0;
        while i < n
            invariant
                i <= n,
                n == self.buf@.len(),
                self.width == old(self).width,
                self.height == old(self).height,
                self.buf@.len() == old(self).buf@.len(),
                self.buf@.len() == self.width as int * self.height as int,
                forall|k: int| 0 <= k < i ==> self.buf@[k] == color,
            decreases n - i,
        {
            self.buf.set(i, color);
            i += 1;
        }
        assert(self.buf@ =~= Seq::new(old(self).buf@.len(), |k: int| color));
    }

    /// Writes one pixel; a coordinate outside the buffer is dropped.
    pub fn set_pixel(&mut self, x: i32, y: i32, color: u16)
        requires
            old(self)@.wf(),
        ensures
            final(self)@ == old(self)@.plot(Pixel { x, y, color }),
            final(self)@.wf(),
    {
        if x >= 0 && y >= 0 && (x as u32) < self.width && (y as u32) < self.height {
            proof {
                lemma_index_in_store(self.width as int, self.height as int, x as int, y as int);
            }
            let idx: usize = (y as usize) * (self.width as usize) + (x as usize);
            self.buf.set(idx, color);
        }
    }

    /// Fills the part of `area` that lies inside the buffer.
    pub fn fill_solid(&mut self, area: &Rect, color: u16)
        requires
            old(self)@.wf(),
        ensures
            final(self)@.is_filled_from(old(self)@, *area, color),
            final(self)@.wf(),
    {
        let display = Rect { x: 0, y: 0, width: self.width, height: self.height };
        let drawable: Rect = area.drawable_part();
        let clipped: Rect = drawable.intersect(&display);
        let ghost before = self@;
        assert forall|x: int, y: int| before.in_bounds(x, y) implies (area.contains(x, y)
            <==> clipped.contains(x, y)) by {}
        if clipped.width == 0 || clipped.height == 0 {
            return ;
        }
        let w: usize = self.width as usize;
        let x0: usize = clipped.x as usize;
        let x1: usize = x0 + clipped.width as usize;
        let y1: usize = clipped.y as usize + clipped.height as usize;
        let mut y: usize = clipped.y as usize;
        while y < y1
            invariant
                clipped.y <= y <= y1,
                x0 < x1,
                y1 == clipped.y + clipped.height,
                x0 == clipped.x,
                x1 == clipped.x + clipped.width,
                0 <= clipped.x,
                0 <= clipped.y,
                x1 <= self.width,
                y1 <= self.height,
                w == self.width,
                before.wf(),
                self@.wf(),
                self@.width == before.width,
                self@.height == before.height,
                forall|px: int, py: int|
                    #![trigger self@.pixel(px, py)]
                    before.in_bounds(px, py) ==> self@.pixel(px, py) == if clipped.contains(px, py)
                        && py < y {
                        color
                    } else {
                        before.pixel(px, py)
                    },
            decreases y1 - y,
        {
            proof {
                lemma_index_in_store(before.width, before.height, 0, y as int);
            }
            let row_start: usize = y * w;
            let mut x: usize = x0;
            while x < x1
                invariant
                    x0 <= x <= x1,
                    clipped.y <= y < y1,
                    y1 == clipped.y + clipped.height,
                    x0 == clipped.x,
                    x1 == clipped.x + clipped.width,
                    0 <= clipped.x,
                    0 <= clipped.y,
                    x1 <= self.width,
                    y1 <= self.height,
                    w == self.width,
                    row_start == y * w,
                    before.wf(),
                    self@.wf(),
                    self@.width == before.width,
                    self@.height == before.height,
                    forall|px: int, py: int|
                        #![trigger self@.pixel(px, py)]
                        before.in_bounds(px, py) ==> self@.pixel(px, py) == if clipped.contains(
                            px,
                            py,
                        ) && (py < y || (py == y && px < x)) {
                            color
                        } else {
                            before.pixel(px, py)
                        },
                decreases x1 - x,
            {
                proof {
                    lemma_index_in_store(before.width, before.height, x as int, y as int);
                }
                let ghost prev = self@;
                self.buf.set(row_start + x, color);
                assert forall|px: int, py: int|
                    before.in_bounds(px, py) implies #[trigger] self@.pixel(px, py)
                    == if clipped.contains(px, py) && (py < y || (py == y && px < x + 1)) {
                    color
                } else {
                    before.pixel(px, py)
                } by {
                    lemma_index_in_store(before.width, before.height, px, py);
                    if py * before.width + px == y * before.width + x {
                        lemma_index_unique(before.width, px, py, x as int, y as int);
                    }
                    assert(prev.pixel(px, py) == if clipped.contains(px, py) && (py < y || (py == y
                        && px < x)) {
                        color
                    } else {
                        before.pixel(px, py)
                    });
                }
                x += 1;
            }
            y += 1;
        }
    }

    /// Fills `out` with the transfer bytes for the panel rows from `y_start`
    /// up to, not including, `y_end`. What `out` held before is discarded.
    pub fn pack_chunk(&self, orientation: Orientation, y_start: u32, y_end: u32, out: &mut Vec<u8>)
        requires
            self@.wf(),
            self@.fits_panel(orientation),
            y_start <= y_end <= PANEL_HEIGHT,
        ensures
            final(out)@ == self@.chunk_bytes(orientation, y_start as int, y_end as int),
    {
        out.clear();
        let fb_w: usize = self.width as usize;
        let fb_h: usize = self.height as usize;
        let pw: usize = PANEL_WIDTH as usize;
        let mut row: usize = y_start as usize;
        while row < y_end as usize
            invariant
                y_start <= row <= y_end <= PANEL_HEIGHT,
                self@.wf(),
                self@.fits_panel(orientation),
                fb_w == self.width,
                fb_h == self.height,
                pw == PANEL_WIDTH,
                out@.len() == 2 * PANEL_WIDTH * (row - y_start),
                forall|k: int|
                    0 <= k < out@.len() ==> out@[k] == self@.chunk_byte(
                        orientation,
                        y_start as int,
                        k,
                    ),
            decreases y_end - row,
        {
            let mut px: usize = 0;
            while px < pw
                invariant
                    y_start <= row < y_end <= PANEL_HEIGHT,
                    0 <= px <= pw,
                    self@.wf(),
                    self@.fits_panel(orientation),
                    fb_w == self.width,
                    fb_h == self.height,
                    pw == PANEL_WIDTH,
                    out@.len() == 2 * PANEL_WIDTH * (row - y_start) + 2 * px,
                    forall|k: int|
                        0 <= k < out@.len() ==> out@[k] == self@.chunk_byte(
                            orientation,
                            y_start as int,
                            k,
                        ),
                decreases pw - px,
            {
                let (lx, ly): (usize, usize) = match orientation {
                    Orientation::Landscape => (row, fb_h - 1 - px),
                    Orientation::LandscapeFlipped => (fb_w - 1 - row, px),
                    Orientation::Portrait => (px, row),
                    Orientation::PortraitFlipped => (fb_w - 1 - px, fb_h - 1 - row),
                };
                proof {
                    lemma_index_in_store(self@.width, self@.height, lx as int, ly as int);
                }
                let word: u16 = self.buf[ly * fb_w + lx];
                let ghost k0 = out@.len() as int;
                let ghost before = out@;
                out.push(#[verifier::truncate] ((word >> 8) as u8));
                out.push(#[verifier::truncate] ((word & 0xFF) as u8));
                proof {
                    assert(k0 == 640 * (row - y_start) + 2 * px);
                    assert(k0 / 640 == row - y_start);
                    assert((k0 / 2) % 320 == px);
                    assert(k0 % 2 == 0);
                    assert((k0 + 1) / 640 == row - y_start);
                    assert(((k0 + 1) / 2) % 320 == px);
                    assert((k0 + 1) % 2 == 1);
                    assert(self@.panel_pixel(orientation, px as int, row as int) == word);
                    assert(out@[k0] == self@.chunk_byte(orientation, y_start as int, k0));
                    assert(out@[k0 + 1] == self@.chunk_byte(orientation, y_start as int, k0 + 1));
                    assert forall|k: int| 0 <= k < out@.len() implies out@[k] == self@.chunk_byte(
                        orientation,
                        y_start as int,
                        k,
                    ) by {
                        if k < k0 {
                            assert(out@[k] == before[k]);
                        }
                    }
                }
                px += 1;
            }
            assert(2 * PANEL_WIDTH * (row + 1 - y_start) == 2 * PANEL_WIDTH * (row - y_start) + 2
                * PANEL_WIDTH) by (nonlinear_arith);
            row += 1;
        }
        assert(out@ =~= self@.chunk_bytes(orientation, y_start as int, y_end as int));
    }

    /// Packs the next chunk of a flush into `out` and says which panel rows
    /// it covers, or returns `None` without touching `out` once every row has
    /// been packed. The caller sends each chunk to the panel and calls again.
    pub fn flush_to_panel(
        &self,
        orientation: Orientation,
        cursor: &mut FlushCursor,
        out: &mut Vec<u8>,
    ) -> (chunk: Option<PanelChunk>)
        requires
            self@.wf(),
            self@.fits_panel(orientation),
            old(cursor).chunk_lines() >= 1,
        ensures
            final(cursor).chunk_lines() == old(cursor).chunk_lines(),
            old(cursor).next_row() >= PANEL_HEIGHT ==> chunk is None && final(cursor).next_row()
                == old(cursor).next_row() && final(out)@ == old(out)@,
            old(cursor).next_row() < PANEL_HEIGHT ==> chunk == Some(
                PanelChunk {
                    y_start: old(cursor).next_row() as u32,
                    y_end: chunk_end(old(cursor).chunk_lines(), old(cursor).next_row()) as u32,
                },
            ) && final(cursor).next_row() == chunk_end(
                old(cursor).chunk_lines(),
                old(cursor).next_row(),
            ) && final(out)@ == self@.chunk_bytes(
                orientation,
                old(cursor).next_row(),
                final(cursor).next_row(),
            ) && final(out)@.len() <= 2 * PANEL_WIDTH * old(cursor).chunk_lines(),
            self@.stream_from(orientation, old(cursor).chunk_lines(), old(cursor).next_row())
                == match chunk {
                Some(c) => seq![
                    ChunkModel {
                        y_start: c.y_start as int,
                        y_end: c.y_end as int,
                        bytes: final(out)@,
                    },
                ] + self@.stream_from(
                    orientation,
                    old(cursor).chunk_lines(),
                    final(cursor).next_row(),
                ),
                None => Seq::<ChunkModel>::empty(),
            },
    {
        if cursor.next_row >= PANEL_HEIGHT {
            return None;
        }
        let y_start: u32 = cursor.next_row;
        let y_end: u32 = if cursor.chunk_lines <= PANEL_HEIGHT - y_start {
            y_start + cursor.chunk_lines
        } else {
            PANEL_HEIGHT
        };
        self.pack_chunk(orientation, y_start, y_end, out);
        cursor.next_row = y_end;
        assert(2 * PANEL_WIDTH * (y_end - y_start) <= 2 * PANEL_WIDTH * cursor.chunk_lines())
            by (nonlinear_arith)
            requires
                y_end - y_start <= cursor.chunk_lines(),
        ;
        Some(PanelChunk { y_start, y_end })
    }

    /// Writes the given pixels in order, dropping those outside the buffer.
    pub fn draw_iter(&mut self, pixels: &Vec<Pixel>)
        requires
            old(self)@.wf(),
        ensures
            final(self)@ == old(self)@.plot_all(pixels@),
            final(self)@.wf(),
    {
        let n: usize = pixels.len();
        let mut i: usize = 0;
        while i < n
            invariant
                i <= n,
                n == pixels@.len(),
                self@.wf(),
                self@ == old(self)@.plot_all(pixels@.take(i as int)),
            decreases n - i,
        {
            let p: Pixel = pixels[i];
            self.set_pixel(p.x, p.y, p.color);
            proof {
                assert(pixels@.take(i + 1).drop_last() =~= pixels@.take(i as int));
                assert(pixels@.take(i + 1).last() == p);
            }
            i += 1;
        }
        assert(pixels@.take(n as int) =~= pixels@);
    }
}

} // verus!
