//! Text cursor of the graphical debug console. Writing text yields the
//! drawing steps for the framebuffer, in order: the console keeps an
//! 8x16-pixel cell grid and scrolls one row when the cursor runs off the
//! bottom.
use vstd::prelude::*;

verus! {

pub const NEWLINE: u8 = 10;

/// One drawing step for the framebuffer.
#[derive(Clone, Copy, Debug, PartialEq, Eq, Structural)]
pub enum DrawOp {
    /// Scroll the picture up by this many pixel rows and clear them.
    Scroll(usize),
    /// Push the whole picture to the screen.
    SyncScreen,
    /// Draw the glyph of `byte` with its top-left pixel at (`x`, `y`).
    Glyph { x: usize, y: usize, byte: u8 },
    /// Push the 8x16 cell at (`x`, `y`) to the screen.
    Sync { x: usize, y: usize },
}

pub struct DebugDisplay {
    pub width: usize,
    pub height: usize,
    pub x: usize,
    pub y: usize,
    pub w: usize,
    pub h: usize,
}

/// The cursor after one byte, and the steps that byte yields.
pub open spec fn byte_step(w: usize, h: usize, x: usize, y: usize, b: u8) -> (usize, usize, Seq<DrawOp>) {
    let wrap = x >= w || b == NEWLINE;
    let x1: usize = if wrap { 0 } else { x };
    let y1: int = if wrap { y + 1 } else { y as int };
    let y2: usize = if y1 >= h { (h - 1) as usize } else { y1 as usize };
    let ops1: Seq<DrawOp> = if y1 >= h {
        seq![DrawOp::Scroll(((y1 - (h - 1)) * 16) as usize), DrawOp::SyncScreen]
    } else {
        Seq::empty()
    };
    if b != NEWLINE {
        (
            (x1 + 1) as usize,
            y2,
            ops1 + seq![
                DrawOp::Glyph { x: (x1 * 8) as usize, y: (y2 * 16) as usize, byte: b },
                DrawOp::Sync { x: (x1 * 8) as usize, y: (y2 * 16) as usize },
            ],
        )
    } else {
        (x1, y2, ops1)
    }
}

/// The cursor after a run of bytes, and the steps they yield.
pub open spec fn run(w: usize, h: usize, x: usize, y: usize, buf: Seq<u8>) -> (usize, usize, Seq<DrawOp>)
    decreases buf.len(),
{
    if buf.len() == 0 {
        (x, y, Seq::empty())
    } else {
        let (x1, y1, o1) = run(w, h, x, y, buf.drop_last());
        let (x2, y2, o2) = byte_step(w, h, x1, y1, buf.last());
        (x2, y2, o1 + o2)
    }
}

impl DebugDisplay {
    /// Whether the cursor is on the grid and the grid fits the picture.
    pub open spec fn wf(&self) -> bool {
        &&& self.w == self.width / 8
        &&& self.h == self.height / 16
        &&& self.h >= 1
        &&& self.y < self.h
        &&& self.x <= if self.w >= 1 { self.w } else { 1 }
    }

    /// A console over a picture of `width` by `height` pixels, cursor at
    /// the top left.
    pub fn new(width: usize, height: usize) -> (r: DebugDisplay)
        ensures
            r.width == width,
            r.height == height,
            r.w == width / 8,
            r.h == height / 16,
            r.x == 0,
            r.y == 0,
            height >= 16 ==> r.wf(),
    {
        let w = width / 8;
        let h = height / 16;
        DebugDisplay { width, height, x: 0, y: 0, w, h }
    }

    /// Writes text: a newline or a full row moves to the start of the
    /// next row, scrolling at the bottom; every other byte is drawn.
    pub fn write(&mut self, buf: &[u8]) -> (r: Vec<DrawOp>)
        requires
            old(self).wf(),
        ensures
            final(self).wf(),
            final(self).width == old(self).width,
            final(self).height == old(self).height,
            final(self).w == old(self).w,
            final(self).h == old(self).h,
            (final(self).x, final(self).y, r@) == run(old(self).w, old(self).h, old(self).x, old(self).y, buf@),
    {
        let mut ops: Vec<DrawOp> = Vec::new();
        let mut i: usize = 0;
        while i < buf.len()
            invariant
                self.wf(),
                i <= buf@.len(),
                self.width == old(self).width,
                self.height == old(self).height,
                self.w == old(self).w,
                self.h == old(self).h,
                (self.x, self.y, ops@) == run(self.w, self.h, old(self).x, old(self).y, buf@.take(i as int)),
            decreases buf@.len() - i,
        {
            let b = buf[i];
            proof {
                assert(buf@.take(i + 1).drop_last() =~= buf@.take(i as int));
                assert(buf@.take(i + 1).last() == b);
            }
            let ghost before = ops@;
            if self.x >= self.w || b == NEWLINE {
                self.x = 0;
                self.y = self.y + 1;
            }
            if self.y >= self.h {
                let new_y = self.h - 1;
                let d_y = self.y - new_y;
                ops.push(DrawOp::Scroll(d_y * 16));
                ops.push(DrawOp::SyncScreen);
                self.y = new_y;
            }
            if b != NEWLINE {
                ops.push(DrawOp::Glyph { x: self.x * 8, y: self.y * 16, byte: b });
                ops.push(DrawOp::Sync { x: self.x * 8, y: self.y * 16 });
                self.x = self.x + 1;
            }
            i = i + 1;
            proof {
                let (x2, y2, o2) = byte_step(self.w, self.h, run(self.w, self.h, old(self).x, old(self).y, buf@.take(i - 1)).0,
                    run(self.w, self.h, old(self).x, old(self).y, buf@.take(i - 1)).1, b);
                assert(ops@ =~= before + o2);
            }
        }
        proof {
            assert(buf@.take(buf@.len() as int) =~= buf@);
        }
        ops
    }
}

/// A linear 32-bit framebuffer whose picture starts at row `offset_y`:
/// scrolling moves that row instead of the pixels.
pub struct Framebuffer {
    pub width: usize,
    pub height: usize,
    pub stride: usize,
    pub offset_y: usize,
    pub data: Vec<u32>,
}

/// `base + step` on a ring of `height` rows, for `base < height` and
/// `step <= height`.
pub open spec fn wrap_add(base: int, step: int, height: int) -> int {
    if base + step >= height { base + step - height } else { base + step }
}

/// Whether pixel row `y` is one of the `lines` rows from `start` on, on a
/// ring of `height` rows.
pub open spec fn cleared(start: int, lines: int, height: int, y: int) -> bool {
    if y >= start { y - start < lines } else { y + height - start < lines }
}

proof fn lemma_index(y: int, x: int, stride: int, height: int)
    requires
        0 <= y < height,
        0 <= x < stride,
    ensures
        0 <= y * stride + x < height * stride,
        y * stride + x < (y + 1) * stride,
        y * stride <= y * stride + x,
{
    assert(y * stride + x < height * stride) by (nonlinear_arith)
        requires 0 <= y < height, 0 <= x < stride;
    assert((y + 1) * stride == y * stride + stride) by (nonlinear_arith);
    assert(0 <= y * stride) by (nonlinear_arith) requires 0 <= y, 0 <= stride;
}

proof fn lemma_same_index(y1: int, x1: int, y2: int, x2: int, stride: int)
    requires
        0 <= x1 < stride,
        0 <= x2 < stride,
        0 <= y1,
        0 <= y2,
        y1 * stride + x1 == y2 * stride + x2,
    ensures
        y1 == y2 && x1 == x2,
{
    if y1 < y2 {
        assert(y1 * stride + stride <= y2 * stride) by (nonlinear_arith) requires y1 < y2, 0 <= stride;
    } else if y2 < y1 {
        assert(y2 * stride + stride <= y1 * stride) by (nonlinear_arith) requires y2 < y1, 0 <= stride;
    }
}

impl Framebuffer {
    pub open spec fn wf(&self) -> bool {
        &&& self.height > 0
        &&& self.width <= self.stride
        &&& self.offset_y < self.height
        &&& self.data@.len() == self.height * self.stride
    }

    /// Scrolls the picture up by `lines` pixel rows (at most the rows the
    /// text grid covers) and clears the rows that come free.
    #[verifier::rlimit(40)]
    pub fn scroll(&mut self, lines: usize)
        requires
            old(self).wf(),
        ensures
            final(self).wf(),
            final(self).width == old(self).width,
            final(self).height == old(self).height,
            final(self).stride == old(self).stride,
            ({
                let rows = (old(self).height / 16) * 16;
                let n = if lines < rows { lines as int } else { rows as int };
                let h = old(self).height as int;
                let start = wrap_add(final(self).offset_y as int, rows - n, h);
                &&& final(self).offset_y == wrap_add(old(self).offset_y as int, n, h)
                &&& forall|y: int, x: int| 0 <= y < h && 0 <= x < old(self).stride
                    ==> #[trigger] final(self).data@[y * old(self).stride + x] == (
                        if cleared(start, n, h, y) { 0u32 } else { old(self).data@[y * old(self).stride + x] })
            }),
    {
        let h: usize = self.height;
        let stride: usize = self.stride;
        let rows: usize = (h / 16) * 16;
        let n: usize = if lines < rows { lines } else { rows };
        self.offset_y = if self.offset_y >= h - n { self.offset_y - (h - n) } else { self.offset_y + n };
        let gap: usize = rows - n;
        let start: usize = if self.offset_y >= h - gap { self.offset_y - (h - gap) } else { self.offset_y + gap };
        let ghost before = self.data@;
        let len: usize = self.data.len();
        let mut row: usize = 0;
        while row < n
            invariant
                self.wf(),
                h == self.height,
                stride == self.stride,
                self.width == old(self).width,
                self.height == old(self).height,
                self.stride == old(self).stride,
                self.offset_y == wrap_add(old(self).offset_y as int, n as int, h as int),
                start == wrap_add(self.offset_y as int, rows - n, h as int),
                n <= rows <= h,
                start < h,
                row <= n,
                before == old(self).data@,
                len == self.data@.len(),
                forall|y: int, x: int| 0 <= y < h && 0 <= x < stride
                    ==> #[trigger] self.data@[y * stride + x] == (
                        if cleared(start as int, row as int, h as int, y) { 0u32 } else { before[y * stride + x] }),
            decreases n - row,
        {
            let y: usize = if start >= h - row { start - (h - row) } else { start + row };
            let mut x: usize = 0;
            while x < stride
                invariant
                    self.wf(),
                    h == self.height,
                    stride == self.stride,
                    self.width == old(self).width,
                    self.height == old(self).height,
                    self.stride == old(self).stride,
                    self.offset_y == wrap_add(old(self).offset_y as int, n as int, h as int),
                    start == wrap_add(self.offset_y as int, rows - n, h as int),
                    n <= rows <= h,
                    start < h,
                    row < n,
                    y < h,
                    y == wrap_add(start as int, row as int, h as int),
                    x <= stride,
                    before == old(self).data@,
                    len == self.data@.len(),
                    forall|yy: int, xx: int| 0 <= yy < h && 0 <= xx < stride
                        ==> #[trigger] self.data@[yy * stride + xx] == (
                            if cleared(start as int, row as int, h as int, yy) || (yy == y && xx < x) { 0u32 }
                            else { before[yy * stride + xx] }),
                decreases stride - x,
            {
                proof { lemma_index(y as int, x as int, stride as int, h as int); }
                let i: usize = y * stride + x;
                let ghost prev = self.data@;
                self.data.set(i, 0u32);
                proof {
                    assert forall|yy: int, xx: int| 0 <= yy < h && 0 <= xx < stride
                        implies #[trigger] self.data@[yy * stride + xx] == (
                            if cleared(start as int, row as int, h as int, yy) || (yy == y && xx < x + 1) { 0u32 }
                            else { before[yy * stride + xx] }) by {
                        lemma_index(yy, xx, stride as int, h as int);
                        if yy * stride + xx == i {
                            lemma_same_index(yy, xx, y as int, x as int, stride as int);
                        } else {
                            assert(prev[yy * stride + xx] == self.data@[yy * stride + xx]);
                        }
                    }
                }
                x = x + 1;
            }
            proof {
                assert forall|yy: int, xx: int| 0 <= yy < h && 0 <= xx < stride
                    implies #[trigger] self.data@[yy * stride + xx] == (
                        if cleared(start as int, (row + 1) as int, h as int, yy) { 0u32 }
                        else { before[yy * stride + xx] }) by {
                    assert(cleared(start as int, (row + 1) as int, h as int, yy)
                        == (cleared(start as int, row as int, h as int, yy) || yy == y));
                }
            }
            row = row + 1;
        }
    }
}

} // verus!
