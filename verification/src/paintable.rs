//! The pixel buffer behind the display's paintable: its size, its pixel format, and the
//! copy of updated areas into it.

use vstd::prelude::*;

verus! {

/// The layout of a pixel in the remote framebuffer.
#[derive(Debug, PartialEq, Eq, Clone, Copy, Structural)]
pub enum PixelFormat {
    Bgra,
    Bgrx,
    Rgba,
    Rgbx,
}

/// The memory layout of the texture built from the buffer.
#[derive(Debug, PartialEq, Eq, Clone, Copy, Structural)]
pub enum MemoryFormat {
    B8g8r8a8Premultiplied,
    R8g8b8a8Premultiplied,
    B8g8r8x8,
}

/// The texture layout of a pixel format; formats without their own fall back to
/// B8G8R8A8.
pub open spec fn spec_memory_format(format: PixelFormat) -> MemoryFormat {
    match format {
        PixelFormat::Bgra => MemoryFormat::B8g8r8a8Premultiplied,
        PixelFormat::Rgba => MemoryFormat::R8g8b8a8Premultiplied,
        PixelFormat::Bgrx => MemoryFormat::B8g8r8x8,
        PixelFormat::Rgbx => MemoryFormat::B8g8r8a8Premultiplied,
    }
}

/// The texture layout of a pixel format.
pub fn memory_format(format: PixelFormat) -> (r: MemoryFormat)
    ensures
        r == spec_memory_format(format),
{
    match format {
        PixelFormat::Bgra => MemoryFormat::B8g8r8a8Premultiplied,
        PixelFormat::Rgba => MemoryFormat::R8g8b8a8Premultiplied,
        PixelFormat::Bgrx => MemoryFormat::B8g8r8x8,
        PixelFormat::Rgbx => MemoryFormat::B8g8r8a8Premultiplied,
    }
}

/// `v` brought into `[lo, hi]`.
pub open spec fn clamp(v: int, lo: int, hi: int) -> int {
    if v < lo {
        lo
    } else if v > hi {
        hi
    } else {
        v
    }
}

/// The position of byte `c` of row `r` in a buffer of `row_bytes` bytes per row.
pub open spec fn pix(row_bytes: int, r: int, c: int) -> int {
    r * row_bytes + c
}

/// An update area brought inside a `max_w` x `max_h` framebuffer.
pub open spec fn clamped_area(x: i32, y: i32, w: i32, h: i32, max_w: i32, max_h: i32) -> (i32, i32, i32, i32) {
    let cx = clamp(x as int, 0, max_w as int);
    let cy = clamp(y as int, 0, max_h as int);
    let cw = clamp(w as int, 0, max_w - cx);
    let ch = clamp(h as int, 0, max_h - cy);
    (cx as i32, cy as i32, cw as i32, ch as i32)
}

/// Whether row `row` of an update of area `area`, read `stride` bytes apart, is copied:
/// it lies within the data, and its destination lies within the buffer.
pub open spec fn row_copied(
    data_len: int,
    buffer_len: int,
    row_bytes: int,
    area: (i32, i32, i32, i32),
    stride: int,
    row: int,
) -> bool {
    &&& row * stride + area.2 * 4 <= data_len
    &&& (area.1 + row) * row_bytes + (area.0 + area.2) * 4 <= buffer_len
}

/// Byte `c` of row `r` after copying the first `rows` rows of the update (the last one
/// only up to byte `upto` of the area when `partial`).
pub open spec fn copied_byte(
    old: Seq<u8>,
    data: Seq<u8>,
    row_bytes: int,
    area: (i32, i32, i32, i32),
    stride: int,
    rows: int,
    upto: int,
    r: int,
    c: int,
) -> u8 {
    let (x, y, w, _h) = area;
    let dr = r - y;
    let dc = c - x * 4;
    if 0 <= dr && (dr < rows || (dr == rows && dc < upto)) && 0 <= dc < w * 4 && row_copied(
        data.len() as int,
        old.len() as int,
        row_bytes,
        area,
        stride,
        dr,
    ) {
        data[dr * stride + dc]
    } else {
        old[pix(row_bytes, r, c)]
    }
}

/// The buffer after an update: each byte of the area whose row is copied comes from
/// the data; every other byte is unchanged.
pub open spec fn updated_byte(
    old: Seq<u8>,
    data: Seq<u8>,
    row_bytes: int,
    area: (i32, i32, i32, i32),
    stride: int,
    r: int,
    c: int,
) -> u8 {
    copied_byte(old, data, row_bytes, area, stride, area.3 as int, 0, r, c)
}

/// The pixels of the remote display, 4 bytes each, row after row.
pub struct Paintable {
    pub buffer: Vec<u8>,
    pub width: i32,
    pub height: i32,
    pub pixel_format: PixelFormat,
    /// Whether row 0 is the top one (`None` when unknown).
    pub y0_top: Option<bool>,
}

proof fn lemma_pix_bound(row_bytes: int, rows: int, r: int, c: int)
    requires
        0 <= r < rows,
        0 <= c < row_bytes,
    ensures
        0 <= pix(row_bytes, r, c) < rows * row_bytes,
        pix(row_bytes, r, c) + 1 <= rows * row_bytes,
{
    assert(0 <= r * row_bytes) by (nonlinear_arith)
        requires
            0 <= r,
            0 <= c < row_bytes,
    ;
    assert(r * row_bytes + c < rows * row_bytes) by (nonlinear_arith)
        requires
            0 <= r < rows,
            0 <= c < row_bytes,
    ;
}

proof fn lemma_pix_injective(row_bytes: int, r1: int, c1: int, r2: int, c2: int)
    requires
        0 <= r1,
        0 <= r2,
        0 <= c1 < row_bytes,
        0 <= c2 < row_bytes,
        pix(row_bytes, r1, c1) == pix(row_bytes, r2, c2),
    ensures
        r1 == r2,
        c1 == c2,
{
    if r1 < r2 {
        assert(r1 * row_bytes + row_bytes <= r2 * row_bytes) by (nonlinear_arith)
            requires
                r1 < r2,
                0 <= row_bytes,
        ;
    } else if r2 < r1 {
        assert(r2 * row_bytes + row_bytes <= r1 * row_bytes) by (nonlinear_arith)
            requires
                r2 < r1,
                0 <= row_bytes,
        ;
    }
}

impl Paintable {
    /// The invariant: non-negative sizes. The buffer has 4 bytes per pixel after a
    /// resize; a GPU scanout changes the size without touching the buffer.
    pub open spec fn wf(&self) -> bool {
        &&& 0 <= self.width
        &&& 0 <= self.height
    }

    /// An empty buffer.
    pub fn new() -> (r: Paintable)
        ensures
            r.wf(),
            r.width == 0,
            r.height == 0,
            r.buffer@.len() == 0,
            r.pixel_format == PixelFormat::Bgra,
            r.y0_top.is_none(),
    {
        Paintable {
            buffer: Vec::new(),
            width: 0,
            height: 0,
            pixel_format: PixelFormat::Bgra,
            y0_top: None,
        }
    }

    /// The size in pixels.
    pub fn size(&self) -> (r: (i32, i32))
        ensures
            r == (self.width, self.height),
    {
        (self.width, self.height)
    }

    /// The intrinsic width of the paintable.
    pub fn intrinsic_width(&self) -> (r: i32)
        ensures
            r == self.width,
    {
        self.width
    }

    /// The intrinsic height of the paintable.
    pub fn intrinsic_height(&self) -> (r: i32)
        ensures
            r == self.height,
    {
        self.height
    }

    /// The pixel format.
    pub fn pixel_format(&self) -> (r: PixelFormat)
        ensures
            r == self.pixel_format,
    {
        self.pixel_format
    }

    /// Sets the pixel format. Returns whether it changed.
    pub fn set_pixel_format(&mut self, format: PixelFormat) -> (changed: bool)
        requires
            old(self).wf(),
        ensures
            final(self).wf(),
            changed == (format != old(self).pixel_format),
            final(self).pixel_format == format,
            final(self).buffer@ == old(self).buffer@,
            final(self).width == old(self).width,
            final(self).height == old(self).height,
            final(self).y0_top == old(self).y0_top,
    {
        if self.pixel_format == format {
            return false;
        }
        self.pixel_format = format;
        true
    }

    /// Sets the size in pixels. Returns whether it changed; the buffer is then resized
    /// to 4 bytes per pixel, keeping its first bytes and filling the rest with 0 (the
    /// texture must then be dropped).
    pub fn set_size(&mut self, w: usize, h: usize) -> (changed: bool)
        requires
            old(self).wf(),
            w <= i32::MAX,
            h <= i32::MAX,
            w * h * 4 <= usize::MAX,
        ensures
            final(self).wf(),
            changed == ((w as i32, h as i32) != (old(self).width, old(self).height)),
            final(self).width == w as i32,
            final(self).height == h as i32,
            final(self).pixel_format == old(self).pixel_format,
            final(self).y0_top == old(self).y0_top,
            changed ==> ({
                let n = if w * h * 4 <= old(self).buffer@.len() {
                    w * h * 4
                } else {
                    old(self).buffer@.len() as int
                };
                &&& final(self).buffer@.subrange(0, n) == old(self).buffer@.subrange(0, n)
                &&& forall|i: int| n <= i < w * h * 4 ==> final(self).buffer@[i] == 0
            }),
            changed ==> final(self).buffer@.len() == w * h * 4,
            !changed ==> final(self).buffer@ == old(self).buffer@,
    {
        let wi = w as i32;
        let hi = h as i32;
        if self.width == wi && self.height == hi {
            return false;
        }
        self.width = wi;
        self.height = hi;
        let len = w * h * 4;
        let ghost before = self.buffer@;
        self.buffer.resize(len, 0u8);
        proof {
            if len > before.len() {
                assert forall|i: int| before.len() <= i < len implies self.buffer@[i] == 0 by {
                    assert(cloned::<u8>(0u8, self.buffer@[i]));
                }
                assert(self.buffer@.subrange(0, before.len() as int) == before);
            } else {
                assert(self.buffer@ == before.subrange(0, len as int));
                assert(self.buffer@.subrange(0, len as int) =~= before.subrange(0, len as int));
            }
        }
        true
    }

    /// Copies an update into the buffer. The area is first brought inside the
    /// framebuffer; then row `r` of the area is read at `r * stride` in `data`, when the
    /// whole row lies within `data` (else it is skipped). Returns the area brought
    /// inside, which the texture is updated from.
    fn copy_area(&mut self, x: i32, y: i32, w: i32, h: i32, stride: i32, data: &[u8]) -> (area: (i32, i32, i32, i32))
        requires
            old(self).wf(),
            stride >= 0,
        ensures
            final(self).wf(),
            area == clamped_area(x, y, w, h, old(self).width, old(self).height),
            final(self).width == old(self).width,
            final(self).height == old(self).height,
            final(self).pixel_format == old(self).pixel_format,
            final(self).y0_top == old(self).y0_top,
            final(self).buffer@.len() == old(self).buffer@.len(),
            forall|r: int, c: int|
                0 <= r < old(self).height && 0 <= c < old(self).width * 4 && pix(old(self).width * 4, r, c)
                    < old(self).buffer@.len() ==> #[trigger] final(self).buffer@[pix(
                    old(self).width * 4,
                    r,
                    c,
                )] == updated_byte(
                    old(self).buffer@,
                    data@,
                    old(self).width * 4,
                    area,
                    stride as int,
                    r,
                    c,
                ),
            forall|i: int|
                old(self).height * (old(self).width * 4) <= i < old(self).buffer@.len() ==> #[trigger] final(self).buffer@[i]
                    == old(self).buffer@[i],
    {
        let max_w = self.width;
        let max_h = self.height;
        let cx = if x < 0 { 0 } else if x > max_w { max_w } else { x };
        let cy = if y < 0 { 0 } else if y > max_h { max_h } else { y };
        let cw = if w < 0 { 0 } else if w > max_w - cx { max_w - cx } else { w };
        let ch = if h < 0 { 0 } else if h > max_h - cy { max_h - cy } else { h };
        let area = (cx, cy, cw, ch);
        let ghost old_buf = self.buffer@;
        let ghost bs = max_w * 4;
        let blen: usize = self.buffer.len();
        let dlen: usize = data.len();
        let mut row: usize = 0;
        while row < ch as usize
            invariant
                self.wf(),
                self.width == max_w,
                self.height == max_h,
                self.pixel_format == old(self).pixel_format,
                self.y0_top == old(self).y0_top,
                old_buf == old(self).buffer@,
                max_w == old(self).width,
                max_h == old(self).height,
                area == clamped_area(x, y, w, h, max_w, max_h),
                area == (cx, cy, cw, ch),
                0 <= cx <= max_w,
                0 <= cy <= max_h,
                0 <= cw <= max_w - cx,
                0 <= ch <= max_h - cy,
                bs == max_w * 4,
                blen == old_buf.len(),
                self.buffer@.len() == blen,
                dlen == data@.len(),
                stride >= 0,
                row <= ch,
                forall|r: int, c: int|
                    0 <= r < max_h && 0 <= c < bs && pix(bs, r, c) < blen ==> #[trigger] self.buffer@[pix(bs, r, c)]
                        == copied_byte(old_buf, data@, bs, area, stride as int, row as int, 0, r, c),
                forall|i: int| max_h * bs <= i < blen ==> #[trigger] self.buffer@[i] == old_buf[i],
            decreases ch as usize - row,
        {
            proof {
                assert((row as int) * (stride as int) <= (i32::MAX as int) * (i32::MAX as int)) by (nonlinear_arith)
                    requires
                        0 <= row <= i32::MAX,
                        0 <= stride <= i32::MAX,
                ;
                assert(((cy + row) as int) * (max_w as int) <= (i32::MAX as int) * (i32::MAX as int)) by (nonlinear_arith)
                    requires
                        0 <= cy + row <= i32::MAX,
                        0 <= max_w <= i32::MAX,
                ;
            }
            let src_start: u64 = (row as u64) * (stride as u64);
            let src_end: u64 = src_start + (cw as u64) * 4;
            let dst_row: usize = cy as usize + row;
            let row_start: u128 = (dst_row as u128) * (max_w as u128) * 4;
            let dst_end: u128 = row_start + ((cx as u128) + (cw as u128)) * 4;
            proof {
                assert((dst_row as int) * (max_w as int) * 4 == (dst_row as int) * bs) by (nonlinear_arith)
                    requires
                        bs == max_w * 4,
                ;
                assert(row_start == (cy + row) * bs);
                assert(dst_end == (cy + row) * bs + (cx + cw) * 4);
            }
            if src_end <= dlen as u64 && dst_end <= blen as u128 {
                proof {
                    assert(row_copied(dlen as int, blen as int, bs, area, stride as int, row as int));
                }
                let row_base: usize = row_start as usize;
                let mut k: usize = 0;
                while k < (cw as usize) * 4
                    invariant
                        self.wf(),
                        self.width == max_w,
                        self.height == max_h,
                        self.pixel_format == old(self).pixel_format,
                        self.y0_top == old(self).y0_top,
                        old_buf == old(self).buffer@,
                        area == (cx, cy, cw, ch),
                        0 <= cx <= max_w,
                        0 <= cy <= max_h,
                        0 <= cw <= max_w - cx,
                        0 <= ch <= max_h - cy,
                        bs == max_w * 4,
                        row_base == dst_row * bs,
                        blen == old_buf.len(),
                        self.buffer@.len() == blen,
                        dlen == data@.len(),
                        stride >= 0,
                        row < ch,
                        dst_row == cy + row,
                        src_start == row * stride,
                        src_end == src_start + cw * 4,
                        src_end <= dlen,
                        dst_row * bs + (cx + cw) * 4 <= blen,
                        row_copied(dlen as int, blen as int, bs, area, stride as int, row as int),
                        k <= cw * 4,
                        forall|r: int, c: int|
                            0 <= r < max_h && 0 <= c < bs && pix(bs, r, c) < blen ==> #[trigger] self.buffer@[pix(bs, r, c)]
                                == copied_byte(old_buf, data@, bs, area, stride as int, row as int, k as int, r, c),
                        forall|i: int| max_h * bs <= i < blen ==> #[trigger] self.buffer@[i] == old_buf[i],
                    decreases (cw as usize) * 4 - k,
                {
                    let col: usize = (cx as usize) * 4 + k;
                    proof {
                        lemma_pix_bound(bs, max_h as int, dst_row as int, col as int);
                        assert(row_base + col == pix(bs, dst_row as int, col as int));
                    }
                    let dst: usize = row_base + col;
                    let src: usize = (src_start as usize) + k;
                    let v = data[src];
                    let ghost prev = self.buffer@;
                    self.buffer.set(dst, v);
                    proof {
                        assert forall|r: int, c: int|
                            0 <= r < max_h && 0 <= c < bs && pix(bs, r, c) < blen implies #[trigger] self.buffer@[pix(bs, r, c)]
                                == copied_byte(old_buf, data@, bs, area, stride as int, row as int, k + 1, r, c) by {
                            lemma_pix_bound(bs, max_h as int, r, c);
                            if pix(bs, r, c) == dst as int {
                                lemma_pix_injective(bs, r, c, dst_row as int, col as int);
                            } else {
                                assert(prev[pix(bs, r, c)] == copied_byte(old_buf, data@, bs, area, stride as int, row as int, k as int, r, c));
                                if r == dst_row as int && c == col as int {
                                    assert(false);
                                }
                            }
                        }
                        assert forall|i: int| max_h * bs <= i < blen implies #[trigger] self.buffer@[i] == old_buf[i] by {
                            assert(prev[i] == old_buf[i]);
                        }
                    }
                    k = k + 1;
                }
                proof {
                    assert forall|r: int, c: int|
                        0 <= r < max_h && 0 <= c < bs && pix(bs, r, c) < blen implies #[trigger] self.buffer@[pix(bs, r, c)]
                            == copied_byte(old_buf, data@, bs, area, stride as int, row + 1, 0, r, c) by {
                        assert(self.buffer@[pix(bs, r, c)] == copied_byte(old_buf, data@, bs, area, stride as int, row as int, k as int, r, c));
                    }
                }
            } else {
                proof {
                    assert(!row_copied(dlen as int, blen as int, bs, area, stride as int, row as int));
                    assert forall|r: int, c: int|
                        0 <= r < max_h && 0 <= c < bs && pix(bs, r, c) < blen implies #[trigger] self.buffer@[pix(bs, r, c)]
                            == copied_byte(old_buf, data@, bs, area, stride as int, row + 1, 0, r, c) by {
                        assert(self.buffer@[pix(bs, r, c)] == copied_byte(old_buf, data@, bs, area, stride as int, row as int, 0, r, c));
                    }
                }
            }
            row = row + 1;
        }
        area
    }

    /// Copies an update into the buffer, when it comes with data. The area is first
    /// brought inside the framebuffer; then row `r` of the area is read at
    /// `r * stride` in `data`, when the whole row lies within `data` (else it is
    /// skipped). Returns the area brought inside, which the texture is updated from.
    /// Without data the buffer is unchanged (the update is then in a GPU texture).
    pub fn update_area(&mut self, x: i32, y: i32, w: i32, h: i32, stride: i32, data: Option<&[u8]>) -> (area: (i32, i32, i32, i32))
        requires
            old(self).wf(),
            data.is_some() ==> stride >= 0,
        ensures
            final(self).wf(),
            area == clamped_area(x, y, w, h, old(self).width, old(self).height),
            final(self).width == old(self).width,
            final(self).height == old(self).height,
            final(self).pixel_format == old(self).pixel_format,
            final(self).y0_top == old(self).y0_top,
            data.is_none() ==> final(self).buffer@ == old(self).buffer@,
            final(self).buffer@.len() == old(self).buffer@.len(),
            forall|i: int|
                old(self).height * (old(self).width * 4) <= i < old(self).buffer@.len() ==> #[trigger] final(self).buffer@[i]
                    == old(self).buffer@[i],
            data matches Some(d) ==> forall|r: int, c: int|
                0 <= r < old(self).height && 0 <= c < old(self).width * 4 && pix(old(self).width * 4, r, c)
                    < old(self).buffer@.len() ==> #[trigger] final(self).buffer@[pix(
                    old(self).width * 4,
                    r,
                    c,
                )] == updated_byte(
                    old(self).buffer@,
                    d@,
                    old(self).width * 4,
                    area,
                    stride as int,
                    r,
                    c,
                ),
    {
        match data {
            Some(d) => self.copy_area(x, y, w, h, stride, d),
            None => {
                let max_w = self.width;
                let max_h = self.height;
                let cx = if x < 0 { 0 } else if x > max_w { max_w } else { x };
                let cy = if y < 0 { 0 } else if y > max_h { max_h } else { y };
                let cw = if w < 0 { 0 } else if w > max_w - cx { max_w - cx } else { w };
                let ch = if h < 0 { 0 } else if h > max_h - cy { max_h - cy } else { h };
                (cx, cy, cw, ch)
            },
        }
    }
}

impl Paintable {
    /// The size of the remote display, when known: a zero width or height means the
    /// size is unknown.
    pub open spec fn known_size(&self) -> Option<(usize, usize)> {
        if self.width == 0 || self.height == 0 {
            None
        } else {
            Some((self.width as usize, self.height as usize))
        }
    }

    /// The size of the remote display; none while it is unknown (a zero width or
    /// height).
    pub fn display_size(&self) -> (r: Option<(usize, usize)>)
        requires
            self.wf(),
        ensures
            r == self.known_size(),
    {
        if self.width == 0 || self.height == 0 {
            None
        } else {
            Some((self.width as usize, self.height as usize))
        }
    }

    /// Sets the size of the remote display (`None` for an unknown size, stored as 0x0).
    /// Returns whether the widget must be resized: whenever the size differs from the
    /// size known so far. Afterwards the size is known exactly when a size without a zero
    /// side was given.
    pub fn set_display_size(&mut self, size: Option<(usize, usize)>) -> (resize: bool)
        requires
            old(self).wf(),
            size matches Some((w, h)) ==> w <= i32::MAX && h <= i32::MAX && w * h * 4 <= usize::MAX,
        ensures
            final(self).wf(),
            resize == (size != old(self).known_size()),
            resize ==> ({
                let (w, h) = match size {
                    Some(s) => s,
                    None => (0usize, 0usize),
                };
                &&& final(self).width == w as i32
                &&& final(self).height == h as i32
            }),
            !resize ==> final(self).width == old(self).width && final(self).height == old(self).height
                && final(self).buffer@ == old(self).buffer@,
            final(self).known_size() == (match size {
                Some((w, h)) => if w != 0 && h != 0 {
                    Some((w, h))
                } else {
                    None::<(usize, usize)>
                },
                None => None::<(usize, usize)>,
            }),
            final(self).pixel_format == old(self).pixel_format,
    {
        let current = self.display_size();
        let same = match (current, size) {
            (Some((cw, ch)), Some((w, h))) => cw == w && ch == h,
            (None, None) => true,
            _ => false,
        };
        if same {
            return false;
        }
        let (w, h) = match size {
            Some(s) => s,
            None => (0, 0),
        };
        self.set_size(w, h);
        true
    }

    /// Takes the geometry of a GPU scanout: the size changes, the buffer is untouched.
    pub fn set_scanout_geometry(&mut self, width: u32, height: u32, y0_top: bool)
        requires
            old(self).wf(),
            width <= i32::MAX,
            height <= i32::MAX,
        ensures
            final(self).wf(),
            final(self).width == width as i32,
            final(self).height == height as i32,
            final(self).y0_top == Some(y0_top),
            final(self).buffer@ == old(self).buffer@,
            final(self).pixel_format == old(self).pixel_format,
    {
        self.width = width as i32;
        self.height = height as i32;
        self.y0_top = Some(y0_top);
    }
}

/// The size the picture of the display measures against: none for a zero size asked
/// (it then measures 0), else the paintable's size, at least 640x480.
pub fn picture_measure_base(for_size: i32, intrinsic_width: i32, intrinsic_height: i32) -> (r: Option<(i32, i32)>)
    ensures
        r == (if for_size == 0 {
            None
        } else {
            Some(
                (
                    if intrinsic_width > 640 {
                        intrinsic_width
                    } else {
                        640i32
                    },
                    if intrinsic_height > 480 {
                        intrinsic_height
                    } else {
                        480i32
                    },
                ),
            )
        }),
{
    if for_size == 0 {
        return None;
    }
    let w = if intrinsic_width > 640 {
        intrinsic_width
    } else {
        640
    };
    let h = if intrinsic_height > 480 {
        intrinsic_height
    } else {
        480
    };
    Some((w, h))
}

/// The display size given through the C API: unknown when either side is 0.
pub fn display_size_from_raw(width: usize, height: usize) -> (r: Option<(usize, usize)>)
    ensures
        r == (if width != 0 && height != 0 {
            Some((width, height))
        } else {
            None::<(usize, usize)>
        }),
{
    if width != 0 && height != 0 {
        Some((width, height))
    } else {
        None
    }
}

/// The cursor position given through the C API: none unless enabled.
pub fn cursor_position_from_raw(enabled: bool, x: i32, y: i32) -> (r: Option<(i32, i32)>)
    ensures
        r == (if enabled {
            Some((x, y))
        } else {
            None::<(i32, i32)>
        }),
{
    if enabled {
        Some((x, y))
    } else {
        None
    }
}

/// The length of the pixel data given through the C API: `h` rows of `stride` bytes.
pub fn update_data_len(h: i32, stride: i32) -> (r: usize)
    requires
        0 <= h,
        0 <= stride,
        h * stride <= i32::MAX,
    ensures
        r == h * stride,
{
    proof {
        assert(0 <= h * stride) by (nonlinear_arith)
            requires
                0 <= h,
                0 <= stride,
        ;
    }
    (h * stride) as usize
}

/// The area of an update, once brought inside, lies inside the framebuffer.
pub proof fn law_clamped_area_inside(x: i32, y: i32, w: i32, h: i32, max_w: i32, max_h: i32)
    requires
        max_w >= 0,
        max_h >= 0,
    ensures
        ({
            let (cx, cy, cw, ch) = clamped_area(x, y, w, h, max_w, max_h);
            &&& 0 <= cx && 0 <= cw && cx + cw <= max_w
            &&& 0 <= cy && 0 <= ch && cy + ch <= max_h
        }),
{
}

/// An update leaves every byte outside its area unchanged.
pub proof fn law_update_keeps_outside(
    old: Seq<u8>,
    data: Seq<u8>,
    row_bytes: int,
    area: (i32, i32, i32, i32),
    stride: int,
    r: int,
    c: int,
)
    requires
        !(area.1 <= r < area.1 + area.3 && area.0 * 4 <= c < (area.0 + area.2) * 4),
    ensures
        updated_byte(old, data, row_bytes, area, stride, r, c) == old[pix(row_bytes, r, c)],
{
}

/// Row `i` of an update, brought inside the framebuffer, is read at `i * stride` in the
/// data, wherever the area starts: byte `c` of that row lands at byte `4 * x + c` of
/// framebuffer row `y + i`, whenever the row lies within the data.
pub proof fn law_update_row_read_from_its_offset(
    old: Seq<u8>,
    data: Seq<u8>,
    x: i32,
    y: i32,
    w: i32,
    h: i32,
    max_w: i32,
    max_h: i32,
    stride: int,
    i: int,
    c: int,
)
    requires
        max_w >= 0,
        max_h >= 0,
        old.len() >= max_w * max_h * 4,
        stride >= 0,
        ({
            let (cx, cy, cw, ch) = clamped_area(x, y, w, h, max_w, max_h);
            &&& 0 <= i < ch
            &&& 0 <= c < cw * 4
            &&& i * stride + cw * 4 <= data.len()
        }),
    ensures
        ({
            let area = clamped_area(x, y, w, h, max_w, max_h);
            let (cx, cy, cw, ch) = area;
            updated_byte(old, data, max_w * 4, area, stride, cy + i, cx * 4 + c) == data[i * stride + c]
        }),
{
    let area = clamped_area(x, y, w, h, max_w, max_h);
    let (cx, cy, cw, ch) = area;
    law_clamped_area_inside(x, y, w, h, max_w, max_h);
    let r: int = cy + i;
    assert(r * (max_w * 4) + (cx + cw) * 4 <= max_w * max_h * 4) by (nonlinear_arith)
        requires
            0 <= r < max_h,
            0 <= cx + cw <= max_w,
            0 <= max_w,
    ;
}

/// An update of the whole framebuffer with tightly packed rows replaces every byte by
/// the data's.
pub proof fn law_full_update_replaces_buffer(
    old: Seq<u8>,
    data: Seq<u8>,
    max_w: i32,
    max_h: i32,
    r: int,
    c: int,
)
    requires
        max_w >= 0,
        max_h >= 0,
        data.len() >= max_w * max_h * 4,
        old.len() >= max_w * max_h * 4,
        0 <= r < max_h,
        0 <= c < max_w * 4,
    ensures
        updated_byte(old, data, max_w * 4, (0, 0, max_w, max_h), max_w * 4, r, c) == data[pix(
            max_w * 4,
            r,
            c,
        )],
{
    assert(r * (max_w * 4) + max_w * 4 <= max_w * max_h * 4) by (nonlinear_arith)
        requires
            0 <= r < max_h,
            0 <= max_w,
    ;
}

} // verus!
