use vstd::prelude::*;

use crate::color::Color;
use crate::widgets::{Position, Style, WidgetData};

verus! {

/// Errors of the compositor.
#[derive(Clone, Copy, Debug, PartialEq, Eq, Structural)]
pub enum DrawerError {
    /// An index past the end of the frame: the frame's size, then the index.
    OutOfBounds(usize, usize),
}

/// A rasterised glyph ready to be composited: its offset inside the widget, its size, and
/// one coverage byte per pixel, row by row.
#[derive(Clone, Debug)]
pub struct GlyphBitmap {
    pub x: usize,
    pub y: usize,
    pub width: usize,
    pub height: usize,
    pub coverage: Vec<u8>,
    pub is_whitespace: bool,
}

/// The byte sequence with pixel `k` replaced by `c`, stored as blue, green, red, alpha.
pub open spec fn put_pixel(bytes: Seq<u8>, k: int, c: Color) -> Seq<u8> {
    bytes.update(4 * k, c.blue()).update(4 * k + 1, c.green()).update(4 * k + 2, c.red()).update(
        4 * k + 3,
        c.alpha(),
    )
}

/// The colour stored in pixel `k`.
pub open spec fn cell(bytes: Seq<u8>, k: int) -> Color {
    Color::rgba(bytes[4 * k + 2], bytes[4 * k + 1], bytes[4 * k], bytes[4 * k + 3])
}

/// The frame after blending `c` onto the pixel at `(x, y)`; a pixel outside the frame is
/// clipped away.
pub open spec fn painted(bytes: Seq<u8>, w: int, h: int, x: int, y: int, c: Color) -> Seq<u8> {
    if 0 <= x < w && 0 <= y < h {
        let k = y * w + x;
        put_pixel(bytes, k, Color::blended(cell(bytes, k), c))
    } else {
        bytes
    }
}

/// The frame after the first `k` cells of a `cols` by `rows` block placed at `(ox, oy)` are
/// painted, column by column; `f` gives the colour of each cell, `None` to leave it out.
pub open spec fn painted_block(
    bytes: Seq<u8>,
    w: int,
    h: int,
    ox: int,
    oy: int,
    rows: int,
    f: spec_fn(int, int) -> Option<Color>,
    k: int,
) -> Seq<u8>
    decreases k,
{
    if k <= 0 || rows <= 0 {
        bytes
    } else {
        let prev = painted_block(bytes, w, h, ox, oy, rows, f, k - 1);
        let x = (k - 1) / rows;
        let y = (k - 1) % rows;
        match f(x, y) {
            Some(c) => painted(prev, w, h, ox + x, oy + y, c),
            None => prev,
        }
    }
}

/// Every cell in one colour.
pub open spec fn solid(c: Color) -> spec_fn(int, int) -> Option<Color> {
    |x: int, y: int| Some(c)
}

/// The frame after a `cols` by `rows` block at `(ox, oy)` is painted in one colour.
pub open spec fn painted_rect(bytes: Seq<u8>, w: int, h: int, ox: int, oy: int, cols: int, rows: int, c: Color) -> Seq<u8> {
    painted_block(bytes, w, h, ox, oy, rows, solid(c), cols * rows)
}

/// The frame after a widget's style is drawn: the background inside the border, then the
/// border as the left and right columns and the top and bottom rows between them.
pub open spec fn style_painted(bytes: Seq<u8>, w: int, h: int, data: WidgetData, style: Style) -> Seq<u8> {
    match bordered_box(data, style) {
        Some(b) => box_painted(bytes, w, h, b, style),
        None => bytes,
    }
}

/// The part of a widget inside its margin, where its border and background go; `None`
/// when its corner lies beyond `usize`. A margin wider than the widget leaves nothing.
pub open spec fn bordered_box(data: WidgetData, style: Style) -> Option<WidgetData> {
    let x = data.position.0 + style.margin.left;
    let y = data.position.1 + style.margin.up;
    let mw = style.margin.left + style.margin.right;
    let mh = style.margin.up + style.margin.down;
    if x > usize::MAX || y > usize::MAX {
        None
    } else {
        Some(
            WidgetData {
                position: Position(x as usize, y as usize),
                width: (if mw <= data.width { data.width - mw } else { 0 }) as usize,
                height: (if mh <= data.height { data.height - mh } else { 0 }) as usize,
            },
        )
    }
}

/// The frame after a box gets the style's background inside the border, then the border as
/// the left and right columns and the top and bottom rows between them.
pub open spec fn box_painted(bytes: Seq<u8>, w: int, h: int, data: WidgetData, style: Style) -> Seq<u8> {
    let px = data.position.0 as int;
    let py = data.position.1 as int;
    let dw = data.width as int;
    let dh = data.height as int;
    let t = style.thickness() as int;
    let inner_w = if 2 * t <= dw && 2 * t <= dh { dw - 2 * t } else { 0 };
    let inner_h = if 2 * t <= dw && 2 * t <= dh { dh - 2 * t } else { 0 };
    let after_background = match style.background {
        Some(bg) => if inner_w > 0 {
            painted_rect(bytes, w, h, px + t, py + t, inner_w, inner_h, bg)
        } else {
            bytes
        },
        None => bytes,
    };
    match style.border {
        Some((thick, c)) => {
            let tw = if thick <= dw { thick as int } else { dw };
            let th = if thick <= dh { thick as int } else { dh };
            let sides = painted_rect(
                painted_rect(after_background, w, h, px, py, tw, dh, c),
                w,
                h,
                px + dw - tw,
                py,
                tw,
                dh,
                c,
            );
            if 2 * tw <= dw {
                painted_rect(
                    painted_rect(sides, w, h, px + tw, py, dw - 2 * tw, th, c),
                    w,
                    h,
                    px + tw,
                    py + dh - th,
                    dw - 2 * tw,
                    th,
                    c,
                )
            } else {
                sides
            }
        },
        None => after_background,
    }
}

/// A glyph's colour at `(x, y)`: the text colour with the glyph's coverage as its alpha.
pub open spec fn glyph_cell(g: GlyphBitmap, color: Color, x: int, y: int) -> Option<Color> {
    let i = x + y * g.width;
    if i < g.coverage@.len() {
        Some(Color::rgba(color.red(), color.green(), color.blue(), g.coverage@[i]))
    } else {
        None
    }
}

/// Every cell of a glyph in the text colour with the glyph's coverage as alpha.
pub open spec fn glyph_colors(g: GlyphBitmap, color: Color) -> spec_fn(int, int) -> Option<Color> {
    |x: int, y: int| glyph_cell(g, color, x, y)
}

/// The frame after the first `k` glyphs are composited at `(ox, oy)` plus each glyph's
/// offset, whitespace skipped.
pub open spec fn glyphs_painted(
    bytes: Seq<u8>,
    w: int,
    h: int,
    ox: int,
    oy: int,
    gs: Seq<GlyphBitmap>,
    color: Color,
    k: int,
) -> Seq<u8>
    decreases k,
{
    if k <= 0 {
        bytes
    } else {
        let prev = glyphs_painted(bytes, w, h, ox, oy, gs, color, k - 1);
        let g = gs[k - 1];
        if g.is_whitespace {
            prev
        } else {
            painted_block(prev, w, h, ox + g.x, oy + g.y, g.height as int, glyph_colors(g, color), g.width * g.height)
        }
    }
}

/// The compositor's frame buffer: `width * height` pixels, four bytes each, row-major.
pub struct Drawer {
    width: usize,
    height: usize,
    pixels: Vec<u8>,
}

impl Drawer {
    pub closed spec fn frame_width(self) -> nat {
        self.width as nat
    }

    pub closed spec fn frame_height(self) -> nat {
        self.height as nat
    }

    pub closed spec fn frame(self) -> Seq<u8> {
        self.pixels@
    }

    pub closed spec fn wf(self) -> bool {
        &&& self.pixels@.len() == self.width * self.height * 4
        &&& self.width * self.height * 4 <= usize::MAX
    }

    /// A transparent frame of the given size.
    pub fn new(width: usize, height: usize) -> (d: Drawer)
        requires
            width * height * 4 <= usize::MAX,
        ensures
            d.wf(),
            d.frame_width() == width,
            d.frame_height() == height,
            d.frame() == Seq::new((width * height * 4) as nat, |i: int| 0u8),
    {
        proof {
            lemma_mul_bounds(width as int, height as int);
        }
        let pixels = vec![0u8; width * height * 4];
        assert(pixels@ =~= Seq::new((width * height * 4) as nat, |i: int| 0u8));
        Drawer { width, height, pixels }
    }

    /// Discards the frame and starts a transparent one of the new size.
    pub fn update_sizes(&mut self, width: usize, height: usize)
        requires
            width * height * 4 <= usize::MAX,
        ensures
            final(self).wf(),
            final(self).frame_width() == width,
            final(self).frame_height() == height,
            final(self).frame() == Seq::new((width * height * 4) as nat, |i: int| 0u8),
    {
        *self = Drawer::new(width, height);
    }

    /// A well-formed frame holds four bytes for each of its pixels.
    pub proof fn lemma_frame_len(self)
        requires
            self.wf(),
        ensures
            self.frame().len() == self.frame_width() * self.frame_height() * 4,
    {
    }

    pub fn width(&self) -> (w: usize)
        ensures
            w == self.frame_width(),
    {
        self.width
    }

    pub fn height(&self) -> (h: usize)
        ensures
            h == self.frame_height(),
    {
        self.height
    }

    /// The frame's bytes, four per pixel in the order blue, green, red, alpha.
    pub fn pixels(&self) -> (p: &Vec<u8>)
        ensures
            p@ == self.frame(),
    {
        &self.pixels
    }

    /// Blends `color` onto the pixel at the widget's position plus `pos`; a pixel outside
    /// the frame is dropped.
    pub fn draw_pixel(&mut self, data: &WidgetData, pos: (usize, usize), color: Color)
        requires
            old(self).wf(),
        ensures
            final(self).wf(),
            final(self).frame_width() == old(self).frame_width(),
            final(self).frame_height() == old(self).frame_height(),
            final(self).frame() == painted(
                old(self).frame(),
                old(self).frame_width() as int,
                old(self).frame_height() as int,
                data.position.0 + pos.0,
                data.position.1 + pos.1,
                color,
            ),
    {
        let x = match data.position.0.checked_add(pos.0) {
            Some(x) => x,
            None => return ,
        };
        let y = match data.position.1.checked_add(pos.1) {
            Some(y) => y,
            None => return ,
        };
        if x >= self.width || y >= self.height {
            return ;
        }
        proof {
            lemma_cell_index(x as int, y as int, self.width as int, self.height as int);
        }
        let k = y * self.width + x;
        let i = 4 * k;
        let existing = Color::from_rgba(
            self.pixels[i + 2],
            self.pixels[i + 1],
            self.pixels[i],
            self.pixels[i + 3],
        );
        let c = Color::blend_colors(&existing, &color);
        self.pixels.set(i, c.b());
        self.pixels.set(i + 1, c.g());
        self.pixels.set(i + 2, c.r());
        self.pixels.set(i + 3, c.a());
    }

    /// Paints a `cols` by `rows` block of one colour whose top-left cell is at `(x0, y0)`
    /// inside the widget, column by column.
    pub fn fill_block(
        &mut self,
        data: &WidgetData,
        x0: usize,
        y0: usize,
        cols: usize,
        rows: usize,
        color: Color,
    )
        requires
            old(self).wf(),
            x0 + cols <= usize::MAX,
            y0 + rows <= usize::MAX,
        ensures
            final(self).wf(),
            final(self).frame_width() == old(self).frame_width(),
            final(self).frame_height() == old(self).frame_height(),
            final(self).frame() == painted_block(
                old(self).frame(),
                old(self).frame_width() as int,
                old(self).frame_height() as int,
                data.position.0 + x0,
                data.position.1 + y0,
                rows as int,
                solid(color),
                cols * rows,
            ),
    {
        let ghost f = solid(color);
        let ghost start = self.frame();
        let ghost w = self.width as int;
        let ghost h = self.height as int;
        let ghost ox = data.position.0 + x0;
        let ghost oy = data.position.1 + y0;
        let mut x: usize = 0;
        while x < cols
            invariant
                self.wf(),
                x <= cols,
                self.frame_width() == w,
                self.frame_height() == h,
                x0 + cols <= usize::MAX,
                y0 + rows <= usize::MAX,
                f == (solid(color)),
                ox == data.position.0 + x0,
                oy == data.position.1 + y0,
                self.frame() == painted_block(start, w, h, ox, oy, rows as int, f, x * rows),
            decreases cols - x,
        {
            let mut y: usize = 0;
            while y < rows
                invariant
                    self.wf(),
                    x < cols,
                    y <= rows,
                    self.frame_width() == w,
                    self.frame_height() == h,
                    x0 + cols <= usize::MAX,
                    y0 + rows <= usize::MAX,
                    f == (solid(color)),
                    ox == data.position.0 + x0,
                    oy == data.position.1 + y0,
                    self.frame() == painted_block(start, w, h, ox, oy, rows as int, f, x * rows + y),
                decreases rows - y,
            {
                proof {
                    lemma_block_step(x as int, y as int, rows as int);
                }
                let ghost prev = self.frame();
                self.draw_pixel(data, (x0 + x, y0 + y), color);
                proof {
                    let k = x * rows + y;
                    assert(f(x as int, y as int) == Some(color));
                    assert(painted_block(start, w, h, ox, oy, rows as int, f, k + 1) == painted(
                        prev,
                        w,
                        h,
                        ox + x,
                        oy + y,
                        color,
                    ));
                }
                y = y + 1;
            }
            proof {
                assert(x * rows + rows == (x + 1) * rows) by (nonlinear_arith);
            }
            x = x + 1;
        }
    }

    /// Composites a glyph at the widget's position plus the glyph's offset: each covered
    /// cell gets `color` with the coverage as alpha. Whitespace draws nothing.
    pub fn draw_glyph(&mut self, data: &WidgetData, glyph: &GlyphBitmap, color: Color)
        requires
            old(self).wf(),
        ensures
            final(self).wf(),
            final(self).frame_width() == old(self).frame_width(),
            final(self).frame_height() == old(self).frame_height(),
            glyph.is_whitespace ==> final(self).frame() == old(self).frame(),
            !glyph.is_whitespace ==> final(self).frame() == painted_block(
                old(self).frame(),
                old(self).frame_width() as int,
                old(self).frame_height() as int,
                data.position.0 + glyph.x,
                data.position.1 + glyph.y,
                glyph.height as int,
                glyph_colors(*glyph, color),
                glyph.width * glyph.height,
            ),
    {
        if glyph.is_whitespace {
            return ;
        }
        let ghost f = glyph_colors(*glyph, color);
        let ghost start = self.frame();
        let ghost w = self.width as int;
        let ghost h = self.height as int;
        let ghost ox = data.position.0 + glyph.x;
        let ghost oy = data.position.1 + glyph.y;
        let rows = glyph.height;
        let mut x: usize = 0;
        while x < glyph.width
            invariant
                self.wf(),
                x <= glyph.width,
                rows == glyph.height,
                self.frame_width() == w,
                self.frame_height() == h,
                f == (glyph_colors(*glyph, color)),
                ox == data.position.0 + glyph.x,
                oy == data.position.1 + glyph.y,
                self.frame() == painted_block(start, w, h, ox, oy, rows as int, f, x * rows),
            decreases glyph.width - x,
        {
            let mut y: usize = 0;
            while y < rows
                invariant
                    self.wf(),
                    x < glyph.width,
                    y <= rows,
                    rows == glyph.height,
                    self.frame_width() == w,
                    self.frame_height() == h,
                    f == (glyph_colors(*glyph, color)),
                    ox == data.position.0 + glyph.x,
                    oy == data.position.1 + glyph.y,
                    self.frame() == painted_block(start, w, h, ox, oy, rows as int, f, x * rows + y),
                decreases rows - y,
            {
                proof {
                    lemma_block_step(x as int, y as int, rows as int);
                }
                let idx = cell_offset(x, y, glyph.width, glyph.coverage.len());
                match idx {
                    Some(i) => {
                        let c = Color::from_rgba(color.r(), color.g(), color.b(), glyph.coverage[i]);
                        match (glyph.x.checked_add(x), glyph.y.checked_add(y)) {
                            (Some(gx), Some(gy)) => self.draw_pixel(data, (gx, gy), c),
                            _ => {
                                proof {
                                    assert(glyph.x + x > usize::MAX || glyph.y + y > usize::MAX);
                                    assert(self.width * self.height * 4 <= usize::MAX);
                                    lemma_far_cell_clipped(self.frame(), w, h, ox + x, oy + y, c);
                                }
                            },
                        }
                    },
                    None => {},
                }
                assert(f(x as int, y as int) == glyph_cell(*glyph, color, x as int, y as int));
                y = y + 1;
            }
            proof {
                assert(x * rows + rows == (x + 1) * rows) by (nonlinear_arith);
            }
            x = x + 1;
        }
    }
}

/// `x + y * width` when it is below `len`, else `None`.
fn cell_offset(x: usize, y: usize, width: usize, len: usize) -> (r: Option<usize>)
    ensures
        r is Some <==> x + y * width < len,
        r matches Some(i) ==> i == x + y * width,
{
    match y.checked_mul(width) {
        Some(row) => match row.checked_add(x) {
            Some(i) => if i < len {
                Some(i)
            } else {
                None
            },
            None => None,
        },
        None => None,
    }
}

proof fn lemma_far_cell_clipped(bytes: Seq<u8>, w: int, h: int, x: int, y: int, c: Color)
    requires
        x > usize::MAX || y > usize::MAX,
        w * h * 4 <= usize::MAX,
        w >= 0,
        h >= 0,
    ensures
        painted(bytes, w, h, x, y, c) == bytes,
{
    if 0 <= x < w && 0 <= y < h {
        lemma_mul_bounds(w, h);
        assert(w <= w * h * 4) by (nonlinear_arith)
            requires
                0 <= y < h,
                w >= 0,
        ;
        assert(h <= w * h * 4) by (nonlinear_arith)
            requires
                0 <= x < w,
                h >= 0,
        ;
    }
}

proof fn lemma_block_step(x: int, y: int, rows: int)
    requires
        0 <= x,
        0 <= y < rows,
    ensures
        (x * rows + y + 1 - 1) / rows == x,
        (x * rows + y + 1 - 1) % rows == y,
        x * rows + y + 1 > 0,
{
    assert((x * rows + y) / rows == x && (x * rows + y) % rows == y) by (nonlinear_arith)
        requires
            0 <= x,
            0 <= y < rows,
    ;
    assert(x * rows >= 0) by (nonlinear_arith)
        requires
            0 <= x,
            0 <= y < rows,
    ;
}

proof fn lemma_mul_bounds(w: int, h: int)
    requires
        w >= 0,
        h >= 0,
    ensures
        w * h >= 0,
        w * h * 4 >= w * h,
{
    assert(w * h >= 0) by (nonlinear_arith)
        requires
            w >= 0,
            h >= 0,
    ;
}

proof fn lemma_cell_index(x: int, y: int, w: int, h: int)
    requires
        0 <= x < w,
        0 <= y < h,
        w * h * 4 <= usize::MAX,
    ensures
        0 <= y * w + x < w * h,
        4 * (y * w + x) + 3 < w * h * 4,
        y * w <= usize::MAX,
{
    assert(0 <= y * w + x < w * h && y * w >= 0) by (nonlinear_arith)
        requires
            0 <= x < w,
            0 <= y < h,
    ;
}

/// Paints the widget's style inside its margin: the background inside the border, then the
/// border as a frame around it, each pixel once.
pub fn draw_style(drawer: &mut Drawer, data: &WidgetData, style: &Style)
    requires
        old(drawer).wf(),
    ensures
        final(drawer).wf(),
        final(drawer).frame_width() == old(drawer).frame_width(),
        final(drawer).frame_height() == old(drawer).frame_height(),
        final(drawer).frame() == style_painted(
            old(drawer).frame(),
            old(drawer).frame_width() as int,
            old(drawer).frame_height() as int,
            *data,
            *style,
        ),
{
    let x = data.position.0.checked_add(style.margin.left);
    let y = data.position.1.checked_add(style.margin.up);
    let (x, y) = match (x, y) {
        (Some(x), Some(y)) => (x, y),
        _ => return ,
    };
    let mw = style.margin.left as u128 + style.margin.right as u128;
    let mh = style.margin.up as u128 + style.margin.down as u128;
    let inner = WidgetData {
        position: Position(x, y),
        width: if mw <= data.width as u128 { (data.width as u128 - mw) as usize } else { 0 },
        height: if mh <= data.height as u128 { (data.height as u128 - mh) as usize } else { 0 },
    };
    draw_box(drawer, &inner, style);
}

/// Paints the background inside the border of the box, then the border around it.
fn draw_box(drawer: &mut Drawer, data: &WidgetData, style: &Style)
    requires
        old(drawer).wf(),
    ensures
        final(drawer).wf(),
        final(drawer).frame_width() == old(drawer).frame_width(),
        final(drawer).frame_height() == old(drawer).frame_height(),
        final(drawer).frame() == box_painted(
            old(drawer).frame(),
            old(drawer).frame_width() as int,
            old(drawer).frame_height() as int,
            *data,
            *style,
        ),
{
    let w = data.width;
    let h = data.height;
    let t = style.border_thickness();
    // a border that covers the whole widget leaves no room for the background
    let (inner_w, inner_h) = if 2 * (t as u128) <= w as u128 && 2 * (t as u128) <= h as u128 {
        (w - 2 * t, h - 2 * t)
    } else {
        (0, 0)
    };
    if let Some(bg) = style.background {
        if inner_w > 0 {
            drawer.fill_block(data, t, t, inner_w, inner_h, bg);
        }
    }
    if let Some((t, color)) = style.border {
        let tw = if t <= w { t } else { w };
        let th = if t <= h { t } else { h };
        // left and right columns, full height
        drawer.fill_block(data, 0, 0, tw, h, color);
        drawer.fill_block(data, w - tw, 0, tw, h, color);
        // top and bottom rows between the columns
        if 2 * (tw as u128) <= w as u128 {
            drawer.fill_block(data, tw, 0, w - 2 * tw, th, color);
            drawer.fill_block(data, tw, h - th, w - 2 * tw, th, color);
        }
    }
}

} // verus!
