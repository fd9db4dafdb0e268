use vstd::prelude::*;

use crate::color::Color;
use crate::drawer::{draw_style, glyphs_painted, style_painted, Drawer, GlyphBitmap};
use crate::widgets::{WidgetStyled, apply_style, styled, styled_fits, Position, Style, WidgetData, WidgetError, WidgetList};

verus! {

/// A piece of text laid out by the font engine: the string, its rasterised glyphs with
/// their offsets from the text's top-left corner, and the height of its lines.
#[derive(Debug)]
pub struct TextLayout {
    pub text: String,
    pub glyphs: Vec<GlyphBitmap>,
    pub height: usize,
}

impl TextLayout {
    /// A layout with no glyphs.
    pub fn empty() -> (l: TextLayout)
        ensures
            l.text@.len() == 0,
            l.glyphs@.len() == 0,
            l.height == 0,
    {
        TextLayout { text: String::new(), glyphs: Vec::new(), height: 0 }
    }
}

/// The right-most extent of the first `k` glyphs: the largest `x + width`, zero for none.
pub open spec fn glyphs_extent(gs: Seq<GlyphBitmap>, k: int) -> int
    decreases k,
{
    if k <= 0 {
        0
    } else if glyphs_extent(gs, k - 1) >= gs[k - 1].x + gs[k - 1].width {
        glyphs_extent(gs, k - 1)
    } else {
        gs[k - 1].x + gs[k - 1].width
    }
}

/// Width of a laid-out text: how far to the right its glyphs reach, if that fits in `usize`.
pub fn layout_width(gs: &Vec<GlyphBitmap>) -> (r: Option<usize>)
    ensures
        r is Some <==> glyphs_extent(gs@, gs@.len() as int) <= usize::MAX,
        r matches Some(w) ==> w == glyphs_extent(gs@, gs@.len() as int),
{
    let mut widest: usize = 0;
    let mut i: usize = 0;
    while i < gs.len()
        invariant
            i <= gs@.len(),
            widest == glyphs_extent(gs@, i as int),
        decreases gs@.len() - i,
    {
        match gs[i].x.checked_add(gs[i].width) {
            Some(e) => {
                if e > widest {
                    widest = e;
                }
            },
            None => {
                proof {
                    lemma_extent_mono(gs@, i + 1, gs@.len() as int);
                }
                return None;
            },
        }
        i = i + 1;
    }
    Some(widest)
}

proof fn lemma_extent_mono(gs: Seq<GlyphBitmap>, i: int, j: int)
    requires
        0 <= i <= j,
    ensures
        glyphs_extent(gs, i) <= glyphs_extent(gs, j),
    decreases j - i,
{
    if i < j {
        lemma_extent_mono(gs, i, j - 1);
    }
}

/// Settings of a [Text] widget.
#[derive(Debug)]
pub struct TextSettings {
    pub default_data: WidgetData,
    /// Text shown before the first layout arrives.
    pub text: String,
    pub font_color: Color,
    /// Font size in pixels.
    pub size: u32,
    /// Index of the font in the font table.
    pub fontid: usize,
    pub style: Style,
}

impl TextSettings {
    pub fn default() -> (s: TextSettings)
        ensures
            s.default_data == (WidgetData { position: Position(0, 0), width: 0, height: 0 }),
            s.text@.len() == 0,
            s.font_color == Color(0),
            s.size == 0,
            s.fontid == 0,
            s.style.background is None,
            s.style.border is None,
    {
        TextSettings {
            default_data: WidgetData::default(),
            text: String::new(),
            font_color: Color(0),
            size: 0,
            fontid: 0,
            style: Style::default(),
        }
    }
}

/// A widget that draws one laid-out text.
pub struct Text {
    settings: TextSettings,
    layout: TextLayout,
    data: WidgetData,
    bound: bool,
    ready: bool,
}

impl Text {
    pub closed spec fn view_data(self) -> WidgetData {
        self.data
    }

    pub closed spec fn is_bound(self) -> bool {
        self.bound
    }

    pub closed spec fn is_ready(self) -> bool {
        self.ready
    }

    pub closed spec fn view_style(self) -> Style {
        self.settings.style
    }

    pub closed spec fn view_layout(self) -> Seq<GlyphBitmap> {
        self.layout.glyphs@
    }

    pub closed spec fn view_text(self) -> Seq<char> {
        self.layout.text@
    }

    pub closed spec fn color(self) -> Color {
        self.settings.font_color
    }

    /// Size of the laid-out text, before the style is wrapped around it.
    pub closed spec fn content_width(self) -> int {
        glyphs_extent(self.layout.glyphs@, self.layout.glyphs@.len() as int)
    }

    pub closed spec fn content_height(self) -> int {
        self.layout.height as int
    }

    /// Whether preparing succeeds: the styled size fits in `usize`.
    pub open spec fn prepare_fits(self) -> bool {
        &&& self.content_width() <= usize::MAX
        &&& styled_fits(self.view_style(), self.content_width(), self.content_height())
    }

    /// The widget after a successful `prepare`.
    pub closed spec fn prepared(self) -> Text {
        Text {
            data: styled(self.data, self.settings.style, self.content_width(), self.content_height()),
            ready: true,
            ..self
        }
    }

    /// The widget moved to `p`.
    pub closed spec fn placed(self, p: Position) -> Text {
        Text { data: WidgetData { position: p, ..self.data }, ..self }
    }

    /// The widget attached to an environment.
    pub closed spec fn with_env(self) -> Text {
        Text { bound: true, ..self }
    }

    /// The widget marked stale, so that the next draw prepares it again.
    pub closed spec fn stale(self) -> Text {
        Text { ready: false, ..self }
    }

    /// Whether `draw` succeeds: the widget is bound, it is prepared or can be, and its
    /// glyph origin fits in `usize`.
    pub open spec fn draw_ok(self) -> bool {
        &&& self.is_bound()
        &&& self.is_ready() || self.prepare_fits()
        &&& self.glyph_origin(self.view_data().position).0 <= usize::MAX
        &&& self.glyph_origin(self.view_data().position).1 <= usize::MAX
    }

    /// The frame after the widget is drawn where it stands: style first, then glyphs.
    pub open spec fn painted_on(self, bytes: Seq<u8>, w: int, h: int) -> Seq<u8> {
        let o = self.glyph_origin(self.view_data().position);
        glyphs_painted(
            style_painted(bytes, w, h, self.view_data(), self.view_style()),
            w,
            h,
            o.0,
            o.1,
            self.view_layout(),
            self.color(),
            self.view_layout().len() as int,
        )
    }

    /// Where the glyphs of a widget at `p` start: inside its margin and border.
    pub open spec fn glyph_origin(self, p: Position) -> (int, int) {
        (self.view_style().content_x(p), self.view_style().content_y(p))
    }

    pub fn new(settings: TextSettings) -> (t: Text)
        ensures
            t.view_data() == settings.default_data,
            !t.is_bound(),
            !t.is_ready(),
            t.view_layout().len() == 0,
            t.view_style() == settings.style,
            t.color() == settings.font_color,
    {
        let data = settings.default_data;
        Text { settings, layout: TextLayout::empty(), data, bound: false, ready: false }
    }

    /// Attaches the widget to the environment it draws into.
    pub fn bind(&mut self)
        ensures
            *final(self) == old(self).with_env(),
            final(self).is_bound(),
            final(self).is_ready() == old(self).is_ready(),
            final(self).view_data() == old(self).view_data(),
    {
        self.bound = true;
    }

    /// Takes the size of the current layout, without style.
    pub fn init(&mut self) -> (r: Result<(), WidgetError>)
        ensures
            !old(self).is_bound() ==> r matches Err(WidgetError::InitWithNoEnv(WidgetList::Text)),
            !old(self).is_bound() ==> *final(self) == *old(self),
            final(self).is_bound() == old(self).is_bound(),
            r is Ok ==> !final(self).is_ready(),
            old(self).is_bound() ==> (r is Ok <==> old(self).content_width() <= usize::MAX),
            r is Ok ==> final(self).view_data() == (WidgetData {
                position: old(self).view_data().position,
                width: old(self).content_width() as usize,
                height: old(self).content_height() as usize,
            }),
            r is Err ==> *final(self) == *old(self),
    {
        if !self.bound {
            return Err(WidgetError::InitWithNoEnv(WidgetList::Text));
        }
        match layout_width(&self.layout.glyphs) {
            Some(w) => {
                self.data.width = w;
                self.data.height = self.layout.height;
                self.ready = false;
                Ok(())
            },
            None => Err(WidgetError::InvalidBounds),
        }
    }

    /// Recomputes the size from the current layout and wraps the style around it.
    pub fn prepare(&mut self) -> (r: Result<(), WidgetError>)
        ensures
            r is Ok <==> old(self).prepare_fits(),
            r is Ok ==> *final(self) == old(self).prepared(),
            r is Err ==> *final(self) == *old(self) && r matches Err(WidgetError::InvalidBounds),
    {
        let w = match layout_width(&self.layout.glyphs) {
            Some(w) => w,
            None => return Err(WidgetError::InvalidBounds),
        };
        let mut d = WidgetData { position: self.data.position, width: w, height: self.layout.height };
        match apply_style(&mut d, &self.settings.style) {
            Ok(()) => {
                self.data = d;
                self.ready = true;
                Ok(())
            },
            Err(e) => Err(e),
        }
    }

    /// Draws the style, then every glyph, preparing first when the widget is stale. The
    /// widget is left stale so that the next frame prepares it again.
    pub fn draw(&mut self, drawer: &mut Drawer) -> (r: Result<(), WidgetError>)
        requires
            old(drawer).wf(),
        ensures
            final(drawer).wf(),
            final(drawer).frame_width() == old(drawer).frame_width(),
            final(drawer).frame_height() == old(drawer).frame_height(),
            final(self).is_bound() == old(self).is_bound(),
            !old(self).is_bound() ==> r matches Err(WidgetError::DrawWithNoEnv(WidgetList::Text)),
            !old(self).is_bound() ==> *final(self) == *old(self) && final(drawer).frame() == old(drawer).frame(),
            r is Ok <==> old(self).draw_ok(),
            r is Ok ==> ({
                let t = if old(self).is_ready() {
                    *old(self)
                } else {
                    old(self).prepared()
                };
                &&& *final(self) == t.stale()
                &&& final(drawer).frame() == t.painted_on(
                    old(drawer).frame(),
                    old(drawer).frame_width() as int,
                    old(drawer).frame_height() as int,
                )
            }),
    {
        if !self.bound {
            return Err(WidgetError::DrawWithNoEnv(WidgetList::Text));
        }
        if !self.ready {
            self.prepare()?;
        }
        let ghost t = *self;
        self.ready = false;
        let style = self.settings.style;
        let b = style.border_thickness();
        let origin = match (
            crate::widgets::checked_add4(self.data.position.0, style.margin.left, b, 0, 0),
            crate::widgets::checked_add4(self.data.position.1, style.margin.up, b, 0, 0),
        ) {
            (Some(x), Some(y)) => Position(x, y),
            _ => return Err(WidgetError::InvalidBounds),
        };
        draw_style(drawer, &self.data, &style);
        let content = WidgetData { position: origin, width: 0, height: 0 };
        let ghost after_style = drawer.frame();
        let ghost w = drawer.frame_width() as int;
        let ghost h = drawer.frame_height() as int;
        let color = self.settings.font_color;
        let mut i: usize = 0;
        while i < self.layout.glyphs.len()
            invariant
                drawer.wf(),
                drawer.frame_width() == w,
                drawer.frame_height() == h,
                i <= self.layout.glyphs@.len(),
                self.layout.glyphs@ == t.view_layout(),
                color == t.color(),
                origin.0 == t.glyph_origin(t.view_data().position).0,
                origin.1 == t.glyph_origin(t.view_data().position).1,
                content.position == origin,
                drawer.frame() == glyphs_painted(
                    after_style,
                    w,
                    h,
                    origin.0 as int,
                    origin.1 as int,
                    t.view_layout(),
                    color,
                    i as int,
                ),
            decreases self.layout.glyphs@.len() - i,
        {
            drawer.draw_glyph(&content, &self.layout.glyphs[i], color);
            i = i + 1;
        }
        Ok(())
    }

    /// The text currently shown.
    pub fn get_text(&self) -> (s: String)
        ensures
            s@ == self.view_text(),
    {
        self.layout.text.clone()
    }

    /// Replaces the shown text with a new layout of it; the size follows on the next
    /// `prepare`.
    pub fn change_text(&mut self, layout: TextLayout)
        ensures
            final(self).view_layout() == layout.glyphs@,
            final(self).view_text() == layout.text@,
            final(self).view_data() == old(self).view_data(),
            final(self).view_style() == old(self).view_style(),
            final(self).color() == old(self).color(),
            final(self).is_bound() == old(self).is_bound(),
            final(self).is_ready() == old(self).is_ready(),
            final(self).content_height() == layout.height,
    {
        self.layout = layout;
    }

    pub fn data(&self) -> (d: WidgetData)
        ensures
            d == self.view_data(),
    {
        self.data
    }

    /// Moves the widget; only its position changes.
    pub fn set_position(&mut self, p: Position)
        ensures
            *final(self) == old(self).placed(p),
    {
        self.data.position = p;
    }


    /// Preparing twice in a row gives the same widget as preparing once.
    pub proof fn lemma_prepare_idempotent(self)
        requires
            self.prepare_fits(),
        ensures
            self.prepared().prepare_fits(),
            self.prepared().prepared() == self.prepared(),
            self.prepared().view_data().position == self.view_data().position,
    {
    }

    /// Preparing a widget that fits gives one that prepares to itself.
    pub proof fn lemma_prepare_idempotent_if_fits(self)
        ensures
            self.prepare_fits() ==> self.prepared().prepare_fits() && self.prepared().prepared() == self.prepared(),
            self.prepared().view_data().position == self.view_data().position,
            self.prepared().is_bound() == self.is_bound(),
    {
    }

    /// What preparing, moving and marking stale keep and change.
    pub proof fn lemma_placed_prepared(self, p: Position)
        ensures
            self.placed(p).prepare_fits() == self.prepare_fits(),
            self.placed(p).prepared() == self.prepared().placed(p),
            self.placed(p).view_data() == (WidgetData { position: p, ..self.view_data() }),
            self.placed(p).is_bound() == self.is_bound(),
            self.placed(p).is_ready() == self.is_ready(),
            self.placed(p).view_style() == self.view_style(),
            self.placed(p).view_layout() == self.view_layout(),
            self.placed(p).color() == self.color(),
            self.prepared().is_bound() == self.is_bound(),
            self.prepared().is_ready(),
            self.prepared().view_style() == self.view_style(),
            self.prepared().view_layout() == self.view_layout(),
            self.prepared().color() == self.color(),
            self.prepared().view_data().position == self.view_data().position,
            self.prepared().view_data() == styled(self.view_data(), self.view_style(), self.content_width(), self.content_height()),
            self.stale().prepared() == self.prepared(),
            self.stale().is_bound() == self.is_bound(),
            !self.stale().is_ready(),
            self.stale().view_data() == self.view_data(),
            self.with_env().is_bound(),
            self.with_env().prepared() == self.prepared().with_env(),
            self.placed(p).placed(p) == self.placed(p),
            self.prepared().placed(p).is_ready(),
    {
    }
}

impl WidgetStyled for Text {
    open spec fn style_view(&self) -> Style {
        self.view_style()
    }

    fn style(&self) -> (s: &Style) {
        &self.settings.style
    }
}

} // verus!
