use vstd::prelude::*;
use vstd::string::StringExecFns;

use crate::color::Color;
use crate::drawer::{Drawer, GlyphBitmap};
use crate::icon_text::IconText;
use crate::row::RowError;
use crate::text::{Text, TextLayout};

verus! {

/// A pixel coordinate `(x, y)`, origin at the top-left corner.
#[derive(Clone, Copy, Debug, PartialEq, Eq, Structural)]
pub struct Position(pub usize, pub usize);

/// Geometry shared by every widget: where it is drawn and how much space it takes.
#[derive(Clone, Copy, Debug, PartialEq, Eq, Structural)]
pub struct WidgetData {
    /// Offset of the widget in the frame buffer; written by the parent container.
    pub position: Position,
    /// Width of the widget; written by the widget itself.
    pub width: usize,
    /// Height of the widget; written by the widget itself.
    pub height: usize,
}

impl Position {
    /// Component-wise sum.
    pub fn add(self, rhs: Position) -> (p: Position)
        requires
            self.0 + rhs.0 <= usize::MAX,
            self.1 + rhs.1 <= usize::MAX,
        ensures
            p == Position((self.0 + rhs.0) as usize, (self.1 + rhs.1) as usize),
    {
        Position(self.0 + rhs.0, self.1 + rhs.1)
    }

    /// Moves the position by `rhs`.
    pub fn add_assign(&mut self, rhs: (usize, usize))
        requires
            old(self).0 + rhs.0 <= usize::MAX,
            old(self).1 + rhs.1 <= usize::MAX,
        ensures
            *final(self) == Position((old(self).0 + rhs.0) as usize, (old(self).1 + rhs.1) as usize),
    {
        self.0 = self.0 + rhs.0;
        self.1 = self.1 + rhs.1;
    }
}

impl WidgetData {
    pub fn default() -> (d: WidgetData)
        ensures
            d == (WidgetData { position: Position(0, 0), width: 0, height: 0 }),
    {
        WidgetData { position: Position(0, 0), width: 0, height: 0 }
    }
}

/// Empty space kept around a widget, outside its border.
#[derive(Clone, Copy, Debug, PartialEq, Eq, Structural)]
pub struct Margin {
    pub left: usize,
    pub right: usize,
    pub up: usize,
    pub down: usize,
}

impl Margin {
    pub fn default() -> (m: Margin)
        ensures
            m == (Margin { left: 0, right: 0, up: 0, down: 0 }),
    {
        Margin { left: 0, right: 0, up: 0, down: 0 }
    }
}

/// Decoration common to all widgets.
#[derive(Clone, Copy, Debug)]
pub struct Style {
    pub background: Option<Color>,
    /// Border thickness in pixels and its colour.
    pub border: Option<(usize, Color)>,
    pub margin: Margin,
}

impl Style {
    pub fn default() -> (s: Style)
        ensures
            s == (Style { background: None, border: None, margin: Margin { left: 0, right: 0, up: 0, down: 0 } }),
    {
        Style { background: None, border: None, margin: Margin::default() }
    }

    /// Border thickness, zero without a border.
    pub open spec fn thickness(self) -> nat {
        match self.border {
            Some((t, _)) => t as nat,
            None => 0,
        }
    }

    pub fn border_thickness(&self) -> (t: usize)
        ensures
            t == self.thickness(),
    {
        match self.border {
            Some((t, _)) => t,
            None => 0,
        }
    }

    /// Horizontal space the style adds around the content.
    pub open spec fn extra_width(self) -> int {
        2 * self.thickness() + self.margin.left + self.margin.right
    }

    /// Vertical space the style adds around the content.
    pub open spec fn extra_height(self) -> int {
        2 * self.thickness() + self.margin.up + self.margin.down
    }

    /// Where the content of a widget placed at `p` begins: inside margin and border.
    pub open spec fn content_x(self, p: Position) -> int {
        p.0 + self.margin.left + self.thickness()
    }

    pub open spec fn content_y(self, p: Position) -> int {
        p.1 + self.margin.up + self.thickness()
    }
}

/// A widget decorated by a [Style].
pub trait WidgetStyled {
    spec fn style_view(&self) -> Style;

    fn style(&self) -> (s: &Style)
        ensures
            *s == self.style_view(),
    ;
}

/// The widget geometry after the style is wrapped around content of the given size.
pub open spec fn styled(data: WidgetData, style: Style, content_w: int, content_h: int) -> WidgetData {
    WidgetData {
        position: data.position,
        width: (content_w + style.extra_width()) as usize,
        height: (content_h + style.extra_height()) as usize,
    }
}

/// Whether the style wrapped around content of the given size still fits in `usize`.
pub open spec fn styled_fits(style: Style, content_w: int, content_h: int) -> bool {
    &&& content_w + style.extra_width() <= usize::MAX
    &&& content_h + style.extra_height() <= usize::MAX
}

/// Inflates the widget's size by the border on both sides and by the margins.
pub fn apply_style(data: &mut WidgetData, style: &Style) -> (r: Result<(), WidgetError>)
    ensures
        r is Ok <==> styled_fits(*style, old(data).width as int, old(data).height as int),
        r is Ok ==> *final(data) == styled(*old(data), *style, old(data).width as int, old(data).height as int),
        r is Err ==> *final(data) == *old(data) && r == Err::<(), WidgetError>(WidgetError::InvalidBounds),
{
    let t = style.border_thickness();
    let w = checked_add4(data.width, t, t, style.margin.left, style.margin.right);
    let h = checked_add4(data.height, t, t, style.margin.up, style.margin.down);
    match (w, h) {
        (Some(w), Some(h)) => {
            data.width = w;
            data.height = h;
            Ok(())
        },
        _ => Err(WidgetError::InvalidBounds),
    }
}

/// `base + a + b + c + d`, or `None` when the sum does not fit in `usize`.
pub fn checked_add4(base: usize, a: usize, b: usize, c: usize, d: usize) -> (r: Option<usize>)
    ensures
        r is Some <==> base + a + b + c + d <= usize::MAX,
        r matches Some(v) ==> v == base + a + b + c + d,
{
    match base.checked_add(a) {
        Some(x) => match x.checked_add(b) {
            Some(y) => match y.checked_add(c) {
                Some(z) => z.checked_add(d),
                None => None,
            },
            None => None,
        },
        None => None,
    }
}

/// Names of the widget kinds.
#[derive(Clone, Debug)]
pub enum WidgetList {
    Text,
    IconText,
    Clock,
    Battery,
    CPU,
    Keyboard,
    Row,
    Bar,
    Custom(String),
}

impl WidgetList {
    /// The name shown in messages; an icon text is reported as a text.
    pub open spec fn shown(self) -> Seq<char> {
        match self {
            WidgetList::Text => seq!['T', 'e', 'x', 't'],
            WidgetList::IconText => seq!['T', 'e', 'x', 't'],
            WidgetList::Clock => seq!['C', 'l', 'o', 'c', 'k'],
            WidgetList::Battery => seq!['B', 'a', 't', 't', 'e', 'r', 'y'],
            WidgetList::CPU => seq!['C', 'p', 'u'],
            WidgetList::Keyboard => seq!['K', 'e', 'y', 'b', 'o', 'a', 'r', 'd'],
            WidgetList::Row => seq!['R', 'o', 'w'],
            WidgetList::Bar => seq!['B', 'a', 'r'],
            WidgetList::Custom(name) => name@,
        }
    }

    pub fn to_string(&self) -> (s: String)
        ensures
            s@ == self.shown(),
    {
        let s = match self {
            WidgetList::Text => String::from_str("Text"),
            WidgetList::IconText => String::from_str("Text"),
            WidgetList::Clock => String::from_str("Clock"),
            WidgetList::Battery => String::from_str("Battery"),
            WidgetList::CPU => String::from_str("Cpu"),
            WidgetList::Keyboard => String::from_str("Keyboard"),
            WidgetList::Row => String::from_str("Row"),
            WidgetList::Bar => String::from_str("Bar"),
            WidgetList::Custom(name) => name.clone(),
        };
        proof {
            reveal_strlit("Text");
            reveal_strlit("Clock");
            reveal_strlit("Battery");
            reveal_strlit("Cpu");
            reveal_strlit("Keyboard");
            reveal_strlit("Row");
            reveal_strlit("Bar");
        }
        assert(s@ =~= self.shown());
        s
    }
}

/// Names of the background services that publish signals.
#[derive(Clone, Copy, Debug, PartialEq, Eq, Structural)]
pub enum ServiceList {
    Keyboard,
}

#[derive(Debug)]
pub enum WidgetError {
    /// A size or position does not fit in the coordinate type.
    InvalidBounds,
    /// Drawing a widget that was never bound to an environment.
    DrawWithNoEnv(WidgetList),
    /// Initialising a widget that was never bound to an environment.
    InitWithNoEnv(WidgetList),
    /// A widget needs a signal that its service did not create.
    NoCorespondingSignal(WidgetList, ServiceList),
    /// A container could not lay out its children.
    Layout(RowError),
}

/// A widget that a row can hold.
pub enum Widget {
    Text(Text),
    IconText(IconText),
}

impl Widget {
    pub open spec fn view_data(self) -> WidgetData {
        match self {
            Widget::Text(t) => t.view_data(),
            Widget::IconText(t) => t.view_data(),
        }
    }

    pub open spec fn is_bound(self) -> bool {
        match self {
            Widget::Text(t) => t.is_bound(),
            Widget::IconText(t) => t.is_bound(),
        }
    }

    pub open spec fn is_ready(self) -> bool {
        match self {
            Widget::Text(t) => t.is_ready(),
            Widget::IconText(t) => t.is_ready(),
        }
    }

    pub open spec fn wf(self) -> bool {
        match self {
            Widget::Text(t) => true,
            Widget::IconText(t) => t.wf(),
        }
    }

    pub open spec fn prepare_fits(self) -> bool {
        match self {
            Widget::Text(t) => t.prepare_fits(),
            Widget::IconText(t) => t.prepare_fits(),
        }
    }

    pub open spec fn prepared(self) -> Widget {
        match self {
            Widget::Text(t) => Widget::Text(t.prepared()),
            Widget::IconText(t) => Widget::IconText(t.prepared()),
        }
    }

    pub open spec fn placed(self, p: Position) -> Widget {
        match self {
            Widget::Text(t) => Widget::Text(t.placed(p)),
            Widget::IconText(t) => Widget::IconText(t.placed(p)),
        }
    }

    pub open spec fn stale(self) -> Widget {
        match self {
            Widget::Text(t) => Widget::Text(t.stale()),
            Widget::IconText(t) => Widget::IconText(t.stale()),
        }
    }

    /// The glyphs of the widget's text: the whole text, or the text part of an icon text.
    pub open spec fn text_layout(self) -> Seq<GlyphBitmap> {
        match self {
            Widget::Text(t) => t.view_layout(),
            Widget::IconText(t) => t.text().view_layout(),
        }
    }

    /// Whether `draw` succeeds on the widget.
    pub open spec fn draw_ok(self) -> bool {
        match self {
            Widget::Text(t) => t.draw_ok(),
            Widget::IconText(t) => t.draw_ok(),
        }
    }

    pub open spec fn painted_on(self, bytes: Seq<u8>, w: int, h: int) -> Seq<u8> {
        match self {
            Widget::Text(t) => t.painted_on(bytes, w, h),
            Widget::IconText(t) => t.painted_on(bytes, w, h),
        }
    }

    pub fn name(&self) -> (n: WidgetList)
        ensures
            self is Text ==> n is Text,
            self is IconText ==> n is IconText,
    {
        match self {
            Widget::Text(_) => WidgetList::Text,
            Widget::IconText(_) => WidgetList::IconText,
        }
    }

    pub fn data(&self) -> (d: WidgetData)
        ensures
            d == self.view_data(),
    {
        match self {
            Widget::Text(t) => t.data(),
            Widget::IconText(t) => t.data(),
        }
    }

    pub fn bind(&mut self)
        requires
            old(self).wf(),
        ensures
            final(self).wf(),
            final(self).is_bound(),
            final(self).is_ready() == old(self).is_ready(),
            final(self).view_data() == old(self).view_data(),
    {
        match self {
            Widget::Text(t) => t.bind(),
            Widget::IconText(t) => t.bind(),
        }
    }

    pub fn prepare(&mut self) -> (r: Result<(), WidgetError>)
        requires
            old(self).wf(),
        ensures
            final(self).wf(),
            final(self).is_bound() == old(self).is_bound(),
            r is Ok <==> old(self).prepare_fits(),
            r is Ok ==> *final(self) == old(self).prepared(),
            r is Err ==> r matches Err(WidgetError::InvalidBounds),
    {
        match self {
            Widget::Text(t) => {
                proof {
                    t.lemma_placed_prepared(t.view_data().position);
                }
                t.prepare()
            },
            Widget::IconText(t) => t.prepare(),
        }
    }

    pub fn set_position(&mut self, p: Position)
        ensures
            *final(self) == old(self).placed(p),
    {
        match self {
            Widget::Text(t) => t.set_position(p),
            Widget::IconText(t) => t.set_position(p),
        }
    }

    /// Draws the widget where it stands, preparing first when it is stale.
    pub fn draw(&mut self, drawer: &mut Drawer) -> (r: Result<(), WidgetError>)
        requires
            old(self).wf(),
            old(drawer).wf(),
        ensures
            final(self).wf(),
            final(drawer).wf(),
            final(drawer).frame_width() == old(drawer).frame_width(),
            final(drawer).frame_height() == old(drawer).frame_height(),
            final(self).is_bound() == old(self).is_bound(),
            !old(self).is_bound() ==> r matches Err(WidgetError::DrawWithNoEnv(_)),
            r is Ok <==> old(self).draw_ok(),
            !old(self).is_bound() ==> *final(self) == *old(self) && final(drawer).frame() == old(drawer).frame(),
            r is Ok ==> ({
                let t = if old(self).is_ready() {
                    *old(self)
                } else {
                    old(self).prepared()
                };
                &&& *final(self) == t.stale()
                &&& final(drawer).frame() == t.painted_on(
                    old(drawer).frame(),
                    old(drawer).frame_width() as int,
                    old(drawer).frame_height() as int,
                )
            }),
    {
        match self {
            Widget::Text(t) => t.draw(drawer),
            Widget::IconText(t) => t.draw(drawer),
        }
    }

    /// Replaces the text: the whole text of a text widget, the text part of an icon text.
    pub fn change_text(&mut self, layout: TextLayout)
        requires
            old(self).wf(),
        ensures
            final(self).wf(),
            final(self).text_layout() == layout.glyphs@,
            (*final(self) is Text) == (*old(self) is Text),
            *old(self) is IconText ==> final(self)->IconText_0.icon() == old(self)->IconText_0.icon(),
            final(self).is_bound() == old(self).is_bound(),
            final(self).is_ready() == old(self).is_ready(),
            final(self).view_data() == old(self).view_data(),
    {
        match self {
            Widget::Text(t) => t.change_text(layout),
            Widget::IconText(t) => t.change_text(layout),
        }
    }

    /// Replaces the icon of an icon text; a text widget has no icon and stays as it is.
    pub fn change_icon(&mut self, layout: TextLayout)
        requires
            old(self).wf(),
        ensures
            final(self).wf(),
            final(self).is_bound() == old(self).is_bound(),
            final(self).is_ready() == old(self).is_ready(),
            final(self).view_data() == old(self).view_data(),
            *old(self) is Text ==> *final(self) == *old(self),
            *old(self) is IconText ==> *final(self) is IconText
                && final(self)->IconText_0.icon().view_layout() == layout.glyphs@
                && final(self)->IconText_0.text() == old(self)->IconText_0.text(),
    {
        match self {
            Widget::Text(_) => {},
            Widget::IconText(t) => t.change_icon(layout),
        }
    }

    /// What preparing and moving keep and change.
    pub proof fn lemma_prepare_facts(self, p: Position)
        ensures
            self.prepare_fits() ==> self.prepared().prepare_fits() && self.prepared().prepared() == self.prepared(),
            self.placed(p).prepare_fits() == self.prepare_fits(),
            self.placed(p).prepared() == self.prepared().placed(p),
            self.placed(p).placed(p) == self.placed(p),
            self.placed(p).view_data().position == p,
            self.placed(p).view_data().width == self.view_data().width,
            self.placed(p).view_data().height == self.view_data().height,
            self.placed(p).is_bound() == self.is_bound(),
            self.placed(p).is_ready() == self.is_ready(),
            self.placed(p).wf() == self.wf(),
            self.prepared().is_bound() == self.is_bound(),
            self.wf() && self.prepare_fits() ==> self.prepared().is_ready() && self.prepared().wf(),
            self.stale().is_bound() == self.is_bound(),
            self.wf() ==> self.stale().wf(),
    {
        match self {
            Widget::Text(t) => {
                t.lemma_prepare_idempotent_if_fits();
                t.lemma_placed_prepared(p);
                t.prepared().lemma_placed_prepared(p);
            },
            Widget::IconText(t) => {
                t.lemma_facts(p);
            },
        }
    }
}

} // verus!
