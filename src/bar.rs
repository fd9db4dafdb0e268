use vstd::prelude::*;

use crate::drawer::{draw_style, style_painted, Drawer};
use crate::icon_text::max;
use crate::row::{anchored, lemma_reprepare_keeps_size, row_painted, row_prepared, Alignment, Row, RowError, RowSettings};
use crate::widgets::{Position, Style, Widget, WidgetData, WidgetError, WidgetList};

verus! {

/// Settings of a [Bar].
#[derive(Clone, Copy, Debug)]
pub struct BarSettings {
    pub default_data: WidgetData,
    /// Padding between the children of the left, centre and right rows.
    pub padding: (usize, usize, usize),
    pub left_settings: RowSettings,
    pub center_settings: RowSettings,
    pub right_settings: RowSettings,
    pub style: Style,
}

impl BarSettings {
    pub fn default() -> (s: BarSettings)
        ensures
            s.default_data == (WidgetData { position: Position(0, 0), width: 0, height: 0 }),
            s.padding == (10usize, 10usize, 10usize),
            s.style.border is None,
            s.style.background is None,
    {
        BarSettings {
            default_data: WidgetData::default(),
            padding: (10, 10, 10),
            left_settings: RowSettings::default(),
            center_settings: RowSettings::default(),
            right_settings: RowSettings::default(),
            style: Style::default(),
        }
    }
}

/// The top-level container: a row growing rightward from the left edge, a row centred in
/// the bar, and a row growing leftward from the right edge.
pub struct Bar {
    settings: BarSettings,
    data: WidgetData,
    left: Row,
    center: Row,
    right: Row,
    bound: bool,
}

impl Bar {
    pub closed spec fn view_data(self) -> WidgetData {
        self.data
    }

    pub closed spec fn view_style(self) -> Style {
        self.settings.style
    }

    pub closed spec fn left_row(self) -> Row {
        self.left
    }

    pub closed spec fn center_row(self) -> Row {
        self.center
    }

    pub closed spec fn right_row(self) -> Row {
        self.right
    }

    pub closed spec fn is_bound(self) -> bool {
        self.bound
    }

    pub closed spec fn wf(self) -> bool {
        &&& self.left.wf()
        &&& self.center.wf()
        &&& self.right.wf()
        &&& self.bound ==> self.left.is_bound() && self.center.is_bound() && self.right.is_bound()
    }

    /// Anchor of a row of the bar: the bar's position moved by `dx` and by the border down.
    pub open spec fn anchor(self, dx: int) -> Position {
        Position(
            (self.view_data().position.0 + dx) as usize,
            (self.view_data().position.1 + self.view_style().thickness()) as usize,
        )
    }

    pub fn new(settings: BarSettings) -> (b: Bar)
        ensures
            b.wf(),
            !b.is_bound(),
            b.view_data() == settings.default_data,
            b.left_row().view_settings().alignment == Alignment::GrowthHorizontalRight(settings.padding.0),
            b.center_row().view_settings().alignment == Alignment::GrowthCenteringHorizontalRight(settings.padding.1),
            b.right_row().view_settings().alignment == Alignment::GrowthHorizontalLeft(settings.padding.2),
            b.view_style() == settings.style,
            b.left_row().view_settings() == (RowSettings { alignment: Alignment::GrowthHorizontalRight(settings.padding.0), ..settings.left_settings }),
            b.center_row().view_settings() == (RowSettings { alignment: Alignment::GrowthCenteringHorizontalRight(settings.padding.1), ..settings.center_settings }),
            b.right_row().view_settings() == (RowSettings { alignment: Alignment::GrowthHorizontalLeft(settings.padding.2), ..settings.right_settings }),
            b.left_row().children().len() == 0,
            b.center_row().children().len() == 0,
            b.right_row().children().len() == 0,
            !b.left_row().is_bound() && !b.center_row().is_bound() && !b.right_row().is_bound(),
    {
        let left = Row::new(RowSettings { alignment: Alignment::GrowthHorizontalRight(settings.padding.0), ..settings.left_settings });
        let center = Row::new(RowSettings { alignment: Alignment::GrowthCenteringHorizontalRight(settings.padding.1), ..settings.center_settings });
        let right = Row::new(RowSettings { alignment: Alignment::GrowthHorizontalLeft(settings.padding.2), ..settings.right_settings });
        Bar { data: settings.default_data, settings, left, center, right, bound: false }
    }

    /// Attaches the bar and everything in it to the environment.
    pub fn bind(&mut self)
        requires
            old(self).wf(),
        ensures
            final(self).wf(),
            final(self).is_bound(),
            final(self).view_data() == old(self).view_data(),
    {
        self.left.bind();
        self.center.bind();
        self.right.bind();
        self.bound = true;
    }

    /// Sets the bar's width, as negotiated with the output.
    pub fn set_width(&mut self, width: usize)
        requires
            old(self).wf(),
        ensures
            final(self).wf(),
            final(self).view_data() == (WidgetData { width, ..old(self).view_data() }),
            final(self).is_bound() == old(self).is_bound(),
    {
        self.data.width = width;
    }

    pub fn add_left(&mut self, widget: Widget)
        requires
            old(self).wf(),
            widget.wf(),
        ensures
            final(self).wf(),
            final(self).is_bound() == old(self).is_bound(),
            final(self).left_row().children().len() == old(self).left_row().children().len() + 1,
    {
        self.left.add_widget(widget);
    }

    pub fn add_center(&mut self, widget: Widget)
        requires
            old(self).wf(),
            widget.wf(),
        ensures
            final(self).wf(),
            final(self).is_bound() == old(self).is_bound(),
            final(self).center_row().children().len() == old(self).center_row().children().len() + 1,
    {
        self.center.add_widget(widget);
    }

    pub fn add_right(&mut self, widget: Widget)
        requires
            old(self).wf(),
            widget.wf(),
        ensures
            final(self).wf(),
            final(self).is_bound() == old(self).is_bound(),
            final(self).right_row().children().len() == old(self).right_row().children().len() + 1,
    {
        self.right.add_widget(widget);
    }

    pub fn left(&mut self) -> (r: &mut Row)
        ensures
            *r == old(self).left_row(),
            final(self).left_row() == *final(r),
            final(self).center_row() == old(self).center_row(),
            final(self).right_row() == old(self).right_row(),
            final(self).view_data() == old(self).view_data(),
            final(self).is_bound() == old(self).is_bound(),
    {
        &mut self.left
    }

    pub fn center(&mut self) -> (r: &mut Row)
        ensures
            *r == old(self).center_row(),
            final(self).center_row() == *final(r),
            final(self).left_row() == old(self).left_row(),
            final(self).right_row() == old(self).right_row(),
            final(self).view_data() == old(self).view_data(),
            final(self).is_bound() == old(self).is_bound(),
    {
        &mut self.center
    }

    pub fn right(&mut self) -> (r: &mut Row)
        ensures
            *r == old(self).right_row(),
            final(self).right_row() == *final(r),
            final(self).left_row() == old(self).left_row(),
            final(self).center_row() == old(self).center_row(),
            final(self).view_data() == old(self).view_data(),
            final(self).is_bound() == old(self).is_bound(),
    {
        &mut self.right
    }

    pub open spec fn left_anchor(self) -> Position {
        self.anchor(self.view_style().thickness() as int)
    }

    pub open spec fn right_anchor(self) -> Position {
        self.anchor(self.view_data().width - self.view_style().thickness())
    }

    /// The centre row prepared where it stands, which fixes its width.
    pub open spec fn center_first(self) -> Result<(Seq<Widget>, WidgetData), WidgetError> {
        row_prepared(self.center_row().view_settings(), self.center_row().children())
    }

    /// Anchor that centres the centre row in the bar.
    pub open spec fn center_anchor(self) -> Position {
        self.anchor((self.view_data().width - self.center_first()->Ok_0.1.width) / 2)
    }

    pub open spec fn left_result(self) -> Result<(Seq<Widget>, WidgetData), WidgetError> {
        row_prepared(anchored(self.left_row().view_settings(), self.left_anchor()), self.left_row().children())
    }

    pub open spec fn right_result(self) -> Result<(Seq<Widget>, WidgetData), WidgetError> {
        row_prepared(anchored(self.right_row().view_settings(), self.right_anchor()), self.right_row().children())
    }

    /// The centre row prepared again at its centring anchor.
    pub open spec fn center_result(self) -> Result<(Seq<Widget>, WidgetData), WidgetError> {
        row_prepared(anchored(self.center_row().view_settings(), self.center_anchor()), self.center_first()->Ok_0.0)
    }

    /// Height of the prepared bar: its tallest row and the border on both sides.
    pub open spec fn prepared_height(self) -> int {
        max(
            max(self.left_result()->Ok_0.1.height as int, self.center_result()->Ok_0.1.height as int),
            self.right_result()->Ok_0.1.height as int,
        ) + 2 * self.view_style().thickness()
    }

    /// Whether `prepare` succeeds: the border fits in the bar, every anchor and the bar's
    /// height fit in `usize`, each row lays out at its anchor, and the centre row is no
    /// wider than the bar.
    pub open spec fn prepare_ok(self) -> bool {
        let t = self.view_style().thickness() as int;
        let x = self.view_data().position.0 as int;
        let w = self.view_data().width as int;
        &&& self.view_data().position.1 + t <= usize::MAX
        &&& x + t <= usize::MAX
        &&& t <= w
        &&& x + w - t <= usize::MAX
        &&& self.left_result() is Ok
        &&& self.right_result() is Ok
        &&& self.center_first() is Ok
        &&& self.center_first()->Ok_0.1.width <= w
        &&& x + (w - self.center_first()->Ok_0.1.width) / 2 <= usize::MAX
        &&& self.center_result() is Ok
        &&& self.prepared_height() <= usize::MAX
    }

    /// `after` is this bar after a successful `prepare`.
    pub open spec fn prepared_as(self, after: Bar) -> bool {
        &&& after.view_data() == (WidgetData { height: self.prepared_height() as usize, ..self.view_data() })
        &&& after.view_style() == self.view_style()
        &&& after.is_bound() == self.is_bound()
        &&& after.left_row().view_settings() == anchored(self.left_row().view_settings(), self.left_anchor())
        &&& after.right_row().view_settings() == anchored(self.right_row().view_settings(), self.right_anchor())
        &&& after.center_row().view_settings() == anchored(self.center_row().view_settings(), self.center_anchor())
        &&& after.left_row().children() == self.left_result()->Ok_0.0
        &&& after.left_row().view_data() == self.left_result()->Ok_0.1
        &&& after.right_row().children() == self.right_result()->Ok_0.0
        &&& after.right_row().view_data() == self.right_result()->Ok_0.1
        &&& after.center_row().children() == self.center_result()->Ok_0.0
        &&& after.center_row().view_data() == self.center_result()->Ok_0.1
        &&& after.center_row().view_data().width == self.center_first()->Ok_0.1.width
        &&& after.left_row().is_ready() && after.center_row().is_ready() && after.right_row().is_ready()
    }

    /// Lays the three rows out: the left row anchored at the bar's left edge inside the
    /// border, the right row at the right edge inside the border, the centre row centred;
    /// the bar is as tall as its tallest row plus the border on both sides.
    pub fn prepare(&mut self) -> (r: Result<(), WidgetError>)
        requires
            old(self).wf(),
        ensures
            final(self).wf(),
            final(self).is_bound() == old(self).is_bound(),
            final(self).view_data().position == old(self).view_data().position,
            final(self).view_data().width == old(self).view_data().width,
            final(self).view_style() == old(self).view_style(),
            r is Ok <==> old(self).prepare_ok(),
            r is Ok ==> old(self).prepared_as(*final(self)),
    {
        let ghost b0 = *self;
        let t = self.settings.style.border_thickness();
        let x = self.data.position.0;
        let y = match self.data.position.1.checked_add(t) {
            Some(y) => y,
            None => return Err(WidgetError::InvalidBounds),
        };
        let w = self.data.width;
        let lx = match x.checked_add(t) {
            Some(v) => v,
            None => return Err(WidgetError::InvalidBounds),
        };
        if t > w {
            return Err(WidgetError::Layout(RowError::WidthOverflow));
        }
        let rx = match x.checked_add(w - t) {
            Some(v) => v,
            None => return Err(WidgetError::InvalidBounds),
        };
        assert(Position(lx, y) == b0.left_anchor());
        assert(Position(rx, y) == b0.right_anchor());
        self.left.set_anchor(Position(lx, y));
        self.left.prepare()?;
        self.right.set_anchor(Position(rx, y));
        self.right.prepare()?;
        let ghost c0 = self.center;
        self.center.prepare()?;
        let cw = self.center.data().width;
        if cw > w {
            return Err(WidgetError::Layout(RowError::WidthOverflow));
        }
        let cx = match x.checked_add((w - cw) / 2) {
            Some(v) => v,
            None => return Err(WidgetError::InvalidBounds),
        };
        assert(Position(cx, y) == b0.center_anchor());
        self.center.set_anchor(Position(cx, y));
        self.center.prepare()?;
        proof {
            assert(self.center.view_settings() == anchored(c0.view_settings(), Position(cx, y)));
            lemma_reprepare_keeps_size(c0.view_settings(), Position(cx, y), c0.children());
        }
        let lh = self.left.data().height;
        let ch = self.center.data().height;
        let rh = self.right.data().height;
        let tallest = if lh >= ch { lh } else { ch };
        let tallest = if tallest >= rh { tallest } else { rh };
        let h = match tallest.checked_add(t) {
            Some(v) => match v.checked_add(t) {
                Some(h) => h,
                None => return Err(WidgetError::InvalidBounds),
            },
            None => return Err(WidgetError::InvalidBounds),
        };
        self.data.height = h;
        Ok(())
    }

    /// Whether `draw` succeeds: the bar is bound, it prepares, and every child of its
    /// prepared rows can draw.
    pub open spec fn draw_ok(self) -> bool {
        &&& self.is_bound()
        &&& self.prepare_ok()
        &&& forall|i: int| 0 <= i < self.left_result()->Ok_0.0.len() ==> (#[trigger] self.left_result()->Ok_0.0[i]).draw_ok()
        &&& forall|i: int| 0 <= i < self.center_result()->Ok_0.0.len() ==> (#[trigger] self.center_result()->Ok_0.0[i]).draw_ok()
        &&& forall|i: int| 0 <= i < self.right_result()->Ok_0.0.len() ==> (#[trigger] self.right_result()->Ok_0.0[i]).draw_ok()
    }

    /// The frame after the prepared bar is drawn: its style, then the left, centre and right
    /// rows.
    pub open spec fn painted_on(self, bytes: Seq<u8>, w: int, h: int) -> Seq<u8> {
        let d = WidgetData { height: self.prepared_height() as usize, ..self.view_data() };
        row_painted(
            row_painted(
                row_painted(
                    style_painted(bytes, w, h, d, self.view_style()),
                    w,
                    h,
                    anchored(self.left_row().view_settings(), self.left_anchor()).style,
                    self.left_result()->Ok_0.1,
                    self.left_result()->Ok_0.0,
                ),
                w,
                h,
                self.center_row().view_settings().style,
                self.center_result()->Ok_0.1,
                self.center_result()->Ok_0.0,
            ),
            w,
            h,
            self.right_row().view_settings().style,
            self.right_result()->Ok_0.1,
            self.right_result()->Ok_0.0,
        )
    }

    /// Lays the bar out, then draws its style and the left, centre and right rows.
    pub fn draw(&mut self, drawer: &mut Drawer) -> (r: Result<(), WidgetError>)
        requires
            old(self).wf(),
            old(drawer).wf(),
        ensures
            final(self).wf(),
            final(drawer).wf(),
            final(drawer).frame_width() == old(drawer).frame_width(),
            final(drawer).frame_height() == old(drawer).frame_height(),
            final(self).is_bound() == old(self).is_bound(),
            !old(self).is_bound() ==> r matches Err(WidgetError::DrawWithNoEnv(WidgetList::Bar)),
            !old(self).is_bound() ==> final(drawer).frame() == old(drawer).frame() && *final(self) == *old(self),
            r is Ok <==> old(self).draw_ok(),
            r is Ok ==> final(drawer).frame() == old(self).painted_on(
                old(drawer).frame(),
                old(drawer).frame_width() as int,
                old(drawer).frame_height() as int,
            ),
            r is Ok ==> {
                &&& final(self).view_data() == (WidgetData { height: old(self).prepared_height() as usize, ..old(self).view_data() })
                &&& final(self).left_row().view_settings().default_data.position == old(self).left_anchor()
                &&& final(self).right_row().view_settings().default_data.position == old(self).right_anchor()
                &&& final(self).center_row().view_settings().default_data.position == old(self).center_anchor()
                &&& !final(self).left_row().is_ready()
                &&& !final(self).center_row().is_ready()
                &&& !final(self).right_row().is_ready()
            },
    {
        if !self.bound {
            return Err(WidgetError::DrawWithNoEnv(WidgetList::Bar));
        }
        self.prepare()?;
        draw_style(drawer, &self.data, &self.settings.style);
        self.left.draw(drawer)?;
        self.center.draw(drawer)?;
        self.right.draw(drawer)?;
        Ok(())
    }

    /// First layout after binding: prepares the bar; before binding there is nothing to lay
    /// out for.
    pub fn init(&mut self) -> (r: Result<(), WidgetError>)
        requires
            old(self).wf(),
        ensures
            final(self).wf(),
            final(self).is_bound() == old(self).is_bound(),
            !old(self).is_bound() ==> r matches Err(WidgetError::InitWithNoEnv(WidgetList::Bar)),
            !old(self).is_bound() ==> *final(self) == *old(self),
            old(self).is_bound() ==> (r is Ok <==> old(self).prepare_ok()),
            r is Ok ==> old(self).prepared_as(*final(self)),
    {
        if !self.bound {
            return Err(WidgetError::InitWithNoEnv(WidgetList::Bar));
        }
        self.prepare()
    }

    pub fn data(&self) -> (d: WidgetData)
        ensures
            d == self.view_data(),
    {
        self.data
    }
}

} // verus!
