use vstd::prelude::*;

use crate::drawer::{draw_style, style_painted, Drawer};
use crate::text::{Text, TextLayout, TextSettings};
use crate::widgets::{WidgetStyled, apply_style, checked_add4, styled, styled_fits, Position, Style, WidgetData, WidgetError, WidgetList};

verus! {

/// Settings of an [IconText] widget.
#[derive(Debug)]
pub struct IconTextSettings {
    pub default_data: WidgetData,
    pub text_settings: TextSettings,
    pub icon_settings: TextSettings,
    pub style: Style,
}

/// An icon followed by a text, side by side.
pub struct IconText {
    data: WidgetData,
    style: Style,
    icon: Text,
    text: Text,
    bound: bool,
    ready: bool,
}

pub open spec fn max(a: int, b: int) -> int {
    if a >= b {
        a
    } else {
        b
    }
}

impl IconText {
    pub closed spec fn view_data(self) -> WidgetData {
        self.data
    }

    pub closed spec fn view_style(self) -> Style {
        self.style
    }

    pub closed spec fn icon(self) -> Text {
        self.icon
    }

    pub closed spec fn text(self) -> Text {
        self.text
    }

    pub closed spec fn is_bound(self) -> bool {
        self.bound
    }

    pub closed spec fn is_ready(self) -> bool {
        self.ready
    }

    /// Both parts are bound whenever the widget is, and prepared whenever it is.
    pub closed spec fn wf(self) -> bool {
        &&& self.bound ==> self.icon.is_bound() && self.text.is_bound()
        &&& self.ready ==> self.icon.is_ready() && self.text.is_ready()
    }

    /// Size of the content: both parts side by side.
    pub open spec fn content_width(self) -> int {
        self.icon().prepared().view_data().width + self.text().prepared().view_data().width
    }

    pub open spec fn content_height(self) -> int {
        max(
            self.icon().prepared().view_data().height as int,
            self.text().prepared().view_data().height as int,
        )
    }

    /// Whether preparing succeeds: both parts prepare and every coordinate fits.
    pub open spec fn prepare_fits(self) -> bool {
        &&& self.icon().prepare_fits()
        &&& self.text().prepare_fits()
        &&& styled_fits(self.view_style(), self.content_width(), self.content_height())
    }

    /// The widget after a successful `prepare`: both parts prepared, the widget as large as
    /// both side by side.
    pub closed spec fn prepared(self) -> IconText {
        IconText {
            icon: self.icon.prepared(),
            text: self.text.prepared(),
            data: styled(self.data, self.style, self.content_width(), self.content_height()),
            ready: true,
            ..self
        }
    }

    /// Where the icon goes: the content's top-left corner.
    pub open spec fn icon_position(self) -> (int, int) {
        let p = self.view_data().position;
        (self.view_style().content_x(p), self.view_style().content_y(p))
    }

    /// Where the text goes: right after the icon.
    pub open spec fn text_position(self) -> (int, int) {
        (self.icon_position().0 + self.icon().view_data().width, self.icon_position().1)
    }

    /// Whether the parts' positions fit in `usize`.
    pub open spec fn arrange_fits(self) -> bool {
        self.text_position().0 <= usize::MAX && self.text_position().1 <= usize::MAX
    }

    /// The widget with its parts moved to where they are drawn.
    pub closed spec fn arranged(self) -> IconText {
        let ip = self.icon_position();
        let tp = self.text_position();
        IconText {
            icon: self.icon.placed(Position(ip.0 as usize, ip.1 as usize)),
            text: self.text.placed(Position(tp.0 as usize, tp.1 as usize)),
            ..self
        }
    }

    pub closed spec fn placed(self, p: Position) -> IconText {
        IconText { data: WidgetData { position: p, ..self.data }, ..self }
    }

    /// The widget after it is drawn: parts arranged and everything marked stale.
    pub closed spec fn stale(self) -> IconText {
        let a = self.arranged();
        IconText { ready: false, icon: a.icon.stale(), text: a.text.stale(), ..a }
    }

    /// The widget as it is drawn: as it stands when prepared, else as `prepare` makes it.
    pub open spec fn drawn(self) -> IconText {
        if self.is_ready() {
            self
        } else {
            self.prepared()
        }
    }

    /// Whether `draw` succeeds: the widget is bound, it is prepared or can be, its parts'
    /// positions fit in `usize`, and both parts can draw there.
    pub open spec fn draw_ok(self) -> bool {
        &&& self.is_bound()
        &&& self.is_ready() || self.prepare_fits()
        &&& self.drawn().arrange_fits()
        &&& self.drawn().arranged().text().draw_ok()
        &&& self.drawn().arranged().icon().draw_ok()
    }

    /// The frame after the widget is drawn where it stands: style, then text, then icon.
    pub open spec fn painted_on(self, bytes: Seq<u8>, w: int, h: int) -> Seq<u8> {
        self.arranged().icon().painted_on(
            self.arranged().text().painted_on(
                style_painted(bytes, w, h, self.view_data(), self.view_style()),
                w,
                h,
            ),
            w,
            h,
        )
    }

    pub fn new(settings: IconTextSettings) -> (it: IconText)
        ensures
            it.wf(),
            !it.is_bound(),
            !it.is_ready(),
            it.view_data() == settings.default_data,
            it.view_style() == settings.style,
    {
        IconText {
            data: settings.default_data,
            style: settings.style,
            icon: Text::new(settings.icon_settings),
            text: Text::new(settings.text_settings),
            bound: false,
            ready: false,
        }
    }

    /// Attaches the widget and both of its parts to the environment.
    pub fn bind(&mut self)
        requires
            old(self).wf(),
        ensures
            final(self).wf(),
            final(self).is_bound(),
            final(self).view_data() == old(self).view_data(),
            final(self).is_ready() == old(self).is_ready(),
    {
        self.icon.bind();
        self.text.bind();
        self.bound = true;
    }

    /// Takes the size of each part's layout; before binding there is nothing to size.
    pub fn init(&mut self) -> (r: Result<(), WidgetError>)
        requires
            old(self).wf(),
        ensures
            final(self).wf(),
            final(self).is_bound() == old(self).is_bound(),
            old(self).is_bound() ==> !final(self).is_ready(),
            final(self).view_data() == old(self).view_data(),
            !old(self).is_bound() ==> (r matches Err(WidgetError::InitWithNoEnv(WidgetList::IconText))) && *final(self) == *old(self),
            old(self).is_bound() ==> (r is Ok <==> old(self).icon().content_width() <= usize::MAX
                && old(self).text().content_width() <= usize::MAX),
    {
        if !self.bound {
            return Err(WidgetError::InitWithNoEnv(WidgetList::IconText));
        }
        self.ready = false;
        let t = self.text.init();
        let i = self.icon.init();
        match (t, i) {
            (Ok(()), Ok(())) => Ok(()),
            _ => Err(WidgetError::InvalidBounds),
        }
    }

    /// Takes the size of both prepared parts side by side and wraps the style around it.
    fn fit_parts(&mut self) -> (r: Result<(), WidgetError>)
        requires
            old(self).wf(),
            old(self).icon().prepare_fits(),
            old(self).text().prepare_fits(),
            old(self).icon() == old(self).icon().prepared(),
            old(self).text() == old(self).text().prepared(),
        ensures
            r is Ok <==> old(self).prepare_fits(),
            r is Ok ==> *final(self) == (IconText { ready: old(self).ready, ..old(self).prepared() }),
            r is Err ==> *final(self) == *old(self) && r matches Err(WidgetError::InvalidBounds),
    {
        let iw = self.icon.data().width;
        let ih = self.icon.data().height;
        let tw = self.text.data().width;
        let th = self.text.data().height;
        let w = match iw.checked_add(tw) {
            Some(w) => w,
            None => return Err(WidgetError::InvalidBounds),
        };
        let mut d = WidgetData { position: self.data.position, width: w, height: if ih >= th { ih } else { th } };
        match apply_style(&mut d, &self.style) {
            Ok(()) => {},
            Err(e) => return Err(e),
        }
        self.data = d;
        Ok(())
    }

    /// Moves the parts to where they are drawn: the icon at the content's top-left corner,
    /// the text right after it.
    fn arrange(&mut self) -> (r: Result<(), WidgetError>)
        ensures
            r is Ok <==> old(self).arrange_fits(),
            r is Ok ==> *final(self) == old(self).arranged(),
            r is Err ==> *final(self) == *old(self),
    {
        let b = self.style.border_thickness();
        let x = checked_add4(self.data.position.0, self.style.margin.left, b, 0, 0);
        let y = checked_add4(self.data.position.1, self.style.margin.up, b, 0, 0);
        match (x, y) {
            (Some(x), Some(y)) => match x.checked_add(self.icon.data().width) {
                Some(tx) => {
                    self.icon.set_position(Position(x, y));
                    self.text.set_position(Position(tx, y));
                    Ok(())
                },
                None => Err(WidgetError::InvalidBounds),
            },
            _ => Err(WidgetError::InvalidBounds),
        }
    }

    /// Prepares both parts, places them and wraps the style around them.
    pub fn prepare(&mut self) -> (r: Result<(), WidgetError>)
        requires
            old(self).wf(),
        ensures
            final(self).wf(),
            r is Ok <==> old(self).prepare_fits(),
            r is Ok ==> *final(self) == old(self).prepared(),
            r is Err ==> r matches Err(WidgetError::InvalidBounds),
            final(self).is_bound() == old(self).is_bound(),
            final(self).view_data().position == old(self).view_data().position,
    {
        let ghost start = *self;
        proof {
            start.icon.lemma_prepare_idempotent_if_fits();
            start.text.lemma_prepare_idempotent_if_fits();
            start.icon.lemma_placed_prepared(start.data.position);
            start.text.lemma_placed_prepared(start.data.position);
        }
        self.text.prepare()?;
        self.icon.prepare()?;
        self.fit_parts()?;
        self.ready = true;
        Ok(())
    }

    /// Draws the style, then the text, then the icon, preparing first when stale; leaves
    /// the widget stale.
    pub fn draw(&mut self, drawer: &mut Drawer) -> (r: Result<(), WidgetError>)
        requires
            old(self).wf(),
            old(drawer).wf(),
        ensures
            final(self).wf(),
            final(drawer).wf(),
            final(drawer).frame_width() == old(drawer).frame_width(),
            final(drawer).frame_height() == old(drawer).frame_height(),
            final(self).is_bound() == old(self).is_bound(),
            !old(self).is_bound() ==> r matches Err(WidgetError::DrawWithNoEnv(WidgetList::IconText)),
            !old(self).is_bound() ==> *final(self) == *old(self) && final(drawer).frame() == old(drawer).frame(),
            r is Ok <==> old(self).draw_ok(),
            r is Ok ==> ({
                let t = if old(self).is_ready() {
                    *old(self)
                } else {
                    old(self).prepared()
                };
                &&& *final(self) == t.stale()
                &&& final(drawer).frame() == t.painted_on(
                    old(drawer).frame(),
                    old(drawer).frame_width() as int,
                    old(drawer).frame_height() as int,
                )
            }),
    {
        if !self.bound {
            return Err(WidgetError::DrawWithNoEnv(WidgetList::IconText));
        }
        if !self.ready {
            self.prepare()?;
        }
        let ghost t = *self;
        proof {
            let ip = t.icon_position();
            let tp = t.text_position();
            t.icon.lemma_placed_prepared(Position(ip.0 as usize, ip.1 as usize));
            t.text.lemma_placed_prepared(Position(tp.0 as usize, tp.1 as usize));
        }
        self.arrange()?;
        self.ready = false;
        draw_style(drawer, &self.data, &self.style);
        let ghost w = drawer.frame_width() as int;
        let ghost h = drawer.frame_height() as int;
        self.text.draw(drawer)?;
        self.icon.draw(drawer)?;
        Ok(())
    }

    pub fn change_text(&mut self, layout: TextLayout)
        requires
            old(self).wf(),
        ensures
            final(self).wf(),
            final(self).text().view_layout() == layout.glyphs@,
            final(self).icon() == old(self).icon(),
            final(self).view_data() == old(self).view_data(),
            final(self).is_bound() == old(self).is_bound(),
            final(self).is_ready() == old(self).is_ready(),
    {
        self.text.change_text(layout);
    }

    pub fn change_icon(&mut self, layout: TextLayout)
        requires
            old(self).wf(),
        ensures
            final(self).wf(),
            final(self).icon().view_layout() == layout.glyphs@,
            final(self).text() == old(self).text(),
            final(self).view_data() == old(self).view_data(),
            final(self).is_bound() == old(self).is_bound(),
            final(self).is_ready() == old(self).is_ready(),
    {
        self.icon.change_text(layout);
    }

    pub fn data(&self) -> (d: WidgetData)
        ensures
            d == self.view_data(),
    {
        self.data
    }

    pub fn set_position(&mut self, p: Position)
        ensures
            *final(self) == old(self).placed(p),
    {
        self.data.position = p;
    }


    /// Preparing twice in a row gives the same widget as preparing once.
    pub proof fn lemma_prepare_idempotent(self)
        requires
            self.prepare_fits(),
        ensures
            self.prepared().prepare_fits(),
            self.prepared().prepared() == self.prepared(),
    {
        self.icon.lemma_prepare_idempotent();
        self.text.lemma_prepare_idempotent();
    }

    /// What preparing, moving and marking stale keep and change.
    pub proof fn lemma_facts(self, p: Position)
        ensures
            self.prepare_fits() ==> self.prepared().prepare_fits() && self.prepared().prepared() == self.prepared(),
            self.placed(p).prepare_fits() == self.prepare_fits(),
            self.placed(p).prepared() == self.prepared().placed(p),
            self.placed(p).placed(p) == self.placed(p),
            self.placed(p).view_data() == (WidgetData { position: p, ..self.view_data() }),
            self.placed(p).is_bound() == self.is_bound(),
            self.placed(p).is_ready() == self.is_ready(),
            self.placed(p).wf() == self.wf(),
            self.prepared().is_bound() == self.is_bound(),
            self.wf() && self.prepare_fits() ==> self.prepared().is_ready() && self.prepared().wf(),
            self.stale().is_bound() == self.is_bound(),
            self.wf() ==> self.stale().wf(),
    {
        if self.prepare_fits() {
            self.lemma_prepare_idempotent();
        }
        self.icon.lemma_prepare_idempotent_if_fits();
        self.text.lemma_prepare_idempotent_if_fits();
        let a = self.arranged();
        let ip = self.icon_position();
        let tp = self.text_position();
        self.icon.lemma_placed_prepared(Position(ip.0 as usize, ip.1 as usize));
        self.text.lemma_placed_prepared(Position(tp.0 as usize, tp.1 as usize));
        a.icon.lemma_placed_prepared(p);
        a.text.lemma_placed_prepared(p);
    }
}

impl WidgetStyled for IconText {
    open spec fn style_view(&self) -> Style {
        self.view_style()
    }

    fn style(&self) -> (s: &Style) {
        &self.style
    }
}

} // verus!
