use capybar::bar::{Bar, BarSettings};
use capybar::color::Color;
use capybar::drawer::{draw_style, Drawer, GlyphBitmap};
use capybar::icon_text::{IconText, IconTextSettings};
use capybar::row::{align_widgets, Alignment, Row, RowError, RowSettings};
use capybar::text::{Text, TextLayout, TextSettings};
use capybar::widgets::{apply_style, Margin, Position, Style, Widget, WidgetData, WidgetError, WidgetList};

fn block(width: usize, height: usize) -> WidgetData {
    WidgetData { position: Position(0, 0), width, height }
}

fn settings(alignment: Alignment, width: usize) -> RowSettings {
    RowSettings {
        alignment,
        default_data: WidgetData { position: Position(0, 0), width, height: 0 },
        style: Style::default(),
    }
}

fn glyph_layout(width: usize, height: usize) -> TextLayout {
    TextLayout {
        text: String::from("x"),
        glyphs: vec![GlyphBitmap {
            x: 0,
            y: 0,
            width,
            height,
            coverage: vec![255; width * height],
            is_whitespace: false,
        }],
        height,
    }
}

fn text_of(width: usize, height: usize) -> Text {
    let mut t = Text::new(TextSettings { font_color: Color::from_rgba(255, 0, 0, 255), ..TextSettings::default() });
    t.change_text(glyph_layout(width, height));
    t
}

#[test]
fn single_child_is_centred() {
    let layout = align_widgets(&settings(Alignment::CenteringHorizontal, 300), &vec![block(100, 20)]).unwrap();
    assert_eq!(layout.positions[0].0, 100);
    assert_eq!(layout.data.width, 300);
}

#[test]
fn centred_children_are_spread_evenly() {
    let kids = vec![block(50, 10), block(50, 12), block(50, 8)];
    let layout = align_widgets(&settings(Alignment::CenteringHorizontal, 300), &kids).unwrap();
    let xs: Vec<usize> = layout.positions.iter().map(|p| p.0).collect();
    assert_eq!(xs, vec![0, 125, 250]);
    assert_eq!(layout.data.height, 12);
}

#[test]
fn growth_right_width_is_children_plus_padding() {
    let kids = vec![block(50, 10), block(70, 20)];
    let layout = align_widgets(&settings(Alignment::GrowthHorizontalRight(10), 0), &kids).unwrap();
    assert_eq!(layout.data.width, 130);
    assert_eq!(layout.data.height, 20);
    assert_eq!(layout.positions[0].0, 0);
    assert_eq!(layout.positions[1].0, 60);
}

#[test]
fn growth_right_counts_border_and_margin() {
    let mut st = settings(Alignment::GrowthHorizontalRight(10), 0);
    st.style.border = Some((2, Color::from_rgba(0, 0, 0, 255)));
    st.style.margin = Margin { left: 3, right: 4, up: 1, down: 0 };
    st.default_data.position = Position(5, 0);
    let layout = align_widgets(&st, &vec![block(50, 10), block(70, 20)]).unwrap();
    assert_eq!(layout.data.width, 130 + 4 + 3 + 4);
    assert_eq!(layout.data.height, 20 + 4 + 1);
    assert_eq!(layout.positions[0], Position(5 + 3 + 2, 1 + 2));
    assert_eq!(layout.positions[1], Position(5 + 3 + 2 + 60, 1 + 2));
}

#[test]
fn growth_left_ends_at_anchor() {
    let mut st = settings(Alignment::GrowthHorizontalLeft(10), 0);
    st.default_data.position = Position(500, 0);
    let layout = align_widgets(&st, &vec![block(50, 10), block(70, 20)]).unwrap();
    assert_eq!(layout.data.position, Position(370, 0));
    assert_eq!(layout.data.width, 130);
    assert_eq!(layout.positions[0].0, 450);
    assert_eq!(layout.positions[1].0, 370);
}

#[test]
fn growth_left_without_room_overflows() {
    let mut st = settings(Alignment::GrowthHorizontalLeft(10), 0);
    st.default_data.position = Position(100, 0);
    let r = align_widgets(&st, &vec![block(50, 10), block(70, 20)]);
    assert!(matches!(r, Err(RowError::WidthOverflow)));
}

#[test]
fn growth_centering_fits_row_to_children() {
    let layout = align_widgets(&settings(Alignment::GrowthCenteringHorizontalRight(10), 0), &vec![block(50, 10), block(70, 20)]).unwrap();
    assert_eq!(layout.data.width, 130);
    assert_eq!(layout.positions[1].0, 60);
}

#[test]
fn centering_overflow_is_an_error() {
    let r = align_widgets(&settings(Alignment::CenteringHorizontal, 100), &vec![block(60, 10), block(50, 10)]);
    assert!(matches!(r, Err(RowError::WidthOverflow)));
    let mut st = settings(Alignment::CenteringHorizontal, 120);
    st.style.border = Some((10, Color::from_rgba(0, 0, 0, 255)));
    let r = align_widgets(&st, &vec![block(60, 10), block(50, 10)]);
    assert!(matches!(r, Err(RowError::WidthOverflow)));
}

#[test]
fn huge_sizes_are_rejected() {
    let r = align_widgets(&settings(Alignment::GrowthHorizontalRight(10), 0), &vec![block(usize::MAX, 1), block(1, 1)]);
    assert!(matches!(r, Err(RowError::TooLarge)));
}

#[test]
fn empty_row_height() {
    let layout = align_widgets(&settings(Alignment::CenteringHorizontal, 40), &vec![]).unwrap();
    assert!(layout.positions.is_empty());
    assert_eq!(layout.data.height, 0);
    assert_eq!(layout.data.width, 40);
    let mut st = settings(Alignment::GrowthHorizontalRight(10), 7);
    st.style.border = Some((2, Color::from_rgba(0, 0, 0, 255)));
    st.style.margin = Margin { left: 3, right: 3, up: 3, down: 3 };
    st.default_data.position = Position(4, 5);
    let layout = align_widgets(&st, &vec![]).unwrap();
    assert_eq!(layout.data, WidgetData { position: Position(4, 5), width: 7, height: 6 });
}

#[test]
fn growth_centering_left_ends_at_anchor() {
    let mut st = settings(Alignment::GrowthCenteringHorizontalLeft(10), 0);
    st.default_data.position = Position(500, 0);
    let layout = align_widgets(&st, &vec![block(50, 10), block(70, 20)]).unwrap();
    assert_eq!(layout.data.position, Position(370, 0));
    assert_eq!(layout.data.width, 130);
    assert_eq!(layout.positions[0].0, 370);
    assert_eq!(layout.positions[1].0, 430);
    st.default_data.position = Position(100, 0);
    let r = align_widgets(&st, &vec![block(50, 10), block(70, 20)]);
    assert!(matches!(r, Err(RowError::WidthOverflow)));
}

#[test]
fn style_stays_inside_margin() {
    let mut drawer = Drawer::new(6, 6);
    let data = WidgetData { position: Position(0, 0), width: 6, height: 6 };
    let style = Style {
        background: Some(Color::from_rgba(0, 0, 255, 255)),
        border: Some((1, Color::from_rgba(255, 0, 0, 255))),
        margin: Margin { left: 1, right: 1, up: 1, down: 1 },
    };
    draw_style(&mut drawer, &data, &style);
    let px = |x: usize, y: usize| drawer.pixels()[(y * 6 + x) * 4..(y * 6 + x) * 4 + 4].to_vec();
    assert_eq!(px(0, 0), vec![0, 0, 0, 0]);
    assert_eq!(px(5, 3), vec![0, 0, 0, 0]);
    assert_eq!(px(1, 1), vec![0, 0, 255, 255]);
    assert_eq!(px(4, 4), vec![0, 0, 255, 255]);
    assert_eq!(px(2, 2), vec![255, 0, 0, 255]);
    assert_eq!(px(3, 3), vec![255, 0, 0, 255]);
}

#[test]
fn vertical_alignment_is_unsupported() {
    let r = align_widgets(&settings(Alignment::GrowthVerticalUp(3), 0), &vec![block(5, 5)]);
    assert!(matches!(r, Err(RowError::Unsupported)));
}

#[test]
fn apply_style_inflates_by_border_and_margin() {
    let mut d = block(10, 20);
    let style = Style {
        background: None,
        border: Some((2, Color::from_rgba(0, 0, 0, 255))),
        margin: Margin { left: 1, right: 2, up: 3, down: 4 },
    };
    apply_style(&mut d, &style).unwrap();
    assert_eq!((d.width, d.height), (10 + 4 + 3, 20 + 4 + 7));
    let mut big = block(usize::MAX, 0);
    assert!(matches!(apply_style(&mut big, &style), Err(WidgetError::InvalidBounds)));
    assert_eq!(big.width, usize::MAX);
}

#[test]
fn row_prepare_is_idempotent() {
    let mut row = Row::new(settings(Alignment::GrowthHorizontalRight(10), 0));
    row.add_widget(Widget::Text(text_of(50, 10)));
    row.add_widget(Widget::Text(text_of(70, 20)));
    row.bind();
    row.prepare().unwrap();
    let first = row.data();
    row.prepare().unwrap();
    assert_eq!(row.data(), first);
    assert_eq!(first.width, 130);
    assert_eq!(first.height, 20);
}

#[test]
fn text_prepare_is_idempotent() {
    let mut t = text_of(30, 12);
    t.bind();
    t.prepare().unwrap();
    let first = t.data();
    t.prepare().unwrap();
    assert_eq!(t.data(), first);
    assert_eq!((first.width, first.height), (30, 12));
}

#[test]
fn draw_before_bind_reports_missing_environment() {
    let mut drawer = Drawer::new(8, 8);
    let mut t = text_of(3, 3);
    assert!(matches!(t.draw(&mut drawer), Err(WidgetError::DrawWithNoEnv(WidgetList::Text))));
    let mut it = IconText::new(IconTextSettings {
        default_data: WidgetData::default(),
        text_settings: TextSettings::default(),
        icon_settings: TextSettings::default(),
        style: Style::default(),
    });
    assert!(matches!(it.draw(&mut drawer), Err(WidgetError::DrawWithNoEnv(WidgetList::IconText))));
    let mut row = Row::new(RowSettings::default());
    assert!(matches!(row.draw(&mut drawer), Err(WidgetError::DrawWithNoEnv(WidgetList::Row))));
    let mut bar = Bar::new(BarSettings::default());
    assert!(matches!(bar.draw(&mut drawer), Err(WidgetError::DrawWithNoEnv(WidgetList::Bar))));
    assert!(drawer.pixels().iter().all(|b| *b == 0));
    assert!(matches!(t.init(), Err(WidgetError::InitWithNoEnv(WidgetList::Text))));
}

#[test]
fn draw_pixel_blends_and_clips() {
    let mut drawer = Drawer::new(4, 3);
    let at = WidgetData { position: Position(1, 1), width: 0, height: 0 };
    drawer.draw_pixel(&at, (1, 0), Color::from_rgba(255, 0, 0, 255));
    let i = (1 * 4 + 2) * 4;
    assert_eq!(&drawer.pixels()[i..i + 4], &[0, 0, 255, 255]);
    drawer.draw_pixel(&at, (1, 0), Color::from_rgba(0, 0, 255, 128));
    assert_eq!(&drawer.pixels()[i..i + 4], &[128, 0, 127, 255]);
    let before = drawer.pixels().clone();
    drawer.draw_pixel(&at, (3, 0), Color::from_rgba(255, 255, 255, 255));
    drawer.draw_pixel(&at, (0, 2), Color::from_rgba(255, 255, 255, 255));
    assert_eq!(drawer.pixels(), &before);
}

#[test]
fn glyph_coverage_becomes_alpha() {
    let mut drawer = Drawer::new(4, 4);
    let at = WidgetData { position: Position(1, 0), width: 0, height: 0 };
    let glyph = GlyphBitmap { x: 1, y: 1, width: 2, height: 1, coverage: vec![255, 0], is_whitespace: false };
    drawer.draw_glyph(&at, &glyph, Color::from_rgba(0, 255, 0, 255));
    let i = (1 * 4 + 2) * 4;
    assert_eq!(&drawer.pixels()[i..i + 4], &[0, 255, 0, 255]);
    assert_eq!(&drawer.pixels()[i + 4..i + 8], &[0, 0, 0, 0]);
    let space = GlyphBitmap { is_whitespace: true, ..glyph };
    let before = drawer.pixels().clone();
    drawer.draw_glyph(&at, &space, Color::from_rgba(255, 255, 255, 255));
    assert_eq!(drawer.pixels(), &before);
}

#[test]
fn style_paints_background_inside_border() {
    let mut drawer = Drawer::new(4, 4);
    let data = WidgetData { position: Position(0, 0), width: 4, height: 4 };
    let style = Style {
        background: Some(Color::from_rgba(0, 0, 255, 255)),
        border: Some((1, Color::from_rgba(255, 0, 0, 255))),
        margin: Margin::default(),
    };
    draw_style(&mut drawer, &data, &style);
    let px = |x: usize, y: usize| drawer.pixels()[(y * 4 + x) * 4..(y * 4 + x) * 4 + 4].to_vec();
    assert_eq!(px(0, 0), vec![0, 0, 255, 255]);
    assert_eq!(px(3, 2), vec![0, 0, 255, 255]);
    assert_eq!(px(1, 1), vec![255, 0, 0, 255]);
    assert_eq!(px(2, 2), vec![255, 0, 0, 255]);
}

#[test]
fn bound_text_draws_its_glyphs() {
    let mut drawer = Drawer::new(6, 6);
    let mut t = text_of(2, 2);
    t.set_position(Position(1, 1));
    t.bind();
    t.draw(&mut drawer).unwrap();
    let i = (1 * 6 + 1) * 4;
    assert_eq!(&drawer.pixels()[i..i + 4], &[0, 0, 255, 255]);
    assert_eq!(t.get_text(), "x");
}

#[test]
fn bar_places_rows_at_edges_and_centre() {
    let mut bar = Bar::new(BarSettings {
        padding: (5, 5, 5),
        default_data: WidgetData { position: Position(0, 0), width: 200, height: 0 },
        ..BarSettings::default()
    });
    bar.add_left(Widget::Text(text_of(20, 10)));
    bar.add_center(Widget::Text(text_of(30, 12)));
    bar.add_right(Widget::Text(text_of(40, 8)));
    bar.bind();
    bar.prepare().unwrap();
    assert_eq!(bar.left().data().position, Position(0, 0));
    assert_eq!(bar.right().data().position, Position(160, 0));
    assert_eq!(bar.center().data().position, Position(85, 0));
    assert_eq!(bar.data().height, 12);
    let mut drawer = Drawer::new(200, 12);
    bar.draw(&mut drawer).unwrap();
}

#[test]
fn icon_text_puts_text_after_icon() {
    let mut it = IconText::new(IconTextSettings {
        default_data: WidgetData { position: Position(2, 0), width: 0, height: 0 },
        text_settings: TextSettings { font_color: Color::from_rgba(0, 0, 255, 255), ..TextSettings::default() },
        icon_settings: TextSettings { font_color: Color::from_rgba(255, 0, 0, 255), ..TextSettings::default() },
        style: Style::default(),
    });
    it.change_icon(glyph_layout(3, 2));
    it.change_text(glyph_layout(4, 5));
    it.bind();
    it.prepare().unwrap();
    assert_eq!((it.data().width, it.data().height), (7, 5));
    let mut drawer = Drawer::new(10, 6);
    it.draw(&mut drawer).unwrap();
    let px = |x: usize, y: usize| drawer.pixels()[(y * 10 + x) * 4..(y * 10 + x) * 4 + 4].to_vec();
    assert_eq!(px(2, 0), vec![0, 0, 255, 255]);
    assert_eq!(px(4, 1), vec![0, 0, 255, 255]);
    assert_eq!(px(5, 0), vec![255, 0, 0, 255]);
    assert_eq!(px(8, 4), vec![255, 0, 0, 255]);
    assert_eq!(px(9, 0), vec![0, 0, 0, 0]);
}

#[test]
fn row_reports_layout_errors() {
    let mut row = Row::new(settings(Alignment::CenteringHorizontal, 60));
    row.add_widget(Widget::Text(text_of(50, 10)));
    row.add_widget(Widget::Text(text_of(20, 10)));
    row.bind();
    assert!(matches!(row.prepare(), Err(WidgetError::Layout(RowError::WidthOverflow))));
    let mut drawer = Drawer::new(4, 4);
    assert!(matches!(row.draw(&mut drawer), Err(WidgetError::Layout(RowError::WidthOverflow))));
}

#[test]
fn empty_frame_drops_every_pixel() {
    let mut drawer = Drawer::new(0, 0);
    drawer.draw_pixel(&WidgetData::default(), (0, 0), Color::from_rgba(1, 2, 3, 4));
    assert!(drawer.pixels().is_empty());
    drawer.update_sizes(2, 1);
    assert_eq!(drawer.pixels().len(), 8);
    assert_eq!((drawer.width(), drawer.height()), (2, 1));
}

#[test]
fn row_children_can_be_added_and_removed() {
    let mut row = Row::new(RowSettings::default());
    assert!(row.is_empty());
    row.add_widget(Widget::Text(text_of(5, 5)));
    row.add_widget(Widget::Text(text_of(6, 5)));
    assert_eq!(row.len(), 2);
    row.pop();
    assert_eq!(row.len(), 1);
    row.bind();
    row.init().unwrap();
    assert_eq!(row.data().width, 5);
}
