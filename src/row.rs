use vstd::prelude::*;

use crate::drawer::{draw_style, style_painted, Drawer};
use crate::text::TextLayout;
use crate::widgets::{WidgetStyled, checked_add4, Position, Style, Widget, WidgetData, WidgetError, WidgetList};

verus! {

/// How a row places its children.
#[derive(Clone, Copy, Debug, PartialEq, Eq, Structural)]
pub enum Alignment {
    /// Children spread over the row's fixed width, evenly spaced; a single child is centred.
    CenteringHorizontal,
    CenteringVertical,
    /// The row is made exactly as wide as its children and the padding, then centred.
    GrowthCenteringHorizontalRight(usize),
    GrowthCenteringHorizontalLeft(usize),
    GrowthCenteringVerticalRight(usize),
    GrowthCenteringVerticalLeft(usize),
    /// Children placed left to right from the row's anchor, `padding` pixels apart.
    GrowthHorizontalRight(usize),
    /// Children placed right to left from the row's anchor, `padding` pixels apart.
    GrowthHorizontalLeft(usize),
    GrowthVerticalUp(usize),
    GrowthVerticalDown(usize),
}

impl Alignment {
    pub fn default() -> (a: Alignment)
        ensures
            a == Alignment::GrowthHorizontalRight(10),
    {
        Alignment::GrowthHorizontalRight(10)
    }
}

/// Settings of a row. `default_data.position` is the row's anchor: its top-left corner, or
/// its top-right corner when it grows to the left. `default_data.width` is the fixed width
/// used by `CenteringHorizontal`, border included and margins excluded.
#[derive(Clone, Copy, Debug)]
pub struct RowSettings {
    pub alignment: Alignment,
    pub default_data: WidgetData,
    pub style: Style,
}

impl RowSettings {
    pub fn default() -> (s: RowSettings)
        ensures
            s.alignment == Alignment::GrowthHorizontalRight(10),
            s.default_data == (WidgetData { position: Position(0, 0), width: 0, height: 0 }),
            s.style.background is None,
            s.style.border is None,
            s.style.margin.left == 0 && s.style.margin.right == 0,
            s.style.margin.up == 0 && s.style.margin.down == 0,
    {
        RowSettings {
            alignment: Alignment::default(),
            default_data: WidgetData::default(),
            style: Style::default(),
        }
    }
}

/// Why a row could not place its children.
#[derive(Clone, Copy, Debug, PartialEq, Eq, Structural)]
pub enum RowError {
    /// The children do not fit in the width the row has.
    WidthOverflow,
    /// A coordinate of the layout does not fit in `usize`.
    TooLarge,
    /// The row's alignment policy has no layout algorithm.
    Unsupported,
}

/// Where each child goes and the row's own resulting geometry.
pub struct RowLayout {
    pub positions: Vec<Position>,
    pub data: WidgetData,
}

/// Sum of the widths of the first `k` children.
pub open spec fn sum_w(s: Seq<WidgetData>, k: int) -> int
    decreases k,
{
    if k <= 0 {
        0
    } else {
        sum_w(s, k - 1) + s[k - 1].width
    }
}

/// Largest height among the first `k` children, zero for none.
pub open spec fn max_h(s: Seq<WidgetData>, k: int) -> int
    decreases k,
{
    if k <= 0 {
        0
    } else if max_h(s, k - 1) >= s[k - 1].height {
        max_h(s, k - 1)
    } else {
        s[k - 1].height as int
    }
}

/// Height of a row without children: three border thicknesses.
pub open spec fn empty_height(style: Style) -> int {
    3 * (style.thickness() as int)
}

pub open spec fn within(v: int) -> bool {
    v <= usize::MAX
}

/// The row's geometry around content of the given size, the row placed at `p`.
pub open spec fn row_data(style: Style, p: Position, content_w: int, content_h: int) -> WidgetData {
    WidgetData {
        position: p,
        width: (content_w + style.extra_width()) as usize,
        height: (content_h + style.extra_height()) as usize,
    }
}

/// Layout of a row that grows rightward: child `i` starts `sum_w(i) + i * padding` pixels
/// after the content's left edge.
pub open spec fn growth_right_layout(st: RowSettings, s: Seq<WidgetData>, p: int) -> Result<
    (Seq<Position>, WidgetData),
    RowError,
> {
    let o = st.default_data.position;
    let n = s.len() as int;
    let cw = sum_w(s, n) + p * (n - 1);
    let ch = max_h(s, n);
    if !within(o.0 + cw + st.style.extra_width()) || !within(o.1 + ch + st.style.extra_height()) {
        Err(RowError::TooLarge)
    } else {
        Ok(
            (
                Seq::new(
                    s.len(),
                    |i: int|
                        Position(
                            (st.style.content_x(o) + sum_w(s, i) + i * p) as usize,
                            st.style.content_y(o) as usize,
                        ),
                ),
                row_data(st.style, o, cw, ch),
            ),
        )
    }
}

/// Layout of a row that grows leftward from its anchor: child `i` ends `sum_w(i) + i *
/// padding` pixels before the content's right edge, and the row ends at the anchor.
pub open spec fn growth_left_layout(st: RowSettings, s: Seq<WidgetData>, p: int) -> Result<
    (Seq<Position>, WidgetData),
    RowError,
> {
    let o = st.default_data.position;
    let n = s.len() as int;
    let cw = sum_w(s, n) + p * (n - 1);
    let ch = max_h(s, n);
    let tw = cw + st.style.extra_width();
    if tw > o.0 {
        Err(RowError::WidthOverflow)
    } else if !within(o.1 + ch + st.style.extra_height()) {
        Err(RowError::TooLarge)
    } else {
        let left = Position((o.0 - tw) as usize, o.1);
        let right_edge = st.style.content_x(left) + cw;
        Ok(
            (
                Seq::new(
                    s.len(),
                    |i: int|
                        Position(
                            (right_edge - sum_w(s, i + 1) - i * p) as usize,
                            st.style.content_y(o) as usize,
                        ),
                ),
                row_data(st.style, left, cw, ch),
            ),
        )
    }
}

/// Layout of a row of fixed width `width` (border included): one child is centred in the
/// space inside the border; several are spread with equal gaps
/// `(available - sum_w) / (count - 1)`.
pub open spec fn centered_layout(st: RowSettings, s: Seq<WidgetData>, width: int) -> Result<
    (Seq<Position>, WidgetData),
    RowError,
> {
    let o = st.default_data.position;
    let n = s.len() as int;
    let b = st.style.thickness() as int;
    let avail = width - 2 * b;
    let total = sum_w(s, n);
    let ch = max_h(s, n);
    if avail < 0 || total > avail {
        Err(RowError::WidthOverflow)
    } else if !within(o.0 + avail + st.style.extra_width()) || !within(
        o.1 + ch + st.style.extra_height(),
    ) {
        Err(RowError::TooLarge)
    } else {
        let cx = st.style.content_x(o);
        let gap = if n > 1 {
            (avail - total) / (n - 1)
        } else {
            0
        };
        Ok(
            (
                Seq::new(
                    s.len(),
                    |i: int|
                        Position(
                            (if n == 1 {
                                cx + (avail - total) / 2
                            } else {
                                cx + sum_w(s, i) + i * gap
                            }) as usize,
                            st.style.content_y(o) as usize,
                        ),
                ),
                row_data(st.style, o, avail, ch),
            ),
        )
    }
}

/// Width of a row fitted tightly around its children: their widths, the padding between
/// them and the border on both sides.
pub open spec fn fitted_width(st: RowSettings, s: Seq<WidgetData>, p: int) -> int {
    sum_w(s, s.len() as int) + p * (s.len() - 1) + 2 * st.style.thickness()
}

/// Where a row's children go and the row's resulting geometry, for its alignment policy.
pub open spec fn row_layout(st: RowSettings, s: Seq<WidgetData>) -> Result<
    (Seq<Position>, WidgetData),
    RowError,
> {
    let o = st.default_data.position;
    if s.len() == 0 {
        if !within(empty_height(st.style)) {
            Err(RowError::TooLarge)
        } else {
            Ok((Seq::empty(), WidgetData { height: empty_height(st.style) as usize, ..st.default_data }))
        }
    } else {
        match st.alignment {
            Alignment::CenteringHorizontal => centered_layout(st, s, st.default_data.width as int),
            Alignment::GrowthCenteringHorizontalRight(p) => if within(fitted_width(st, s, p as int)) {
                centered_layout(st, s, fitted_width(st, s, p as int))
            } else {
                Err(RowError::TooLarge)
            },
            Alignment::GrowthCenteringHorizontalLeft(p) => if within(fitted_width(st, s, p as int)) {
                let tw = fitted_width(st, s, p as int) + st.style.margin.left + st.style.margin.right;
                if tw > o.0 {
                    Err(RowError::WidthOverflow)
                } else {
                    centered_layout(
                        RowSettings {
                            default_data: WidgetData { position: Position((o.0 - tw) as usize, o.1), ..st.default_data },
                            ..st
                        },
                        s,
                        fitted_width(st, s, p as int),
                    )
                }
            } else {
                Err(RowError::TooLarge)
            },
            Alignment::GrowthHorizontalRight(p) => growth_right_layout(st, s, p as int),
            Alignment::GrowthHorizontalLeft(p) => growth_left_layout(st, s, p as int),
            _ => Err(RowError::Unsupported),
        }
    }
}

/// The exec result agrees with the layout the spec gives.
pub open spec fn layout_matches(
    r: Result<RowLayout, RowError>,
    spec: Result<(Seq<Position>, WidgetData), RowError>,
) -> bool {
    match r {
        Ok(l) => spec is Ok && l.positions@ == spec->Ok_0.0 && l.data == spec->Ok_0.1,
        Err(e) => spec == Err::<(Seq<Position>, WidgetData), RowError>(e),
    }
}

proof fn lemma_sum_w_mono(s: Seq<WidgetData>, i: int, j: int)
    requires
        0 <= i <= j <= s.len(),
    ensures
        sum_w(s, i) <= sum_w(s, j),
        sum_w(s, i) >= 0,
    decreases j - i,
{
    if i < j {
        lemma_sum_w_mono(s, i, j - 1);
    } else {
        lemma_sum_w_nonneg(s, i);
    }
}

proof fn lemma_sum_w_nonneg(s: Seq<WidgetData>, i: int)
    requires
        0 <= i <= s.len(),
    ensures
        sum_w(s, i) >= 0,
    decreases i,
{
    if i > 0 {
        lemma_sum_w_nonneg(s, i - 1);
    }
}

proof fn lemma_gaps_mono(i: int, n: int, p: int)
    requires
        0 <= i < n,
        p >= 0,
    ensures
        0 <= i * p <= (n - 1) * p,
        p * (n - 1) == (n - 1) * p,
{
    assert(0 <= i * p <= (n - 1) * p) by (nonlinear_arith)
        requires
            0 <= i < n,
            p >= 0,
    ;
    assert(p * (n - 1) == (n - 1) * p) by (nonlinear_arith);
}

/// The total width of the children (if it fits in `usize`) and their largest height.
pub fn children_extent(s: &Vec<WidgetData>) -> (r: (Option<usize>, usize))
    ensures
        r.0 is Some <==> within(sum_w(s@, s@.len() as int)),
        r.0 matches Some(w) ==> w == sum_w(s@, s@.len() as int),
        r.1 == max_h(s@, s@.len() as int),
{
    let mut total: Option<usize> = Some(0);
    let mut tallest: usize = 0;
    let mut i: usize = 0;
    while i < s.len()
        invariant
            i <= s@.len(),
            total is Some <==> within(sum_w(s@, i as int)),
            total matches Some(w) ==> w == sum_w(s@, i as int),
            tallest == max_h(s@, i as int),
        decreases s@.len() - i,
    {
        proof {
            lemma_sum_w_nonneg(s@, i as int);
        }
        total = match total {
            Some(w) => w.checked_add(s[i].width),
            None => None,
        };
        if s[i].height > tallest {
            tallest = s[i].height;
        }
        i = i + 1;
    }
    (total, tallest)
}

/// `a + b + c`, or `None` when it does not fit in `usize`.
fn add3(a: usize, b: usize, c: usize) -> (r: Option<usize>)
    ensures
        r is Some <==> within(a + b + c),
        r matches Some(v) ==> v == a + b + c,
{
    match a.checked_add(b) {
        Some(x) => x.checked_add(c),
        None => None,
    }
}

/// `padding * (count - 1)` for `count >= 1`, or `None` when it does not fit.
fn gaps(padding: usize, count: usize) -> (r: Option<usize>)
    requires
        count >= 1,
    ensures
        r is Some <==> within(padding * (count - 1)),
        r matches Some(v) ==> v == padding * (count - 1),
{
    padding.checked_mul(count - 1)
}

/// Horizontal and vertical space a style adds, if they fit in `usize`.
fn style_extent(style: &Style) -> (r: Option<(usize, usize)>)
    ensures
        r is Some <==> within(style.extra_width()) && within(style.extra_height()),
        r matches Some((w, h)) ==> w == style.extra_width() && h == style.extra_height(),
{
    let t = style.border_thickness();
    match (add3(t, t, style.margin.left), add3(t, t, style.margin.up)) {
        (Some(a), Some(b)) => match (a.checked_add(style.margin.right), b.checked_add(
            style.margin.down,
        )) {
            (Some(w), Some(h)) => Some((w, h)),
            _ => None,
        },
        _ => None,
    }
}

/// Places the children of a row that grows rightward.
pub fn align_growth_right(st: &RowSettings, s: &Vec<WidgetData>, padding: usize) -> (r: Result<
    RowLayout,
    RowError,
>)
    requires
        s@.len() > 0,
    ensures
        layout_matches(r, growth_right_layout(*st, s@, padding as int)),
{
    let ghost spec = growth_right_layout(*st, s@, padding as int);
    let o = st.default_data.position;
    let n = s.len();
    let (total, tallest) = children_extent(s);
    proof {
        lemma_sum_w_nonneg(s@, n as int);
        lemma_gaps_mono(0, n as int, padding as int);
    }
    let (ew, eh) = match style_extent(&st.style) {
        Some(e) => e,
        None => return Err(RowError::TooLarge),
    };
    let cw = match (total, gaps(padding, n)) {
        (Some(t), Some(g)) => match t.checked_add(g) {
            Some(cw) => cw,
            None => return Err(RowError::TooLarge),
        },
        _ => return Err(RowError::TooLarge),
    };
    let (right, bottom) = match (add3(o.0, cw, ew), add3(o.1, tallest, eh)) {
        (Some(r), Some(b)) => (r, b),
        _ => return Err(RowError::TooLarge),
    };
    let b = st.style.border_thickness();
    let cx = o.0 + st.style.margin.left + b;
    let cy = o.1 + st.style.margin.up + b;
    let mut positions: Vec<Position> = Vec::new();
    let mut x = cx;
    let mut i: usize = 0;
    while i < n
        invariant
            n == s@.len(),
            n > 0,
            i <= n,
            spec == growth_right_layout(*st, s@, padding as int),
            o == st.default_data.position,
            cw == sum_w(s@, n as int) + padding * (n - 1),
            right == o.0 + cw + ew,
            ew == st.style.extra_width(),
            cx == st.style.content_x(o),
            cy == st.style.content_y(o),
            within(right as int),
            i < n ==> x == cx + sum_w(s@, i as int) + i * padding,
            positions@.len() == i,
            forall|j: int|
                0 <= j < i ==> positions@[j] == Position(
                    (st.style.content_x(o) + sum_w(s@, j) + j * padding) as usize,
                    st.style.content_y(o) as usize,
                ),
        decreases n - i,
    {
        positions.push(Position(x, cy));
        proof {
            lemma_sum_w_mono(s@, i + 1, n as int);
            lemma_gaps_mono(i as int, n as int, padding as int);
            if i + 1 < n {
                lemma_gaps_mono(i + 1, n as int, padding as int);
                assert((i + 1) * padding == i * padding + padding) by (nonlinear_arith);
            }
        }
        if i + 1 < n {
            x = x + s[i].width + padding;
        }
        i = i + 1;
    }
    assert(positions@ =~= spec->Ok_0.0);
    Ok(RowLayout { positions, data: WidgetData { position: o, width: cw + ew, height: tallest + eh } })
}

/// Places the children of a row that grows leftward from its anchor.
pub fn align_growth_left(st: &RowSettings, s: &Vec<WidgetData>, padding: usize) -> (r: Result<
    RowLayout,
    RowError,
>)
    requires
        s@.len() > 0,
    ensures
        layout_matches(r, growth_left_layout(*st, s@, padding as int)),
{
    let ghost spec = growth_left_layout(*st, s@, padding as int);
    let o = st.default_data.position;
    let n = s.len();
    let (total, tallest) = children_extent(s);
    proof {
        lemma_sum_w_nonneg(s@, n as int);
        lemma_gaps_mono(0, n as int, padding as int);
    }
    let t = st.style.border_thickness();
    let ew = match checked_add4(0, t, t, st.style.margin.left, st.style.margin.right) {
        Some(e) => e,
        None => return Err(RowError::WidthOverflow),
    };
    let tw = match (total, gaps(padding, n)) {
        (Some(t), Some(g)) => match add3(t, g, ew) {
            Some(tw) => tw,
            None => return Err(RowError::WidthOverflow),
        },
        _ => return Err(RowError::WidthOverflow),
    };
    if tw > o.0 {
        return Err(RowError::WidthOverflow);
    }
    let eh = match checked_add4(0, t, t, st.style.margin.up, st.style.margin.down) {
        Some(e) => e,
        None => return Err(RowError::TooLarge),
    };
    if add3(o.1, tallest, eh).is_none() {
        return Err(RowError::TooLarge);
    }
    let cw = tw - ew;
    let left = Position(o.0 - tw, o.1);
    let b = st.style.border_thickness();
    let cy = o.1 + st.style.margin.up + b;
    let right_edge = left.0 + st.style.margin.left + b + cw;
    let mut positions: Vec<Position> = Vec::new();
    // right end of the next child's slot
    let mut end = right_edge;
    let mut i: usize = 0;
    while i < n
        invariant
            n == s@.len(),
            n > 0,
            i <= n,
            spec == growth_left_layout(*st, s@, padding as int),
            o == st.default_data.position,
            cw == sum_w(s@, n as int) + padding * (n - 1),
            tw == cw + st.style.extra_width(),
            tw <= o.0,
            left == Position((o.0 - tw) as usize, o.1),
            right_edge == st.style.content_x(left) + cw,
            cy == st.style.content_y(o),
            i < n ==> end == right_edge - sum_w(s@, i as int) - i * padding,
            positions@.len() == i,
            forall|j: int|
                0 <= j < i ==> positions@[j] == Position(
                    (right_edge - sum_w(s@, j + 1) - j * padding) as usize,
                    st.style.content_y(o) as usize,
                ),
        decreases n - i,
    {
        proof {
            lemma_sum_w_mono(s@, i + 1, n as int);
            lemma_sum_w_nonneg(s@, i as int);
            lemma_gaps_mono(i as int, n as int, padding as int);
            if i + 1 < n {
                lemma_gaps_mono(i + 1, n as int, padding as int);
                assert((i + 1) * padding == i * padding + padding) by (nonlinear_arith);
            }
        }
        let x = end - s[i].width;
        positions.push(Position(x, cy));
        if i + 1 < n {
            end = x - padding;
        }
        i = i + 1;
    }
    assert(positions@ =~= spec->Ok_0.0);
    Ok(RowLayout { positions, data: WidgetData { position: left, width: tw, height: tallest + eh } })
}

proof fn lemma_gap_spread(i: int, n: int, gap: int, room: int)
    requires
        0 <= i < n,
        n > 1,
        room >= 0,
        gap == room / (n - 1),
    ensures
        0 <= i * gap <= room,
        gap >= 0,
{
    assert(0 <= i * gap <= (n - 1) * gap && (n - 1) * gap <= room && gap >= 0) by (nonlinear_arith)
        requires
            0 <= i < n,
            n > 1,
            room >= 0,
            gap == room / (n - 1),
    ;
}

/// Places the children of a row of fixed width `width`, border included.
pub fn align_centered(st: &RowSettings, s: &Vec<WidgetData>, width: usize) -> (r: Result<
    RowLayout,
    RowError,
>)
    requires
        s@.len() > 0,
    ensures
        layout_matches(r, centered_layout(*st, s@, width as int)),
{
    let ghost spec = centered_layout(*st, s@, width as int);
    let o = st.default_data.position;
    let n = s.len();
    let b = st.style.border_thickness();
    let (total, tallest) = children_extent(s);
    proof {
        lemma_sum_w_nonneg(s@, n as int);
    }
    if b > width / 2 || b > width - b {
        return Err(RowError::WidthOverflow);
    }
    let avail = width - 2 * b;
    let total = match total {
        Some(t) => t,
        None => return Err(RowError::WidthOverflow),
    };
    if total > avail {
        return Err(RowError::WidthOverflow);
    }
    let (ew, eh) = match style_extent(&st.style) {
        Some(e) => e,
        None => return Err(RowError::TooLarge),
    };
    if add3(o.0, avail, ew).is_none() || add3(o.1, tallest, eh).is_none() {
        return Err(RowError::TooLarge);
    }
    let cx = o.0 + st.style.margin.left + b;
    let cy = o.1 + st.style.margin.up + b;
    let mut positions: Vec<Position> = Vec::new();
    if n == 1 {
        positions.push(Position(cx + (avail - total) / 2, cy));
        assert(positions@ =~= spec->Ok_0.0);
        return Ok(RowLayout { positions, data: WidgetData { position: o, width: avail + ew, height: tallest + eh } });
    }
    let gap = (avail - total) / (n - 1);
    let mut x = cx;
    let mut i: usize = 0;
    while i < n
        invariant
            n == s@.len(),
            n > 1,
            i <= n,
            spec == centered_layout(*st, s@, width as int),
            o == st.default_data.position,
            b == st.style.thickness(),
            avail == width - 2 * b,
            total == sum_w(s@, n as int),
            total <= avail,
            gap == (avail - total) / (n - 1),
            within(o.0 + avail + ew),
            ew == st.style.extra_width(),
            cx == st.style.content_x(o),
            cy == st.style.content_y(o),
            i < n ==> x == cx + sum_w(s@, i as int) + i * gap,
            positions@.len() == i,
            forall|j: int|
                0 <= j < i ==> positions@[j] == Position(
                    (cx + sum_w(s@, j) + j * gap) as usize,
                    st.style.content_y(o) as usize,
                ),
        decreases n - i,
    {
        proof {
            lemma_sum_w_mono(s@, i + 1, n as int);
            lemma_gap_spread(i as int, n as int, gap as int, avail - total);
            if i + 1 < n {
                lemma_gap_spread(i + 1, n as int, gap as int, avail - total);
                assert((i + 1) * gap == i * gap + gap) by (nonlinear_arith);
            }
        }
        positions.push(Position(x, cy));
        if i + 1 < n {
            x = x + s[i].width + gap;
        }
        i = i + 1;
    }
    assert(positions@ =~= spec->Ok_0.0);
    Ok(RowLayout { positions, data: WidgetData { position: o, width: avail + ew, height: tallest + eh } })
}

/// Places a row's children according to its alignment policy.
pub fn align_widgets(st: &RowSettings, s: &Vec<WidgetData>) -> (r: Result<RowLayout, RowError>)
    ensures
        layout_matches(r, row_layout(*st, s@)),
{
    let o = st.default_data.position;
    if s.len() == 0 {
        let t = st.style.border_thickness();
        let h = match t.checked_mul(3) {
            Some(h) => h,
            None => return Err(RowError::TooLarge),
        };
        let positions: Vec<Position> = Vec::new();
        proof {
            assert(positions@ =~= Seq::<Position>::empty());
        }
        return Ok(RowLayout { positions, data: WidgetData { height: h, ..st.default_data } });
    }
    match st.alignment {
        Alignment::CenteringHorizontal => align_centered(st, s, st.default_data.width),
        Alignment::GrowthCenteringHorizontalRight(p) => {
            let (total, _) = children_extent(s);
            let b = st.style.border_thickness();
            proof {
                lemma_sum_w_nonneg(s@, s@.len() as int);
            }
            let fitted = match (total, gaps(p, s.len())) {
                (Some(t), Some(g)) => match add3(t, g, b) {
                    Some(w) => w.checked_add(b),
                    None => None,
                },
                _ => None,
            };
            match fitted {
                Some(w) => align_centered(st, s, w),
                None => Err(RowError::TooLarge),
            }
        },
        Alignment::GrowthCenteringHorizontalLeft(p) => {
            let (total, _) = children_extent(s);
            let b = st.style.border_thickness();
            proof {
                lemma_sum_w_nonneg(s@, s@.len() as int);
            }
            let fitted = match (total, gaps(p, s.len())) {
                (Some(t), Some(g)) => match add3(t, g, b) {
                    Some(w) => w.checked_add(b),
                    None => None,
                },
                _ => None,
            };
            let w = match fitted {
                Some(w) => w,
                None => return Err(RowError::TooLarge),
            };
            let tw = match add3(w, st.style.margin.left, st.style.margin.right) {
                Some(tw) => tw,
                None => return Err(RowError::WidthOverflow),
            };
            if tw > o.0 {
                return Err(RowError::WidthOverflow);
            }
            let moved = RowSettings {
                default_data: WidgetData { position: Position(o.0 - tw, o.1), ..st.default_data },
                ..*st
            };
            align_centered(&moved, s, w)
        },
        Alignment::GrowthHorizontalRight(p) => align_growth_right(st, s, p),
        Alignment::GrowthHorizontalLeft(p) => align_growth_left(st, s, p),
        _ => Err(RowError::Unsupported),
    }
}

/// The children after each is prepared.
pub open spec fn prepared_children(c: Seq<Widget>) -> Seq<Widget> {
    Seq::new(c.len(), |i: int| c[i].prepared())
}

/// The children's geometry.
pub open spec fn children_data(c: Seq<Widget>) -> Seq<WidgetData> {
    Seq::new(c.len(), |i: int| c[i].view_data())
}

/// What preparing a row gives: its children prepared and placed, and its own geometry.
pub open spec fn row_prepared(st: RowSettings, c: Seq<Widget>) -> Result<(Seq<Widget>, WidgetData), WidgetError> {
    let pc = prepared_children(c);
    if exists|i: int| 0 <= i < c.len() && !(#[trigger] c[i].prepare_fits()) {
        Err(WidgetError::InvalidBounds)
    } else {
        match row_layout(st, children_data(pc)) {
            Ok((pos, d)) => Ok((Seq::new(c.len(), |i: int| pc[i].placed(pos[i])), d)),
            Err(e) => Err(WidgetError::Layout(e)),
        }
    }
}

/// The frame after the first `k` children are drawn where they stand.
pub open spec fn children_painted(bytes: Seq<u8>, w: int, h: int, c: Seq<Widget>, k: int) -> Seq<u8>
    decreases k,
{
    if k <= 0 {
        bytes
    } else {
        c[k - 1].painted_on(children_painted(bytes, w, h, c, k - 1), w, h)
    }
}

/// The frame after a laid-out row is drawn: its style, then each child where it stands.
pub open spec fn row_painted(bytes: Seq<u8>, w: int, h: int, style: Style, d: WidgetData, kids: Seq<Widget>) -> Seq<u8> {
    children_painted(style_painted(bytes, w, h, d, style), w, h, kids, kids.len() as int)
}

/// A container that lays out its children in one line.
pub struct Row {
    settings: RowSettings,
    data: WidgetData,
    widgets: Vec<Widget>,
    bound: bool,
    ready: bool,
}

impl Row {
    pub closed spec fn children(self) -> Seq<Widget> {
        self.widgets@
    }

    pub closed spec fn view_data(self) -> WidgetData {
        self.data
    }

    pub closed spec fn view_settings(self) -> RowSettings {
        self.settings
    }

    pub closed spec fn is_bound(self) -> bool {
        self.bound
    }

    pub closed spec fn is_ready(self) -> bool {
        self.ready
    }

    /// Every child is well formed, bound when the row is and prepared when the row is.
    pub closed spec fn wf(self) -> bool {
        forall|i: int|
            0 <= i < self.widgets@.len() ==> {
                &&& (#[trigger] self.widgets@[i]).wf()
                &&& self.bound ==> self.widgets@[i].is_bound()
                &&& self.ready ==> self.widgets@[i].is_ready()
            }
    }

    pub fn new(settings: RowSettings) -> (r: Row)
        ensures
            r.wf(),
            r.children().len() == 0,
            r.view_data() == settings.default_data,
            r.view_settings() == settings,
            !r.is_bound(),
            !r.is_ready(),
    {
        Row { data: settings.default_data, settings, widgets: Vec::new(), bound: false, ready: false }
    }

    pub fn len(&self) -> (n: usize)
        ensures
            n == self.children().len(),
    {
        self.widgets.len()
    }

    pub fn is_empty(&self) -> (b: bool)
        ensures
            b == (self.children().len() == 0),
    {
        self.widgets.len() == 0
    }

    /// Appends a child; it is bound at once when the row is.
    pub fn add_widget(&mut self, widget: Widget)
        requires
            old(self).wf(),
            widget.wf(),
        ensures
            final(self).wf(),
            final(self).children().len() == old(self).children().len() + 1,
            final(self).children().subrange(0, old(self).children().len() as int) == old(self).children(),
            final(self).children().last().view_data() == widget.view_data(),
            final(self).is_bound() == old(self).is_bound(),
            !final(self).is_ready(),
            final(self).view_data() == old(self).view_data(),
            final(self).view_settings() == old(self).view_settings(),
    {
        let mut widget = widget;
        if self.bound {
            widget.bind();
        }
        self.widgets.push(widget);
        self.ready = false;
        assert(self.widgets@.subrange(0, self.widgets@.len() - 1) =~= old(self).widgets@);
    }

    /// Removes the last child.
    pub fn pop(&mut self)
        requires
            old(self).wf(),
        ensures
            final(self).wf(),
            old(self).children().len() > 0 ==> final(self).children() == old(self).children().drop_last(),
            old(self).children().len() == 0 ==> final(self).children() == old(self).children(),
            final(self).is_bound() == old(self).is_bound(),
            !final(self).is_ready(),
    {
        let _ = self.widgets.pop();
        self.ready = false;
    }

    /// Attaches the row and all of its children to the environment.
    pub fn bind(&mut self)
        requires
            old(self).wf(),
        ensures
            final(self).wf(),
            final(self).is_bound(),
            final(self).is_ready() == old(self).is_ready(),
            final(self).children().len() == old(self).children().len(),
            final(self).view_data() == old(self).view_data(),
            final(self).view_settings() == old(self).view_settings(),
    {
        self.bound = true;
        let mut i: usize = 0;
        while i < self.widgets.len()
            invariant
                i <= self.widgets@.len(),
                self.bound,
                self.widgets@.len() == old(self).widgets@.len(),
                self.ready == old(self).ready,
                self.data == old(self).data,
                self.settings == old(self).settings,
                forall|j: int|
                    0 <= j < self.widgets@.len() ==> {
                        &&& (#[trigger] self.widgets@[j]).wf()
                        &&& j < i ==> self.widgets@[j].is_bound()
                        &&& self.ready ==> self.widgets@[j].is_ready()
                    },
            decreases self.widgets@.len() - i,
        {
            self.widgets[i].bind();
            i = i + 1;
        }
    }

    /// Moves the row's anchor; the children follow on the next `prepare`.
    pub fn set_anchor(&mut self, p: Position)
        requires
            old(self).wf(),
        ensures
            final(self).wf(),
            final(self).view_settings() == (RowSettings {
                default_data: WidgetData { position: p, ..old(self).view_settings().default_data },
                ..old(self).view_settings()
            }),
            final(self).children() == old(self).children(),
            final(self).view_data() == old(self).view_data(),
            final(self).is_bound() == old(self).is_bound(),
            !final(self).is_ready(),
    {
        self.settings.default_data.position = p;
        self.ready = false;
    }

    /// Prepares every child, then places them by the row's alignment policy and takes the
    /// row's own geometry from the layout.
    pub fn prepare(&mut self) -> (r: Result<(), WidgetError>)
        requires
            old(self).wf(),
        ensures
            final(self).wf(),
            final(self).is_bound() == old(self).is_bound(),
            final(self).view_settings() == old(self).view_settings(),
            final(self).children().len() == old(self).children().len(),
            r is Ok <==> row_prepared(old(self).view_settings(), old(self).children()) is Ok,
            r is Ok ==> final(self).is_ready()
                && final(self).children() == row_prepared(old(self).view_settings(), old(self).children())->Ok_0.0
                && final(self).view_data() == row_prepared(old(self).view_settings(), old(self).children())->Ok_0.1,
            r matches Err(e) ==> row_prepared(old(self).view_settings(), old(self).children())
                == Err::<(Seq<Widget>, WidgetData), WidgetError>(e),
    {
        let ghost c = self.widgets@;
        let ghost pc = prepared_children(c);
        self.ready = false;
        let n = self.widgets.len();
        let mut i: usize = 0;
        while i < n
            invariant
                n == self.widgets@.len(),
                n == c.len(),
                c == old(self).widgets@,
                pc == prepared_children(c),
                i <= n,
                !self.ready,
                self.bound == old(self).bound,
                self.settings == old(self).settings,
                forall|j: int| 0 <= j < i ==> c[j].prepare_fits(),
                forall|j: int| 0 <= j < i ==> self.widgets@[j] == pc[j],
                forall|j: int| i <= j < n ==> self.widgets@[j] == c[j],
                forall|j: int|
                    0 <= j < n ==> {
                        &&& (#[trigger] self.widgets@[j]).wf()
                        &&& self.bound ==> self.widgets@[j].is_bound()
                    },
                forall|j: int| 0 <= j < n ==> (#[trigger] c[j]).wf(),
            decreases n - i,
        {
            proof {
                c[i as int].lemma_prepare_facts(c[i as int].view_data().position);
            }
            match self.widgets[i].prepare() {
                Ok(()) => {},
                Err(e) => {
                    proof {
                        assert(!c[i as int].prepare_fits());
                        assert(row_prepared(self.settings, c) == Err::<(Seq<Widget>, WidgetData), WidgetError>(WidgetError::InvalidBounds));
                    }
                    return Err(e);
                },
            }
            i = i + 1;
        }
        assert(forall|j: int| 0 <= j < n ==> (#[trigger] c[j]).prepare_fits());
        assert(forall|j: int| 0 <= j < n ==> (#[trigger] c[j]).wf() && c[j].prepare_fits());
        let mut datas: Vec<WidgetData> = Vec::new();
        let mut k: usize = 0;
        while k < n
            invariant
                n == self.widgets@.len(),
                n == c.len(),
                k <= n,
                forall|j: int| 0 <= j < n ==> self.widgets@[j] == pc[j],
                forall|j: int| 0 <= j < n ==> (#[trigger] c[j]).wf() && c[j].prepare_fits(),
                pc == prepared_children(c),
                self.bound == old(self).bound,
                self.settings == old(self).settings,
                c == old(self).widgets@,
                !self.ready,
                forall|j: int|
                    0 <= j < n ==> {
                        &&& (#[trigger] self.widgets@[j]).wf()
                        &&& self.bound ==> self.widgets@[j].is_bound()
                    },
                datas@.len() == k,
                forall|j: int| 0 <= j < k ==> datas@[j] == pc[j].view_data(),
            decreases n - k,
        {
            datas.push(self.widgets[k].data());
            k = k + 1;
        }
        assert(datas@ =~= children_data(pc));
        let layout = match align_widgets(&self.settings, &datas) {
            Ok(l) => l,
            Err(e) => return Err(WidgetError::Layout(e)),
        };
        let ghost pos = layout.positions@;
        assert forall|j: int| 0 <= j < n implies (#[trigger] self.widgets@[j]).wf()
            && (self.bound ==> self.widgets@[j].is_bound()) && self.widgets@[j].is_ready() by {
            c[j].lemma_prepare_facts(c[j].view_data().position);
            assert(self.widgets@[j] == pc[j]);
            assert(pc[j] == c[j].prepared());
            assert(c[j].wf() && c[j].prepare_fits());
            assert(c[j].prepared().is_ready());
        }
        let mut m: usize = 0;
        while m < n
            invariant
                n == self.widgets@.len(),
                n == c.len(),
                m <= n,
                layout.positions@ == pos,
                pos.len() == n,
                pc == prepared_children(c),
                c == old(self).widgets@,
                !self.ready,
                self.bound == old(self).bound,
                self.settings == old(self).settings,
                forall|j: int| 0 <= j < m ==> self.widgets@[j] == pc[j].placed(pos[j]),
                forall|j: int| m <= j < n ==> self.widgets@[j] == pc[j],
                forall|j: int|
                    0 <= j < n ==> {
                        &&& (#[trigger] self.widgets@[j]).wf()
                        &&& self.bound ==> self.widgets@[j].is_bound()
                        &&& self.widgets@[j].is_ready()
                    },
            decreases n - m,
        {
            proof {
                pc[m as int].lemma_prepare_facts(pos[m as int]);
            }
            self.widgets[m].set_position(layout.positions[m]);
            m = m + 1;
        }
        assert(self.widgets@ =~= Seq::new(c.len(), |i: int| pc[i].placed(pos[i])));
        self.data = layout.data;
        self.ready = true;
        Ok(())
    }

    /// First layout after binding: prepares the row; before binding there is nothing to
    /// lay out for.
    pub fn init(&mut self) -> (r: Result<(), WidgetError>)
        requires
            old(self).wf(),
        ensures
            final(self).wf(),
            !old(self).is_bound() ==> (r matches Err(WidgetError::InitWithNoEnv(WidgetList::Row))) && *final(self) == *old(self),
            old(self).is_bound() ==> (r is Ok <==> row_prepared(old(self).view_settings(), old(self).children()) is Ok),
            r is Ok ==> final(self).is_ready()
                && final(self).children() == row_prepared(old(self).view_settings(), old(self).children())->Ok_0.0
                && final(self).view_data() == row_prepared(old(self).view_settings(), old(self).children())->Ok_0.1,
    {
        if !self.bound {
            return Err(WidgetError::InitWithNoEnv(WidgetList::Row));
        }
        self.prepare()
    }

    /// The row's geometry and children as they are drawn: as they stand when the row is
    /// prepared, else as `prepare` makes them.
    pub open spec fn drawn(self) -> (WidgetData, Seq<Widget>) {
        if self.is_ready() {
            (self.view_data(), self.children())
        } else {
            (row_prepared(self.view_settings(), self.children())->Ok_0.1, row_prepared(self.view_settings(), self.children())->Ok_0.0)
        }
    }

    /// Whether `draw` succeeds: the row is bound, it is prepared or can be, and every child
    /// can draw where the layout puts it.
    pub open spec fn draw_ok(self) -> bool {
        &&& self.is_bound()
        &&& self.is_ready() || row_prepared(self.view_settings(), self.children()) is Ok
        &&& forall|i: int| 0 <= i < self.drawn().1.len() ==> (#[trigger] self.drawn().1[i]).draw_ok()
    }

    /// Draws the row's style, then every child in order, preparing first when stale; the
    /// row is left stale so that the next frame lays it out again.
    pub fn draw(&mut self, drawer: &mut Drawer) -> (r: Result<(), WidgetError>)
        requires
            old(self).wf(),
            old(drawer).wf(),
        ensures
            final(self).wf(),
            final(drawer).wf(),
            final(drawer).frame_width() == old(drawer).frame_width(),
            final(drawer).frame_height() == old(drawer).frame_height(),
            final(self).is_bound() == old(self).is_bound(),
            final(self).view_settings() == old(self).view_settings(),
            !old(self).is_bound() ==> r matches Err(WidgetError::DrawWithNoEnv(WidgetList::Row)),
            !old(self).is_bound() ==> final(drawer).frame() == old(drawer).frame(),
            !old(self).is_bound() ==> *final(self) == *old(self),
            r is Ok <==> old(self).draw_ok(),
            r is Ok ==> ({
                let (d, kids) = old(self).drawn();
                &&& !final(self).is_ready()
                &&& final(self).view_data() == d
                &&& final(self).children() == Seq::new(kids.len(), |i: int| kids[i].stale())
                &&& final(drawer).frame() == children_painted(
                    style_painted(
                        old(drawer).frame(),
                        old(drawer).frame_width() as int,
                        old(drawer).frame_height() as int,
                        d,
                        old(self).view_settings().style,
                    ),
                    old(drawer).frame_width() as int,
                    old(drawer).frame_height() as int,
                    kids,
                    kids.len() as int,
                )
            }),
    {
        if !self.bound {
            return Err(WidgetError::DrawWithNoEnv(WidgetList::Row));
        }
        if !self.ready {
            self.prepare()?;
        }
        let ghost kids = self.widgets@;
        let ghost d = self.data;
        assert(kids == old(self).drawn().1);
        self.ready = false;
        draw_style(drawer, &self.data, &self.settings.style);
        let ghost after_style = drawer.frame();
        let ghost w = drawer.frame_width() as int;
        let ghost h = drawer.frame_height() as int;
        let n = self.widgets.len();
        let mut i: usize = 0;
        while i < n
            invariant
                n == self.widgets@.len(),
                n == kids.len(),
                self.data == d,
                i <= n,
                drawer.wf(),
                drawer.frame_width() == w,
                drawer.frame_height() == h,
                w == old(drawer).frame_width(),
                h == old(drawer).frame_height(),
                self.bound,
                old(self).is_bound(),
                !self.ready,
                self.settings == old(self).settings,
                forall|j: int| 0 <= j < n ==> (#[trigger] kids[j]).is_ready() && kids[j].wf() && kids[j].is_bound(),
                forall|j: int| 0 <= j < i ==> self.widgets@[j] == kids[j].stale(),
                forall|j: int| i <= j < n ==> self.widgets@[j] == kids[j],
                forall|j: int|
                    0 <= j < n ==> {
                        &&& (#[trigger] self.widgets@[j]).wf()
                        &&& self.widgets@[j].is_bound()
                    },
                drawer.frame() == children_painted(after_style, w, h, kids, i as int),
                forall|j: int| 0 <= j < i ==> (#[trigger] kids[j]).draw_ok(),
                kids == old(self).drawn().1,
            decreases n - i,
        {
            proof {
                kids[i as int].lemma_prepare_facts(kids[i as int].view_data().position);
            }
            self.widgets[i].draw(drawer)?;
            i = i + 1;
        }
        assert(self.widgets@ =~= Seq::new(kids.len(), |i: int| kids[i].stale()));
        Ok(())
    }

    pub fn data(&self) -> (d: WidgetData)
        ensures
            d == self.view_data(),
    {
        self.data
    }


    /// Replaces the text of child `i`.
    pub fn change_text(&mut self, i: usize, layout: TextLayout)
        requires
            old(self).wf(),
            i < old(self).children().len(),
        ensures
            final(self).wf(),
            final(self).children().len() == old(self).children().len(),
            final(self).children()[i as int].text_layout() == layout.glyphs@,
            final(self).children()[i as int].view_data() == old(self).children()[i as int].view_data(),
            forall|j: int| 0 <= j < old(self).children().len() && j != i ==> final(self).children()[j] == old(self).children()[j],
            final(self).view_data() == old(self).view_data(),
            final(self).view_settings() == old(self).view_settings(),
            final(self).is_bound() == old(self).is_bound(),
            final(self).is_ready() == old(self).is_ready(),
    {
        self.widgets[i].change_text(layout);
    }

    /// Replaces the icon of child `i`; a text child has no icon and stays as it is.
    pub fn change_icon(&mut self, i: usize, layout: TextLayout)
        requires
            old(self).wf(),
            i < old(self).children().len(),
        ensures
            final(self).wf(),
            final(self).children().len() == old(self).children().len(),
            old(self).children()[i as int] is IconText ==> final(self).children()[i as int] is IconText
                && final(self).children()[i as int]->IconText_0.icon().view_layout() == layout.glyphs@
                && final(self).children()[i as int]->IconText_0.text() == old(self).children()[i as int]->IconText_0.text(),
            old(self).children()[i as int] is Text ==> final(self).children()[i as int] == old(self).children()[i as int],
            forall|j: int| 0 <= j < old(self).children().len() && j != i ==> final(self).children()[j] == old(self).children()[j],
            final(self).view_data() == old(self).view_data(),
            final(self).view_settings() == old(self).view_settings(),
            final(self).is_bound() == old(self).is_bound(),
            final(self).is_ready() == old(self).is_ready(),
    {
        self.widgets[i].change_icon(layout);
    }
}

proof fn lemma_sizes_agree(s1: Seq<WidgetData>, s2: Seq<WidgetData>, k: int)
    requires
        0 <= k <= s1.len(),
        s1.len() == s2.len(),
        forall|i: int| 0 <= i < s1.len() ==> s1[i].width == s2[i].width && s1[i].height == s2[i].height,
    ensures
        sum_w(s1, k) == sum_w(s2, k),
        max_h(s1, k) == max_h(s2, k),
    decreases k,
{
    if k > 0 {
        lemma_sizes_agree(s1, s2, k - 1);
    }
}

/// A row's layout depends on its children's sizes only, not on where they stood before.
pub proof fn lemma_layout_ignores_positions(st: RowSettings, s1: Seq<WidgetData>, s2: Seq<WidgetData>)
    requires
        s1.len() == s2.len(),
        forall|i: int| 0 <= i < s1.len() ==> s1[i].width == s2[i].width && s1[i].height == s2[i].height,
    ensures
        row_layout(st, s1) == row_layout(st, s2),
{
    assert forall|k: int| 0 <= k <= s1.len() implies sum_w(s1, k) == sum_w(s2, k) && max_h(s1, k) == max_h(s2, k) by {
        lemma_sizes_agree(s1, s2, k);
    }
    lemma_sizes_agree(s1, s2, s1.len() as int);
    if row_layout(st, s1) is Ok {
        assert(row_layout(st, s1)->Ok_0.0 =~= row_layout(st, s2)->Ok_0.0);
    }
}

/// Under `CenteringHorizontal`, children wider together than the space inside the border
/// give a width-overflow error: the gap is never negative.
pub proof fn lemma_centering_overflow(st: RowSettings, s: Seq<WidgetData>)
    requires
        st.alignment == Alignment::CenteringHorizontal,
        s.len() > 0,
        sum_w(s, s.len() as int) > st.default_data.width - 2 * st.style.thickness(),
    ensures
        row_layout(st, s) == Err::<(Seq<Position>, WidgetData), RowError>(RowError::WidthOverflow),
{
}

/// Preparing a row twice in a row gives the same children and geometry as preparing once.
pub proof fn lemma_row_prepare_idempotent(st: RowSettings, c: Seq<Widget>)
    requires
        row_prepared(st, c) is Ok,
    ensures
        row_prepared(st, row_prepared(st, c)->Ok_0.0) == row_prepared(st, c),
{
    let n = c.len() as int;
    let pc = prepared_children(c);
    let (pos, d) = row_layout(st, children_data(pc))->Ok_0;
    let c1 = row_prepared(st, c)->Ok_0.0;
    assert(c1 == Seq::new(c.len(), |i: int| pc[i].placed(pos[i])));
    assert forall|i: int| 0 <= i < n implies (#[trigger] c1[i]).prepare_fits() && c1[i].prepared() == c1[i]
        && c1[i].view_data().width == pc[i].view_data().width && c1[i].view_data().height == pc[i].view_data().height
        && c1[i].placed(pos[i]) == c1[i] by {
        assert(c[i].prepare_fits());
        c[i].lemma_prepare_facts(pos[i]);
        pc[i].lemma_prepare_facts(pos[i]);
    }
    assert(!(exists|i: int| 0 <= i < n && !(#[trigger] c1[i].prepare_fits())));
    let pc1 = prepared_children(c1);
    assert(pc1 =~= c1);
    lemma_layout_ignores_positions(st, children_data(pc1), children_data(pc));
    assert(row_prepared(st, c1)->Ok_0.0 =~= c1);
}

impl WidgetStyled for Row {
    open spec fn style_view(&self) -> Style {
        self.view_settings().style
    }

    fn style(&self) -> (s: &Style) {
        &self.settings.style
    }
}

/// The settings with the anchor moved to `p`.
pub open spec fn anchored(st: RowSettings, p: Position) -> RowSettings {
    RowSettings { default_data: WidgetData { position: p, ..st.default_data }, ..st }
}

/// A row's width does not depend on where it is anchored.
pub proof fn lemma_layout_width_anchor_free(st: RowSettings, p: Position, s: Seq<WidgetData>)
    requires
        row_layout(st, s) is Ok,
        row_layout(anchored(st, p), s) is Ok,
    ensures
        row_layout(anchored(st, p), s)->Ok_0.1.width == row_layout(st, s)->Ok_0.1.width,
        row_layout(anchored(st, p), s)->Ok_0.1.height == row_layout(st, s)->Ok_0.1.height,
{
}

/// Preparing a prepared row again at another anchor keeps its width and height.
pub proof fn lemma_reprepare_keeps_size(st: RowSettings, p: Position, c: Seq<Widget>)
    requires
        row_prepared(st, c) is Ok,
        row_prepared(anchored(st, p), row_prepared(st, c)->Ok_0.0) is Ok,
    ensures
        row_prepared(anchored(st, p), row_prepared(st, c)->Ok_0.0)->Ok_0.1.width == row_prepared(st, c)->Ok_0.1.width,
        row_prepared(anchored(st, p), row_prepared(st, c)->Ok_0.0)->Ok_0.1.height == row_prepared(st, c)->Ok_0.1.height,
{
    let n = c.len() as int;
    let pc = prepared_children(c);
    let (pos, d) = row_layout(st, children_data(pc))->Ok_0;
    let c1 = row_prepared(st, c)->Ok_0.0;
    assert(c1 == Seq::new(c.len(), |i: int| pc[i].placed(pos[i])));
    assert forall|i: int| 0 <= i < n implies (#[trigger] c1[i]).prepare_fits() && c1[i].prepared() == c1[i]
        && c1[i].view_data().width == pc[i].view_data().width && c1[i].view_data().height == pc[i].view_data().height by {
        assert(c[i].prepare_fits());
        c[i].lemma_prepare_facts(pos[i]);
        pc[i].lemma_prepare_facts(pos[i]);
    }
    let pc1 = prepared_children(c1);
    assert(pc1 =~= c1);
    lemma_layout_ignores_positions(anchored(st, p), children_data(pc1), children_data(pc));
    lemma_layout_width_anchor_free(st, p, children_data(pc));
}

} // verus!
