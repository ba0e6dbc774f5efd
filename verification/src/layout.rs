use vstd::prelude::*;
use ratatui::layout::{Constraint, Direction, Layout, Rect};

verus! {

/// A rectangle of terminal cells: its top-left corner and its size.
#[derive(Clone, Copy, Debug, PartialEq, Eq, Structural)]
pub struct Area {
    pub x: u16,
    pub y: u16,
    pub width: u16,
    pub height: u16,
}

/// The direction in which an area is cut into parts.
#[derive(Clone, Copy, Debug, PartialEq, Eq, Structural)]
pub enum Axis {
    /// Parts side by side, from left to right.
    Horizontal,
    /// Parts one above the other, from top to bottom.
    Vertical,
}

/// What one part of a cut asks for along the cut's direction.
#[derive(Clone, Copy, Debug, PartialEq, Eq, Structural)]
pub enum Size {
    /// Exactly this many cells.
    Length(u16),
    /// At least this many cells.
    Min(u16),
    /// This percentage of the area.
    Percentage(u16),
}

/// Whether `part` spans the whole of `area` across the direction `axis`:
/// the full height for side-by-side parts, the full width for stacked ones.
pub open spec fn spans_across(axis: Axis, part: Area, area: Area) -> bool {
    match axis {
        Axis::Horizontal => part.y == area.y && part.height == area.height,
        Axis::Vertical => part.x == area.x && part.width == area.width,
    }
}

/// Whether `part` lies inside `area`.
pub open spec fn lies_within(part: Area, area: Area) -> bool {
    &&& area.x <= part.x
    &&& part.x + part.width <= area.x + area.width
    &&& area.y <= part.y
    &&& part.y + part.height <= area.y + area.height
}

/// Where `a` begins along `axis`.
pub open spec fn start_of(axis: Axis, a: Area) -> int {
    match axis {
        Axis::Horizontal => a.x as int,
        Axis::Vertical => a.y as int,
    }
}

/// How many cells `a` covers along `axis`.
pub open spec fn extent(axis: Axis, a: Area) -> int {
    match axis {
        Axis::Horizontal => a.width as int,
        Axis::Vertical => a.height as int,
    }
}

/// Where `a` ends along `axis` (the first cell past it).
pub open spec fn end_of(axis: Axis, a: Area) -> int {
    start_of(axis, a) + extent(axis, a)
}

/// Whether there are at most three sizes, every one a length or a minimum, at
/// least one a minimum, and every minimum at most 32767 (the largest value of
/// the signed 16-bit type that the layout holds minimums in).
pub open spec fn lengths_around_fill(sizes: Seq<Size>) -> bool {
    &&& sizes.len() <= 3
    &&& forall|i: int| 0 <= i < sizes.len() ==> !(#[trigger] sizes[i] is Percentage)
    &&& exists|i: int| 0 <= i < sizes.len() && #[trigger] sizes[i] is Min
    &&& forall|i: int| 0 <= i < sizes.len() && #[trigger] sizes[i] is Min ==> sizes[i]->Min_0 <= 32767
}

/// The cells asked for by lengths and minimums, together.
pub open spec fn cells_asked(sizes: Seq<Size>) -> int
    decreases sizes.len(),
{
    if sizes.len() == 0 {
        0
    } else {
        cells_asked(sizes.drop_last()) + match sizes.last() {
            Size::Length(n) => n as int,
            Size::Min(n) => n as int,
            Size::Percentage(_) => 0,
        }
    }
}

/// Whether there are at most three sizes, every one a percentage.
pub open spec fn all_percentages(sizes: Seq<Size>) -> bool {
    &&& sizes.len() <= 3
    &&& forall|i: int| 0 <= i < sizes.len() ==> #[trigger] sizes[i] is Percentage
}

/// The percentages asked for, together.
pub open spec fn percent_asked(sizes: Seq<Size>) -> int
    decreases sizes.len(),
{
    if sizes.len() == 0 {
        0
    } else {
        percent_asked(sizes.drop_last()) + match sizes.last() {
            Size::Percentage(p) => p as int,
            _ => 0,
        }
    }
}

/// Whether `cells` is less than one cell away from `percent` percent of `whole` cells.
pub open spec fn within_one_cell(cells: int, percent: int, whole: int) -> bool {
    -100 < cells * 100 - percent * whole < 100
}

/// `ratatui`'s `Layout::split` with its defaults (no margin, no spacing,
/// parts packed from the start): cuts `area` along `axis` into one part per
/// entry of `sizes`, in order. The split solves a weighted linear system in
/// which every boundary lies, as a hard constraint, between the area's start
/// and end; the leading gap and the gaps between parts are held at zero with
/// the heaviest soft weights; lengths and minimums weigh more than
/// percentages, which weigh more than the trailing gap's wish to grow, and a
/// minimum's wish to fill the area weighs more than that gap's. Boundaries
/// are rounded to whole cells. Which of several equally good solutions comes
/// out depends on hash-map order inside the solver, so the result gets no
/// name. What holds of every solution:
/// - one part per size, each spanning the whole area across the cut and
///   lying inside it;
/// - the first part starts where the area starts, and each part starts where
///   the one before it ends;
/// - when there are at most three sizes, all lengths and minimums with at
///   least one minimum, no minimum above 32767 (minimums are held as signed
///   16-bit values), fitting together in the area (whose far edge is a valid
///   coordinate): each length part is exactly that long, each minimum part at
///   least that long, and the last part ends where the area ends;
/// - when there are at most three sizes, all percentages adding up to at most
///   100 (far edge valid as above): each part is less than one cell away from
///   its percentage of the area.
#[verifier::external_body]
fn split_area(axis: Axis, sizes: &Vec<Size>, area: Area) -> (parts: Vec<Area>)
    ensures
        parts.len() == sizes.len(),
        forall|i: int| 0 <= i < parts.len() ==> spans_across(axis, #[trigger] parts[i], area),
        forall|i: int| 0 <= i < parts.len() ==> lies_within(#[trigger] parts[i], area),
        parts.len() > 0 ==> start_of(axis, parts[0]) == start_of(axis, area),
        forall|i: int|
            1 <= i < parts.len() ==> start_of(axis, #[trigger] parts[i]) == end_of(axis, parts[i - 1]),
        (lengths_around_fill(sizes@) && end_of(axis, area) <= u16::MAX && cells_asked(sizes@) <= extent(axis, area))
            ==> {
            &&& forall|i: int|
                0 <= i < parts.len() && sizes@[i] is Length ==> extent(axis, #[trigger] parts[i]) == sizes@[i]->Length_0
            &&& forall|i: int|
                0 <= i < parts.len() && sizes@[i] is Min ==> extent(axis, #[trigger] parts[i]) >= sizes@[i]->Min_0
            &&& parts.len() > 0 ==> end_of(axis, parts[parts.len() - 1]) == end_of(axis, area)
        },
        (all_percentages(sizes@) && percent_asked(sizes@) <= 100 && end_of(axis, area) <= u16::MAX)
            ==> forall|i: int|
            0 <= i < parts.len() ==> within_one_cell(
                extent(axis, #[trigger] parts[i]),
                sizes@[i]->Percentage_0 as int,
                extent(axis, area),
            ),
{
    let direction = match axis {
        Axis::Horizontal => Direction::Horizontal,
        Axis::Vertical => Direction::Vertical,
    };
    let constraints: Vec<Constraint> = sizes.iter().map(|s| match *s {
        Size::Length(n) => Constraint::Length(n),
        Size::Min(n) => Constraint::Min(n),
        Size::Percentage(n) => Constraint::Percentage(n),
    }).collect();
    let rect = Rect { x: area.x, y: area.y, width: area.width, height: area.height };
    let rects = Layout::default().direction(direction).constraints(constraints).split(rect);
    rects.iter().map(|r| Area { x: r.x, y: r.y, width: r.width, height: r.height }).collect()
}

/// The cut of the whole screen: a three-row header, a body of at least ten
/// rows, a three-row footer.
pub open spec fn frame_sizes() -> Seq<Size> {
    seq![Size::Length(3), Size::Min(10), Size::Length(3)]
}

/// Cuts the screen into a header at the top, the body, and a footer at the
/// bottom, stacked edge to edge, each as wide as the screen and inside it.
/// Once the screen has room for the header, the footer and ten rows of body,
/// the header and the footer are three rows each and the body takes the rest.
pub fn frame_areas(screen: Area) -> (r: (Area, Area, Area))
    ensures
        lies_within(r.0, screen),
        lies_within(r.1, screen),
        lies_within(r.2, screen),
        spans_across(Axis::Vertical, r.0, screen),
        spans_across(Axis::Vertical, r.1, screen),
        spans_across(Axis::Vertical, r.2, screen),
        r.0.y == screen.y,
        r.1.y == r.0.y + r.0.height,
        r.2.y == r.1.y + r.1.height,
        (screen.height >= 16 && screen.y + screen.height <= u16::MAX) ==> {
            &&& r.0.height == 3
            &&& r.2.height == 3
            &&& r.1.height == screen.height - 6
        },
{
    let sizes = vec![Size::Length(3), Size::Min(10), Size::Length(3)];
    proof {
        assert(sizes@[1] is Min);
        assert(lengths_around_fill(sizes@));
        reveal_with_fuel(cells_asked, 4);
        assert(sizes@.drop_last().drop_last().drop_last() =~= Seq::<Size>::empty());
        assert(cells_asked(sizes@) == 16);
    }
    let parts = split_area(Axis::Vertical, &sizes, screen);
    proof {
        assert(start_of(Axis::Vertical, parts@[1]) == end_of(Axis::Vertical, parts@[0]));
        assert(start_of(Axis::Vertical, parts@[2]) == end_of(Axis::Vertical, parts@[1]));
    }
    (parts[0], parts[1], parts[2])
}

/// The cut that centres a part of `p` percent: equal margins of
/// `(100 - p) / 2` percent on both sides.
pub open spec fn centering_sizes(p: u16) -> Seq<Size> {
    let margin = ((100 - p) / 2) as u16;
    seq![Size::Percentage(margin), Size::Percentage(p), Size::Percentage(margin)]
}

/// The cut that centres a part of `p` percent.
pub fn centering(p: u16) -> (r: Vec<Size>)
    requires
        p <= 100,
    ensures
        r@ == centering_sizes(p),
{
    let margin = (100 - p) / 2;
    let r = vec![Size::Percentage(margin), Size::Percentage(p), Size::Percentage(margin)];
    assert(r@ =~= centering_sizes(p));
    r
}

/// The width of each margin that centres a part of `p` percent, in percent.
pub open spec fn margin_percent(p: u16) -> int {
    (100 - p) / 2
}

/// A rectangle of `percent_x` by `percent_y` percent of `area`, centred in it:
/// the middle row of a vertical cut by [`centering_sizes`]`(percent_y)`, then
/// the middle column of a horizontal cut of that row by
/// [`centering_sizes`]`(percent_x)`, the three parts of each cut lying edge to
/// edge from the area's start. It lies inside `area`; when the area's far
/// edges are valid coordinates, its offset from the area's corner and its size
/// are each less than one cell away from the margin's and the part's
/// percentage of the area.
pub fn centered_rect(percent_x: u16, percent_y: u16, area: Area) -> (r: Area)
    requires
        percent_x <= 100,
        percent_y <= 100,
    ensures
        lies_within(r, area),
        (area.x + area.width <= u16::MAX && area.y + area.height <= u16::MAX) ==> {
            &&& within_one_cell(r.x - area.x, margin_percent(percent_x), area.width as int)
            &&& within_one_cell(r.width as int, percent_x as int, area.width as int)
            &&& within_one_cell(r.y - area.y, margin_percent(percent_y), area.height as int)
            &&& within_one_cell(r.height as int, percent_y as int, area.height as int)
        },
{
    let row_sizes = centering(percent_y);
    let column_sizes = centering(percent_x);
    proof {
        centering_is_percentages(percent_y);
        centering_is_percentages(percent_x);
    }
    let rows = split_area(Axis::Vertical, &row_sizes, area);
    let columns = split_area(Axis::Horizontal, &column_sizes, rows[1]);
    proof {
        assert(spans_across(Axis::Vertical, rows@[1], area));
        assert(spans_across(Axis::Horizontal, columns@[1], rows@[1]));
        assert(lies_within(rows@[1], area));
        assert(lies_within(columns@[1], rows@[1]));
        assert(start_of(Axis::Vertical, rows@[1]) == end_of(Axis::Vertical, rows@[0]));
        assert(start_of(Axis::Horizontal, columns@[1]) == end_of(Axis::Horizontal, columns@[0]));
        if area.x + area.width <= u16::MAX && area.y + area.height <= u16::MAX {
        }
    }
    columns[1]
}

/// The centring cut asks for percentages only, adding up to at most 100.
proof fn centering_is_percentages(p: u16)
    requires
        p <= 100,
    ensures
        all_percentages(centering_sizes(p)),
        percent_asked(centering_sizes(p)) <= 100,
        centering_sizes(p)[0]->Percentage_0 == margin_percent(p),
        centering_sizes(p)[1]->Percentage_0 == p,
{
    let s = centering_sizes(p);
    reveal_with_fuel(percent_asked, 4);
    assert(s.drop_last().drop_last().drop_last() =~= Seq::<Size>::empty());
    assert(s.drop_last().drop_last() =~= seq![s[0]]);
    assert(s.drop_last() =~= seq![s[0], s[1]]);
}

} // verus!
