use ratatui::layout as tui;

use vstd::prelude::*;

verus! {

/// A screen rectangle in terminal cells.
#[derive(Clone, Copy, Debug, PartialEq, Eq, Structural)]
pub struct Rect {
    pub x: u16,
    pub y: u16,
    pub width: u16,
    pub height: u16,
}

/// The axis along which an area is split.
#[derive(Clone, Copy, Debug, PartialEq, Eq, Structural)]
pub enum Direction {
    Horizontal,
    Vertical,
}

/// How much of the split axis a part asks for.
#[derive(Clone, Copy, Debug, PartialEq, Eq, Structural)]
pub enum Constraint {
    Length(u16),
    Min(u16),
    Percentage(u16),
}

/// Where `r` starts along the split axis.
pub open spec fn axis_start(r: Rect, d: Direction) -> int {
    match d {
        Direction::Horizontal => r.x as int,
        Direction::Vertical => r.y as int,
    }
}

/// Where `r` ends along the split axis.
pub open spec fn axis_end(r: Rect, d: Direction) -> int {
    match d {
        Direction::Horizontal => r.x + r.width,
        Direction::Vertical => r.y + r.height,
    }
}

/// The last cell boundary of `area` along `d` that a `u16` can hold.
pub open spec fn area_limit(area: Rect, d: Direction) -> int {
    if axis_end(area, d) > u16::MAX { u16::MAX as int } else { axis_end(area, d) }
}

/// `inner` lies inside `outer`.
pub open spec fn contains(outer: Rect, inner: Rect) -> bool {
    &&& outer.x <= inner.x
    &&& inner.x + inner.width <= outer.x + outer.width
    &&& outer.y <= inner.y
    &&& inner.y + inner.height <= outer.y + outer.height
}

/// `a` and `b` share no cell.
pub open spec fn disjoint(a: Rect, b: Rect) -> bool {
    ||| a.x + a.width <= b.x
    ||| b.x + b.width <= a.x
    ||| a.y + a.height <= b.y
    ||| b.y + b.height <= a.y
}

/// Relies on ratatui's `Layout::split` (default margin, flex and spacing):
/// one part per constraint, each spanning `area` across the split direction.
/// Where the parts lie along the split comes from ratatui's constraint solver,
/// which this library does not pin down.
#[verifier::external_body]
fn solve_layout(direction: Direction, constraints: &Vec<Constraint>, area: Rect) -> (r: Vec<Rect>)
    ensures
        r@.len() == constraints@.len(),
        forall|i: int| 0 <= i < r@.len() ==> spans_across(area, direction, #[trigger] r@[i]),
{
    let dir = match direction {
        Direction::Horizontal => tui::Direction::Horizontal,
        Direction::Vertical => tui::Direction::Vertical,
    };
    let cs = constraints.iter().map(|c| match *c {
        Constraint::Length(n) => tui::Constraint::Length(n),
        Constraint::Min(n) => tui::Constraint::Min(n),
        Constraint::Percentage(n) => tui::Constraint::Percentage(n),
    });
    let a = tui::Rect { x: area.x, y: area.y, width: area.width, height: area.height };
    let parts = tui::Layout::default().direction(dir).constraints(cs).split(a);
    parts.iter().map(|p| Rect { x: p.x, y: p.y, width: p.width, height: p.height }).collect()
}

/// `part` covers `area`'s full extent across `d`.
pub open spec fn spans_across(area: Rect, d: Direction, part: Rect) -> bool {
    match d {
        Direction::Horizontal => part.y == area.y && part.height == area.height,
        Direction::Vertical => part.x == area.x && part.width == area.width,
    }
}

pub open spec fn clamp_between(v: int, lo: int, hi: int) -> int {
    if v < lo { lo } else if v > hi { hi } else { v }
}

/// `part` moved into `area` along `d`, starting no earlier than `floor`, and
/// given `area`'s extent across `d`.
pub open spec fn fit_one(area: Rect, d: Direction, part: Rect, floor: int) -> Rect {
    let lim = area_limit(area, d);
    let s = clamp_between(axis_start(part, d), floor, lim);
    let e = clamp_between(axis_end(part, d), s, lim);
    match d {
        Direction::Horizontal => Rect { x: s as u16, y: area.y, width: (e - s) as u16, height: area.height },
        Direction::Vertical => Rect { x: area.x, y: s as u16, width: area.width, height: (e - s) as u16 },
    }
}

/// `r` is `parts` fitted one by one into `area` along `d`, each starting no
/// earlier than the end of the one before it.
pub open spec fn fitted(area: Rect, d: Direction, parts: Seq<Rect>, r: Seq<Rect>) -> bool {
    &&& r.len() == parts.len()
    &&& forall|i: int|
        0 <= i < r.len() ==> #[trigger] r[i] == fit_one(
            area,
            d,
            parts[i],
            if i == 0 { axis_start(area, d) } else { axis_end(r[i - 1], d) },
        )
}

/// Every rectangle of `r` lies inside `area` and spans it across `d`, and they
/// follow each other along `d` without overlapping.
pub open spec fn partitioned(area: Rect, d: Direction, r: Seq<Rect>) -> bool {
    &&& forall|i: int| 0 <= i < r.len() ==> contains(area, #[trigger] r[i])
    &&& forall|i: int| 0 <= i < r.len() ==> spans_across(area, d, #[trigger] r[i])
    &&& forall|i: int, j: int|
        0 <= i < j < r.len() ==> axis_end(#[trigger] r[i], d) <= axis_start(#[trigger] r[j], d)
}

/// `r` is what splitting `area` along `d` into `n` parts gives: some `n` parts,
/// fitted into `area`.
pub open spec fn laid_out(area: Rect, d: Direction, n: nat, r: Seq<Rect>) -> bool {
    &&& r.len() == n
    &&& exists|parts: Seq<Rect>| parts.len() == n && #[trigger] fitted(area, d, parts, r)
    &&& partitioned(area, d, r)
}

/// Fits `parts` into `area` along `direction`: each is clamped into `area`,
/// made to start no earlier than the end of the one before it, and given
/// `area`'s extent across `direction`.
pub fn fit_parts(area: Rect, direction: Direction, parts: &Vec<Rect>) -> (r: Vec<Rect>)
    ensures
        fitted(area, direction, parts@, r@),
        partitioned(area, direction, r@),
{
    let horizontal = match direction {
        Direction::Horizontal => true,
        Direction::Vertical => false,
    };
    let area_start: u32 = if horizontal { area.x as u32 } else { area.y as u32 };
    let area_end: u32 = if horizontal { area.x as u32 + area.width as u32 } else { area.y as u32 + area.height as u32 };
    let lim: u32 = if area_end > 65535 { 65535 } else { area_end };
    let mut floor: u32 = area_start;
    let mut r: Vec<Rect> = Vec::new();
    let mut i: usize = 0;
    while i < parts.len()
        invariant
            i <= parts@.len(),
            r@.len() == i,
            horizontal == (direction == Direction::Horizontal),
            area_start == axis_start(area, direction),
            lim == area_limit(area, direction),
            area_start <= floor <= lim,
            i == 0 ==> floor == area_start,
            i > 0 ==> floor == axis_end(r@[i - 1], direction),
            forall|k: int|
                0 <= k < i ==> #[trigger] r@[k] == fit_one(
                    area,
                    direction,
                    parts@[k],
                    if k == 0 { axis_start(area, direction) } else { axis_end(r@[k - 1], direction) },
                ),
            forall|k: int| 0 <= k < i ==> contains(area, #[trigger] r@[k]),
            forall|k: int| 0 <= k < i ==> spans_across(area, direction, #[trigger] r@[k]),
            forall|k: int, j: int| 0 <= k < j < i ==> axis_end(#[trigger] r@[k], direction) <= axis_start(#[trigger] r@[j], direction),
            forall|k: int| 0 <= k < i ==> axis_end(#[trigger] r@[k], direction) <= floor,
        decreases parts@.len() - i,
    {
        let p = parts[i];
        let ps: u32 = if horizontal { p.x as u32 } else { p.y as u32 };
        let pe: u32 = if horizontal { p.x as u32 + p.width as u32 } else { p.y as u32 + p.height as u32 };
        let s: u32 = if ps < floor { floor } else if ps > lim { lim } else { ps };
        let e: u32 = if pe < s { s } else if pe > lim { lim } else { pe };
        let fitted = if horizontal {
            Rect { x: s as u16, y: area.y, width: (e - s) as u16, height: area.height }
        } else {
            Rect { x: area.x, y: s as u16, width: area.width, height: (e - s) as u16 }
        };
        r.push(fitted);
        floor = e;
        i += 1;
    }
    r
}

/// Splits `area` along `direction` by `constraints`: ratatui's solver places
/// one part per constraint, and each is fitted inside `area` after the one
/// before it, so that they never overlap and never leave `area`.
pub fn split(area: Rect, direction: Direction, constraints: &Vec<Constraint>) -> (r: Vec<Rect>)
    ensures
        laid_out(area, direction, constraints@.len(), r@),
{
    let parts = solve_layout(direction, constraints, area);
    let r = fit_parts(area, direction, &parts);
    assert(fitted(area, direction, parts@, r@));
    r
}

fn constraints2(a: Constraint, b: Constraint) -> (r: Vec<Constraint>)
    ensures
        r@ == seq![a, b],
{
    let mut r: Vec<Constraint> = Vec::new();
    r.push(a);
    r.push(b);
    r
}

fn constraints3(a: Constraint, b: Constraint, c: Constraint) -> (r: Vec<Constraint>)
    ensures
        r@ == seq![a, b, c],
{
    let mut r = constraints2(a, b);
    r.push(c);
    r
}

/// The screen's panels: the leaves that are drawn, and the regions between
/// them (`body`, `main`, `lower`, `details`, `quote_block`).
#[derive(Clone, Copy, Debug)]
pub struct Panels {
    pub body: Rect,
    pub main: Rect,
    pub lower: Rect,
    pub details: Rect,
    pub quote_block: Rect,
    pub header: Rect,
    pub banner: Rect,
    pub user: Rect,
    pub watchlist: Rect,
    pub quote: Rect,
    pub gauge: Rect,
    pub chart: Rect,
    pub news: Rect,
    pub sidebar: Rect,
    pub footer: Rect,
}

impl Panels {
    /// The arrangement that `plan` gives for `area`.
    pub open spec fn arranged(&self, area: Rect) -> bool {
        &&& laid_out(area, Direction::Vertical, 4, seq![self.header, self.banner, self.body, self.footer])
        &&& laid_out(self.body, Direction::Horizontal, 2, seq![self.main, self.sidebar])
        &&& laid_out(self.main, Direction::Vertical, 2, seq![self.user, self.lower])
        &&& laid_out(self.lower, Direction::Horizontal, 2, seq![self.watchlist, self.details])
        &&& laid_out(self.details, Direction::Vertical, 3, seq![self.quote_block, self.chart, self.news])
        &&& laid_out(self.quote_block, Direction::Horizontal, 2, seq![self.quote, self.gauge])
        &&& self.pairwise_disjoint()
        &&& forall|i: int| 0 <= i < self.leaves().len() ==> contains(area, #[trigger] self.leaves()[i])
        &&& forall|i: int, j: int|
            0 <= i < self.leaves().len() && 0 <= j < self.leaves().len() && i != j ==> disjoint(
                #[trigger] self.leaves()[i],
                #[trigger] self.leaves()[j],
            )
    }

    /// No two panels share a cell.
    pub open spec fn pairwise_disjoint(&self) -> bool {
        &&& disjoint(self.header, self.banner) && disjoint(self.banner, self.header)
        &&& disjoint(self.header, self.user) && disjoint(self.user, self.header)
        &&& disjoint(self.header, self.watchlist) && disjoint(self.watchlist, self.header)
        &&& disjoint(self.header, self.quote) && disjoint(self.quote, self.header)
        &&& disjoint(self.header, self.gauge) && disjoint(self.gauge, self.header)
        &&& disjoint(self.header, self.chart) && disjoint(self.chart, self.header)
        &&& disjoint(self.header, self.news) && disjoint(self.news, self.header)
        &&& disjoint(self.header, self.sidebar) && disjoint(self.sidebar, self.header)
        &&& disjoint(self.header, self.footer) && disjoint(self.footer, self.header)
        &&& disjoint(self.banner, self.user) && disjoint(self.user, self.banner)
        &&& disjoint(self.banner, self.watchlist) && disjoint(self.watchlist, self.banner)
        &&& disjoint(self.banner, self.quote) && disjoint(self.quote, self.banner)
        &&& disjoint(self.banner, self.gauge) && disjoint(self.gauge, self.banner)
        &&& disjoint(self.banner, self.chart) && disjoint(self.chart, self.banner)
        &&& disjoint(self.banner, self.news) && disjoint(self.news, self.banner)
        &&& disjoint(self.banner, self.sidebar) && disjoint(self.sidebar, self.banner)
        &&& disjoint(self.banner, self.footer) && disjoint(self.footer, self.banner)
        &&& disjoint(self.user, self.watchlist) && disjoint(self.watchlist, self.user)
        &&& disjoint(self.user, self.quote) && disjoint(self.quote, self.user)
        &&& disjoint(self.user, self.gauge) && disjoint(self.gauge, self.user)
        &&& disjoint(self.user, self.chart) && disjoint(self.chart, self.user)
        &&& disjoint(self.user, self.news) && disjoint(self.news, self.user)
        &&& disjoint(self.user, self.sidebar) && disjoint(self.sidebar, self.user)
        &&& disjoint(self.user, self.footer) && disjoint(self.footer, self.user)
        &&& disjoint(self.watchlist, self.quote) && disjoint(self.quote, self.watchlist)
        &&& disjoint(self.watchlist, self.gauge) && disjoint(self.gauge, self.watchlist)
        &&& disjoint(self.watchlist, self.chart) && disjoint(self.chart, self.watchlist)
        &&& disjoint(self.watchlist, self.news) && disjoint(self.news, self.watchlist)
        &&& disjoint(self.watchlist, self.sidebar) && disjoint(self.sidebar, self.watchlist)
        &&& disjoint(self.watchlist, self.footer) && disjoint(self.footer, self.watchlist)
        &&& disjoint(self.quote, self.gauge) && disjoint(self.gauge, self.quote)
        &&& disjoint(self.quote, self.chart) && disjoint(self.chart, self.quote)
        &&& disjoint(self.quote, self.news) && disjoint(self.news, self.quote)
        &&& disjoint(self.quote, self.sidebar) && disjoint(self.sidebar, self.quote)
        &&& disjoint(self.quote, self.footer) && disjoint(self.footer, self.quote)
        &&& disjoint(self.gauge, self.chart) && disjoint(self.chart, self.gauge)
        &&& disjoint(self.gauge, self.news) && disjoint(self.news, self.gauge)
        &&& disjoint(self.gauge, self.sidebar) && disjoint(self.sidebar, self.gauge)
        &&& disjoint(self.gauge, self.footer) && disjoint(self.footer, self.gauge)
        &&& disjoint(self.chart, self.news) && disjoint(self.news, self.chart)
        &&& disjoint(self.chart, self.sidebar) && disjoint(self.sidebar, self.chart)
        &&& disjoint(self.chart, self.footer) && disjoint(self.footer, self.chart)
        &&& disjoint(self.news, self.sidebar) && disjoint(self.sidebar, self.news)
        &&& disjoint(self.news, self.footer) && disjoint(self.footer, self.news)
        &&& disjoint(self.sidebar, self.footer) && disjoint(self.footer, self.sidebar)
    }

    pub open spec fn leaves(&self) -> Seq<Rect> {
        seq![
            self.header,
            self.banner,
            self.user,
            self.watchlist,
            self.quote,
            self.gauge,
            self.chart,
            self.news,
            self.sidebar,
            self.footer,
        ]
    }
}

/// Two parts of one split are disjoint, since they follow each other.
proof fn lemma_ordered_disjoint(a: Rect, b: Rect, d: Direction)
    requires
        axis_end(a, d) <= axis_start(b, d),
    ensures
        disjoint(a, b),
        disjoint(b, a),
{
}

/// Parts inside two disjoint rectangles are disjoint.
proof fn lemma_inside_disjoint(a: Rect, b: Rect, c: Rect, d: Rect)
    requires
        disjoint(a, b),
        contains(a, c),
        contains(b, d),
    ensures
        disjoint(c, d),
        disjoint(d, c),
{
}

proof fn lemma_leaves_disjoint(area: Rect, p: Panels)
    requires
        p.pairwise_disjoint(),
        contains(area, p.header),
        contains(area, p.banner),
        contains(area, p.user),
        contains(area, p.watchlist),
        contains(area, p.quote),
        contains(area, p.gauge),
        contains(area, p.chart),
        contains(area, p.news),
        contains(area, p.sidebar),
        contains(area, p.footer),
    ensures
        forall|i: int| 0 <= i < p.leaves().len() ==> contains(area, #[trigger] p.leaves()[i]),
        forall|i: int, j: int|
            0 <= i < p.leaves().len() && 0 <= j < p.leaves().len() && i != j ==> disjoint(
                #[trigger] p.leaves()[i],
                #[trigger] p.leaves()[j],
            ),
{
    let l = p.leaves();
    assert forall|i: int, j: int|
        0 <= i < l.len() && 0 <= j < l.len() && i != j implies disjoint(
            #[trigger] l[i],
            #[trigger] l[j],
        ) by {
    }
}

/// The leaves of the split tree that `plan` builds lie inside the screen and
/// are pairwise disjoint.
proof fn lemma_plan_tree(
    area: Rect,
    t0: Rect,
    t1: Rect,
    t2: Rect,
    t3: Rect,
    b0: Rect,
    b1: Rect,
    m0: Rect,
    m1: Rect,
    l0: Rect,
    l1: Rect,
    d0: Rect,
    d1: Rect,
    d2: Rect,
    q0: Rect,
    q1: Rect,
)
    requires
        contains(area, t0),
        contains(area, t1),
        contains(area, t2),
        contains(area, t3),
        axis_end(t0, Direction::Vertical) <= axis_start(t1, Direction::Vertical),
        axis_end(t0, Direction::Vertical) <= axis_start(t2, Direction::Vertical),
        axis_end(t0, Direction::Vertical) <= axis_start(t3, Direction::Vertical),
        axis_end(t1, Direction::Vertical) <= axis_start(t2, Direction::Vertical),
        axis_end(t1, Direction::Vertical) <= axis_start(t3, Direction::Vertical),
        axis_end(t2, Direction::Vertical) <= axis_start(t3, Direction::Vertical),
        contains(t2, b0),
        contains(t2, b1),
        axis_end(b0, Direction::Horizontal) <= axis_start(b1, Direction::Horizontal),
        contains(b0, m0),
        contains(b0, m1),
        axis_end(m0, Direction::Vertical) <= axis_start(m1, Direction::Vertical),
        contains(m1, l0),
        contains(m1, l1),
        axis_end(l0, Direction::Horizontal) <= axis_start(l1, Direction::Horizontal),
        contains(l1, d0),
        contains(l1, d1),
        contains(l1, d2),
        axis_end(d0, Direction::Vertical) <= axis_start(d1, Direction::Vertical),
        axis_end(d0, Direction::Vertical) <= axis_start(d2, Direction::Vertical),
        axis_end(d1, Direction::Vertical) <= axis_start(d2, Direction::Vertical),
        contains(d0, q0),
        contains(d0, q1),
        axis_end(q0, Direction::Horizontal) <= axis_start(q1, Direction::Horizontal),
    ensures
        (Panels { header: t0, banner: t1, body: t2, footer: t3, main: b0, sidebar: b1, user: m0, lower: m1, watchlist: l0, details: l1, quote_block: d0, chart: d1, news: d2, quote: q0, gauge: q1 }).pairwise_disjoint(),
        contains(area, t0),
        contains(area, t1),
        contains(area, m0),
        contains(area, l0),
        contains(area, q0),
        contains(area, q1),
        contains(area, d1),
        contains(area, d2),
        contains(area, b1),
        contains(area, t3),
{
    assert(contains(t2, m0));
    assert(contains(area, m0));
    assert(contains(b0, l0));
    assert(contains(t2, l0));
    assert(contains(area, l0));
    assert(contains(l1, q0));
    assert(contains(m1, q0));
    assert(contains(b0, q0));
    assert(contains(t2, q0));
    assert(contains(area, q0));
    assert(contains(l1, q1));
    assert(contains(m1, q1));
    assert(contains(b0, q1));
    assert(contains(t2, q1));
    assert(contains(area, q1));
    assert(contains(m1, d1));
    assert(contains(b0, d1));
    assert(contains(t2, d1));
    assert(contains(area, d1));
    assert(contains(m1, d2));
    assert(contains(b0, d2));
    assert(contains(t2, d2));
    assert(contains(area, d2));
    assert(contains(area, b1));
    lemma_ordered_disjoint(t0, t1, Direction::Vertical);
    lemma_inside_disjoint(t0, t1, t0, t1);
    lemma_ordered_disjoint(t0, t2, Direction::Vertical);
    lemma_inside_disjoint(t0, t2, t0, m0);
    lemma_inside_disjoint(t0, t2, t0, l0);
    lemma_inside_disjoint(t0, t2, t0, q0);
    lemma_inside_disjoint(t0, t2, t0, q1);
    lemma_inside_disjoint(t0, t2, t0, d1);
    lemma_inside_disjoint(t0, t2, t0, d2);
    lemma_inside_disjoint(t0, t2, t0, b1);
    lemma_ordered_disjoint(t0, t3, Direction::Vertical);
    lemma_inside_disjoint(t0, t3, t0, t3);
    lemma_ordered_disjoint(t1, t2, Direction::Vertical);
    lemma_inside_disjoint(t1, t2, t1, m0);
    lemma_inside_disjoint(t1, t2, t1, l0);
    lemma_inside_disjoint(t1, t2, t1, q0);
    lemma_inside_disjoint(t1, t2, t1, q1);
    lemma_inside_disjoint(t1, t2, t1, d1);
    lemma_inside_disjoint(t1, t2, t1, d2);
    lemma_inside_disjoint(t1, t2, t1, b1);
    lemma_ordered_disjoint(t1, t3, Direction::Vertical);
    lemma_inside_disjoint(t1, t3, t1, t3);
    lemma_ordered_disjoint(m0, m1, Direction::Vertical);
    lemma_inside_disjoint(m0, m1, m0, l0);
    lemma_inside_disjoint(m0, m1, m0, q0);
    lemma_inside_disjoint(m0, m1, m0, q1);
    lemma_inside_disjoint(m0, m1, m0, d1);
    lemma_inside_disjoint(m0, m1, m0, d2);
    lemma_ordered_disjoint(b0, b1, Direction::Horizontal);
    lemma_inside_disjoint(b0, b1, m0, b1);
    lemma_ordered_disjoint(t2, t3, Direction::Vertical);
    lemma_inside_disjoint(t2, t3, m0, t3);
    lemma_ordered_disjoint(l0, l1, Direction::Horizontal);
    lemma_inside_disjoint(l0, l1, l0, q0);
    lemma_inside_disjoint(l0, l1, l0, q1);
    lemma_inside_disjoint(l0, l1, l0, d1);
    lemma_inside_disjoint(l0, l1, l0, d2);
    lemma_inside_disjoint(b0, b1, l0, b1);
    lemma_inside_disjoint(t2, t3, l0, t3);
    lemma_ordered_disjoint(q0, q1, Direction::Horizontal);
    lemma_inside_disjoint(q0, q1, q0, q1);
    lemma_ordered_disjoint(d0, d1, Direction::Vertical);
    lemma_inside_disjoint(d0, d1, q0, d1);
    lemma_ordered_disjoint(d0, d2, Direction::Vertical);
    lemma_inside_disjoint(d0, d2, q0, d2);
    lemma_inside_disjoint(b0, b1, q0, b1);
    lemma_inside_disjoint(t2, t3, q0, t3);
    lemma_inside_disjoint(d0, d1, q1, d1);
    lemma_inside_disjoint(d0, d2, q1, d2);
    lemma_inside_disjoint(b0, b1, q1, b1);
    lemma_inside_disjoint(t2, t3, q1, t3);
    lemma_ordered_disjoint(d1, d2, Direction::Vertical);
    lemma_inside_disjoint(d1, d2, d1, d2);
    lemma_inside_disjoint(b0, b1, d1, b1);
    lemma_inside_disjoint(t2, t3, d1, t3);
    lemma_inside_disjoint(b0, b1, d2, b1);
    lemma_inside_disjoint(t2, t3, d2, t3);
    lemma_inside_disjoint(t2, t3, b1, t3);
}

/// The screen partition: header, banner, body and footer stacked; the body
/// split 70/30 into main and sidebar; main into the settings panel and a lower
/// region split 45/55 into watchlist and details; details stacked into quote
/// block, chart and news; the quote block split 70/30 into text and day-range
/// gauge. Each region is laid out by `split` inside its parent; every panel
/// lies inside `area`, and no two panels overlap.
pub fn plan(area: Rect) -> (r: Panels)
    ensures
        r.arranged(area),
{
    let v = Direction::Vertical;
    let h = Direction::Horizontal;
    let mut top_cs = constraints3(Constraint::Length(3), Constraint::Length(2), Constraint::Min(10));
    top_cs.push(Constraint::Length(1));
    let top = split(area, v, &top_cs);
    let body = split(top[2], h, &constraints2(Constraint::Percentage(70), Constraint::Percentage(30)));
    let main = split(body[0], v, &constraints2(Constraint::Length(5), Constraint::Min(10)));
    let lower = split(main[1], h, &constraints2(Constraint::Percentage(45), Constraint::Percentage(55)));
    let details = split(
        lower[1],
        v,
        &constraints3(Constraint::Length(7), Constraint::Min(10), Constraint::Length(5)),
    );
    let quote = split(details[0], h, &constraints2(Constraint::Percentage(70), Constraint::Percentage(30)));
    let r = Panels {
        header: top[0],
        banner: top[1],
        body: top[2],
        footer: top[3],
        main: body[0],
        sidebar: body[1],
        user: main[0],
        lower: main[1],
        watchlist: lower[0],
        details: lower[1],
        quote_block: details[0],
        chart: details[1],
        news: details[2],
        quote: quote[0],
        gauge: quote[1],
    };
    proof {
        assert(top@ =~= seq![top[0], top[1], top[2], top[3]]);
        assert(body@ =~= seq![body[0], body[1]]);
        assert(main@ =~= seq![main[0], main[1]]);
        assert(lower@ =~= seq![lower[0], lower[1]]);
        assert(details@ =~= seq![details[0], details[1], details[2]]);
        assert(quote@ =~= seq![quote[0], quote[1]]);
        assert(contains(area, top[0]));
        assert(contains(area, top[1]));
        assert(contains(area, top[2]));
        assert(contains(area, top[3]));
        assert(axis_end(top[0], v) <= axis_start(top[1], v));
        assert(axis_end(top[0], v) <= axis_start(top[2], v));
        assert(axis_end(top[0], v) <= axis_start(top[3], v));
        assert(axis_end(top[1], v) <= axis_start(top[2], v));
        assert(axis_end(top[1], v) <= axis_start(top[3], v));
        assert(axis_end(top[2], v) <= axis_start(top[3], v));
        assert(contains(top[2], body[0]));
        assert(contains(top[2], body[1]));
        assert(axis_end(body[0], h) <= axis_start(body[1], h));
        assert(contains(body[0], main[0]));
        assert(contains(body[0], main[1]));
        assert(axis_end(main[0], v) <= axis_start(main[1], v));
        assert(contains(main[1], lower[0]));
        assert(contains(main[1], lower[1]));
        assert(axis_end(lower[0], h) <= axis_start(lower[1], h));
        assert(contains(lower[1], details[0]));
        assert(contains(lower[1], details[1]));
        assert(contains(lower[1], details[2]));
        assert(axis_end(details[0], v) <= axis_start(details[1], v));
        assert(axis_end(details[0], v) <= axis_start(details[2], v));
        assert(axis_end(details[1], v) <= axis_start(details[2], v));
        assert(contains(details[0], quote[0]));
        assert(contains(details[0], quote[1]));
        assert(axis_end(quote[0], h) <= axis_start(quote[1], h));
        lemma_plan_tree(area, top[0], top[1], top[2], top[3], body[0], body[1], main[0], main[1], lower[0], lower[1], details[0], details[1], details[2], quote[0], quote[1]);
        lemma_leaves_disjoint(area, r);
    }
    r
}

} // verus!
