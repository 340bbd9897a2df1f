//! The layout engine: from a schedule description to exact pixel geometry.
//!
//! All horizontal quantities derived from the timeline are held in 1/62-pixel
//! units (62 units = 1 pixel): a month column of `d` days under a maximal
//! month width of `w` pixels is `w * d / 31` pixels, exactly `2 * w * d`
//! units, and elapsed days scale the same way.  Whole-pixel quantities
//! (gutters, row heights) are plain pixel counts.

use crate::chart::{
    lemma_shadow_budget_mono, spec_chart_in_range, spec_dates_ok, spec_durations_ok,
    spec_shadow_budget, ChartData, ItemData, LayoutError,
};
use crate::color::{
    push_resource_styles, spec_resource_styles, spec_strings_view, HUE_DENOM,
};
use crate::date::{
    add_days, day_number, lemma_day_number_bounds, num_days_in_month, skip_weekend_start,
    spec_date_plus, spec_day_number, spec_month_len, spec_shadow_duration, spec_skip_weekend,
    spec_valid_date, weekend_adjusted_duration, Date, DAY_NUMBER_MAX,
};
use vstd::arithmetic::div_mod::lemma_fundamental_div_mod_converse;
use vstd::pervasive::unreached;
use vstd::prelude::*;
use vstd::string::StringExecFns;

verus! {

/// A four-sided inset, in whole pixels.
#[derive(Clone, Copy, PartialEq, Eq, Structural, Debug)]
pub struct Gutter {
    pub left: u32,
    pub top: u32,
    pub right: u32,
    pub bottom: u32,
}

impl Gutter {
    /// The vertical extent the inset adds: top plus bottom.
    pub fn height(&self) -> (r: u32)
        requires
            self.top + self.bottom <= u32::MAX,
        ensures
            r == self.top + self.bottom,
    {
        self.top + self.bottom
    }

    /// The horizontal extent the inset adds: left plus right.
    pub fn width(&self) -> (r: u32)
        requires
            self.left + self.right <= u32::MAX,
        ensures
            r == self.left + self.right,
    {
        self.left + self.right
    }
}

/// How a row is drawn: a bar with a length in 1/62-pixel units, or a
/// milestone diamond.
#[derive(Clone, Copy, PartialEq, Eq, Structural, Debug)]
pub enum RowKind {
    Bar(i64),
    Milestone,
}

/// One laid-out row: its title, legend color index, x-offset in 1/62-pixel
/// units, bar-or-milestone shape, and open flag.
pub struct RowRenderData {
    pub title: String,
    pub resource_index: usize,
    pub offset: i64,
    pub kind: RowKind,
    pub open: bool,
}

/// One month column: its width in 1/62-pixel units and its label.
pub struct ColumnRenderData {
    pub width: i64,
    pub month_name: String,
}

/// The fully resolved geometry and style model, built once per run.
pub struct RenderData {
    pub title: String,
    pub gutter: Gutter,
    pub row_gutter: Gutter,
    pub row_height: u32,
    pub resource_gutter: Gutter,
    pub resource_height: u32,
    pub marked_date_offset: Option<i64>,
    pub title_width: u32,
    pub max_month_width: u32,
    pub rect_corner_radius: u32,
    pub styles: Vec<String>,
    pub cols: Vec<ColumnRenderData>,
    pub rows: Vec<RowRenderData>,
    pub resources: Vec<String>,
}

/// The state of the date-range scan after some prefix of the items: the
/// running date, the best (weekend-skipped) project start, and the furthest
/// date reached.
pub struct ScanState {
    pub date: Option<Date>,
    pub start: Option<Date>,
    pub end: Option<Date>,
}

/// A date out of an `Option`, defaulting to the first representable day.
pub open spec fn spec_opt_date(o: Option<Date>) -> Date {
    match o {
        Some(d) => d,
        None => Date { year: 1, month: 1, day: 1 },
    }
}

/// One step of the date-range scan over a single item.
pub open spec fn spec_scan_step(st: ScanState, item: ItemData) -> ScanState {
    let date0 = if item.start_date is Some {
        item.start_date
    } else {
        st.date
    };
    let start1 = match item.start_date {
        Some(s) => if st.start is None || spec_day_number(s) < spec_day_number(st.start->0) {
            Some(spec_skip_weekend(s))
        } else {
            st.start
        },
        None => st.start,
    };
    let date1 = match item.duration {
        Some(dur) => match date0 {
            Some(a) => Some(spec_date_plus(a, spec_shadow_duration(a, dur as int) as nat)),
            None => None,
        },
        None => date0,
    };
    let end1 = match date1 {
        Some(d) => if st.end is None || spec_day_number(st.end->0) < spec_day_number(d) {
            Some(d)
        } else {
            st.end
        },
        None => st.end,
    };
    ScanState { date: date1, start: start1, end: end1 }
}

/// The scan state after the first `k` items.
pub open spec fn spec_scan(items: Seq<ItemData>, k: int) -> ScanState
    decreases k,
{
    if k <= 0 {
        ScanState { date: None, start: None, end: None }
    } else {
        spec_scan_step(spec_scan(items, k - 1), items[k - 1])
    }
}

/// The date item `i` starts at: its own explicit date, or the running date
/// the scan carries into it.
pub open spec fn spec_anchor(items: Seq<ItemData>, i: int) -> Option<Date> {
    if items[i].start_date is Some {
        items[i].start_date
    } else {
        spec_scan(items, i).date
    }
}

/// The weekend-adjusted duration of item `i`, `None` for a milestone.
pub open spec fn spec_shadow(items: Seq<ItemData>, i: int) -> Option<int> {
    match items[i].duration {
        Some(dur) => match spec_anchor(items, i) {
            Some(a) => Some(spec_shadow_duration(a, dur as int)),
            None => None,
        },
        None => None,
    }
}

/// The first resource-index error at or after item `i`: an out-of-range
/// index, or a first item with no index at all.
pub open spec fn spec_first_res_err(items: Seq<ItemData>, n_res: int, i: int) -> Option<
    LayoutError,
>
    decreases items.len() - i,
{
    if i < 0 || i >= items.len() {
        None
    } else if items[i].resource_index is Some && items[i].resource_index->0 >= n_res {
        Some(LayoutError::ResourceIndexOutOfRange)
    } else if i == 0 && items[0].resource_index is None {
        Some(LayoutError::MissingAnchor)
    } else {
        spec_first_res_err(items, n_res, i + 1)
    }
}

/// The error the layout engine reports for a schedule, `None` when the
/// schedule is accepted: too few items first, then a first item without a
/// start date, then resource-index faults in item order.
pub open spec fn spec_layout_error(items: Seq<ItemData>, n_res: int) -> Option<LayoutError> {
    if items.len() < 2 {
        Some(LayoutError::TooFewItems)
    } else if items[0].start_date is None {
        Some(LayoutError::MissingAnchor)
    } else {
        spec_first_res_err(items, n_res, 0)
    }
}

/// The project start: the earliest explicit start date seen by the scan,
/// weekend-skipped.
pub open spec fn spec_project_start(items: Seq<ItemData>) -> Date {
    spec_opt_date(spec_scan(items, items.len() as int).start)
}

/// The project end: the furthest the running date reaches.
pub open spec fn spec_project_end(items: Seq<ItemData>) -> Date {
    spec_opt_date(spec_scan(items, items.len() as int).end)
}

/// The project start snapped down to the first day of its month.
pub open spec fn spec_start_norm(items: Seq<ItemData>) -> Date {
    let ps = spec_project_start(items);
    Date { year: ps.year, month: ps.month, day: 1 }
}

/// The project end snapped up to the last day of its month.
pub open spec fn spec_end_norm(items: Seq<ItemData>) -> Date {
    let pe = spec_project_end(items);
    Date {
        year: pe.year,
        month: pe.month,
        day: spec_month_len(pe.year as int, pe.month as int) as u32,
    }
}

/// Months since the calendar epoch of the month holding `d`.
pub open spec fn spec_month_index(d: Date) -> int {
    12 * d.year + d.month - 1
}

/// How many month columns span from the start month to the end month.
pub open spec fn spec_num_cols(start: Date, end: Date) -> int {
    if spec_month_index(start) <= spec_month_index(end) {
        spec_month_index(end) - spec_month_index(start) + 1
    } else {
        0
    }
}

/// The year of the `j`-th month column.
pub open spec fn spec_col_year(start: Date, j: int) -> int {
    (spec_month_index(start) + j) / 12
}

/// The month (1-12) of the `j`-th month column.
pub open spec fn spec_col_month(start: Date, j: int) -> int {
    (spec_month_index(start) + j) % 12 + 1
}

/// The width of the `j`-th column in 1/62-pixel units: exactly
/// `max_month_width * days_in_month / 31` pixels.
pub open spec fn spec_col_width(start: Date, mmw: int, j: int) -> int {
    2 * mmw * spec_month_len(spec_col_year(start, j), spec_col_month(start, j))
}

/// The month label of month `m`.
pub open spec fn spec_month_name(m: int) -> Seq<char> {
    if m == 1 {
        "Jan"@
    } else if m == 2 {
        "Feb"@
    } else if m == 3 {
        "Mar"@
    } else if m == 4 {
        "Apr"@
    } else if m == 5 {
        "May"@
    } else if m == 6 {
        "Jun"@
    } else if m == 7 {
        "Jul"@
    } else if m == 8 {
        "Aug"@
    } else if m == 9 {
        "Sep"@
    } else if m == 10 {
        "Oct"@
    } else if m == 11 {
        "Nov"@
    } else {
        "Dec"@
    }
}

/// The resource index in force at item `i`: the item's own, or the most
/// recent explicit one, or 0 before any.
pub open spec fn spec_res_at(items: Seq<ItemData>, i: int) -> int
    decreases i,
{
    match items[i].resource_index {
        Some(r) => r as int,
        None => if i <= 0 {
            0
        } else {
            spec_res_at(items, i - 1)
        },
    }
}

/// The x-offset, in 1/62-pixel units, of a bar or marker anchored `elapsed`
/// days after the normalized project start: the title column and left gutter,
/// plus the elapsed days scaled by `max_month_width / 31` pixels per day.
pub open spec fn spec_x_offset(tw: int, mmw: int, elapsed: int) -> int {
    62 * (tw + 10) + 2 * mmw * elapsed
}

/// The spec-level view of one laid-out row.
pub struct RowSpec {
    pub title: Seq<char>,
    pub resource_index: int,
    pub offset: int,
    pub length: Option<int>,
    pub open: bool,
}

/// The laid-out row the engine owes for item `i`.
pub open spec fn spec_row(items: Seq<ItemData>, tw: int, mmw: int, i: int) -> RowSpec {
    let anchor = spec_opt_date(spec_anchor(items, i));
    let elapsed = spec_day_number(anchor) - spec_day_number(spec_start_norm(items));
    RowSpec {
        title: items[i].title@,
        resource_index: spec_res_at(items, i),
        offset: spec_x_offset(tw, mmw, elapsed),
        length: match spec_shadow(items, i) {
            Some(sd) => Some(2 * mmw * sd),
            None => None,
        },
        open: match items[i].open {
            Some(b) => b,
            None => false,
        },
    }
}

/// The view of an executable row.
pub open spec fn spec_row_view(r: RowRenderData) -> RowSpec {
    RowSpec {
        title: r.title@,
        resource_index: r.resource_index as int,
        offset: r.offset as int,
        length: match r.kind {
            RowKind::Bar(l) => Some(l as int),
            RowKind::Milestone => None,
        },
        open: r.open,
    }
}

/// The marker offset the engine owes: the marked date laid onto the same
/// timeline as the rows.
pub open spec fn spec_marked_offset(chart: &ChartData, tw: int, mmw: int) -> Option<int> {
    match chart.marked_date {
        Some(d) => Some(
            spec_x_offset(
                tw,
                mmw,
                spec_day_number(d) - spec_day_number(spec_start_norm(chart.items@)),
            ),
        ),
        None => None,
    }
}

/// An `Option<i64>` as a mathematical option.
pub open spec fn spec_opt_int(o: Option<i64>) -> Option<int> {
    match o {
        Some(v) => Some(v as int),
        None => None,
    }
}

/// The nine structural style rules every chart carries.
pub open spec fn spec_fixed_styles() -> Seq<Seq<char>> {
    seq![
        ".outer-lines{ stroke-width:3; stroke:#aaaaaa;}"@,
        ".inner-lines{ stroke-width:2; stroke:#dddddd;}"@,
        ".item{font-family:Arial; font-size:12pt; dominant-baseline:middle;}"@,
        ".resource{font-family:Arial; font-size:12pt; text-anchor:end; dominant-baseline:middle;}"@,
        ".title{font-family:Arial; font-size:18pt;}"@,
        ".heading{font-family:Arial; font-size:16pt; dominant-baseline:middle; text-anchor:middle;}"@,
        ".task-heading{dominant-baseline:middle; text-anchor:start;}"@,
        ".milestone{fill:black;stroke-width:1;stroke:black;}"@,
        ".marker{stroke-width:2; stroke:#888888; stroke-dasharray:7;}"@,
    ]
}

/// Everything the layout engine promises of an accepted schedule's geometry.
pub open spec fn spec_geometry_ok(
    r: &RenderData,
    chart: &ChartData,
    tw: u32,
    mmw: u32,
    seed: u32,
) -> bool {
    let items = chart.items@;
    let sn = spec_start_norm(items);
    let en = spec_end_norm(items);
    &&& r.title@ == chart.title@
    &&& r.gutter == (Gutter { left: 10, top: 80, right: 10, bottom: 10 })
    &&& r.row_gutter == (Gutter { left: 5, top: 5, right: 5, bottom: 5 })
    &&& r.row_height == 30
    &&& r.resource_gutter == (Gutter { left: 10, top: 10, right: 10, bottom: 10 })
    &&& r.resource_height == 40
    &&& r.rect_corner_radius == 3
    &&& r.title_width == tw
    &&& r.max_month_width == mmw
    &&& r.cols@.len() == spec_num_cols(sn, en)
    &&& forall|j: int|
        0 <= j < r.cols@.len() ==> (#[trigger] r.cols@[j]).width == spec_col_width(
            sn,
            mmw as int,
            j,
        ) && r.cols@[j].month_name@ == spec_month_name(spec_col_month(sn, j))
    &&& r.rows@.len() == items.len()
    &&& forall|i: int|
        0 <= i < items.len() ==> spec_row_view(#[trigger] r.rows@[i]) == spec_row(
            items,
            tw as int,
            mmw as int,
            i,
        )
    &&& spec_opt_int(r.marked_date_offset) == spec_marked_offset(chart, tw as int, mmw as int)
    &&& spec_strings_view(r.styles@) == spec_fixed_styles() + spec_resource_styles(
        seed as int,
        chart.resources@.len() as int,
    )
    &&& spec_strings_view(r.resources@) == spec_strings_view(chart.resources@)
}

/// The field bounds under which the renderer's pixel arithmetic fits in 64
/// bits.  The layout engine establishes them for every model it returns.
pub open spec fn spec_render_in_range(c: &RenderData) -> bool {
    &&& c.gutter.left <= 100_000 && c.gutter.top <= 100_000 && c.gutter.right <= 100_000
        && c.gutter.bottom <= 100_000
    &&& c.row_gutter.left <= 100_000 && c.row_gutter.top <= 100_000 && c.row_gutter.right
        <= 100_000 && c.row_gutter.bottom <= 100_000
    &&& c.resource_gutter.left <= 100_000 && c.resource_gutter.top <= 100_000
        && c.resource_gutter.right <= 100_000 && c.resource_gutter.bottom <= 100_000
    &&& c.row_height <= 100_000
    &&& c.resource_height <= 100_000
    &&& c.rect_corner_radius <= 100_000
    &&& c.title_width <= 1_000_000
    &&& c.max_month_width <= 1_000_000
    &&& c.cols@.len() <= 200_000
    &&& forall|j: int| 0 <= j < c.cols@.len() ==> 0 <= (#[trigger] c.cols@[j]).width <= 62_000_000
    &&& c.rows@.len() <= 100_000_000
    &&& forall|i: int|
        0 <= i < c.rows@.len() ==> -7_304_178_000_620 <= (#[trigger] c.rows@[i]).offset
            <= 7_304_178_000_620 && (match c.rows@[i].kind {
            RowKind::Bar(l) => 0 <= l <= 7_304_116_000_000,
            RowKind::Milestone => true,
        })
    &&& match c.marked_date_offset {
        Some(v) => -7_304_178_000_620 <= v <= 7_304_178_000_620,
        None => true,
    }
    &&& c.resources@.len() <= 10_000_000
}

/// What `layout` returns: the schedule's first fault, or a geometry model
/// meeting `spec_geometry_ok`.
pub open spec fn spec_layout_result(
    r: &Result<RenderData, LayoutError>,
    chart: &ChartData,
    tw: u32,
    mmw: u32,
    seed: u32,
) -> bool {
    match r {
        Ok(g) => spec_layout_error(chart.items@, chart.resources@.len() as int) is None
            && spec_geometry_ok(g, chart, tw, mmw, seed) && spec_render_in_range(g),
        Err(e) => spec_layout_error(chart.items@, chart.resources@.len() as int) == Some(*e),
    }
}

/// Validates the schedule and scans the items once, in order: the result is
/// the schedule's first fault, or the project start and end dates together
/// with each item's weekend-adjusted duration for reuse by the row pass.
fn scan_items(items: &Vec<ItemData>, n_res: usize) -> (r: Result<
    (Date, Date, Vec<Option<i64>>),
    LayoutError,
>)
    requires
        spec_durations_ok(items@),
        spec_dates_ok(items@),
    ensures
        match r {
            Ok(out) => {
                &&& spec_layout_error(items@, n_res as int) is None
                &&& items@.len() >= 2
                &&& items@[0].start_date is Some
                &&& spec_scan(items@, items@.len() as int).start is Some
                &&& spec_scan(items@, items@.len() as int).end is Some
                &&& out.0 == spec_project_start(items@)
                &&& out.1 == spec_project_end(items@)
                &&& spec_valid_date(out.0)
                &&& spec_valid_date(out.1)
                &&& out.2@.len() == items@.len()
                &&& forall|j: int|
                    0 <= j < items@.len() ==> spec_opt_int(#[trigger] out.2@[j]) == spec_shadow(
                        items@,
                        j,
                    ) && (out.2@[j] is Some ==> 0 <= out.2@[j]->0 <= DAY_NUMBER_MAX)
            },
            Err(e) => spec_layout_error(items@, n_res as int) == Some(e),
        },
{
    let n = items.len();
    if n < 2 {
        return Err(LayoutError::TooFewItems);
    }
    let mut date: Option<Date> = None;
    let mut start: Option<Date> = None;
    let mut end: Option<Date> = None;
    let mut shadows: Vec<Option<i64>> = Vec::new();
    let mut i: usize = 0;
    while i < n
        invariant
            n == items@.len(),
            2 <= n,
            i <= n,
            spec_durations_ok(items@),
            spec_dates_ok(items@),
            (ScanState { date: date, start: start, end: end }) == spec_scan(items@, i as int),
            shadows@.len() == i,
            forall|j: int|
                0 <= j < i ==> spec_opt_int(#[trigger] shadows@[j]) == spec_shadow(items@, j) && (
                shadows@[j] is Some ==> 0 <= shadows@[j]->0 <= DAY_NUMBER_MAX),
            i >= 1 ==> items@[0].start_date is Some && date is Some && start is Some
                && end is Some,
            match date {
                Some(d) => spec_valid_date(d) && spec_day_number(d) + spec_shadow_budget(
                    items@,
                    i as int,
                ) <= DAY_NUMBER_MAX,
                None => true,
            },
            match start {
                Some(s) => spec_valid_date(s),
                None => true,
            },
            match end {
                Some(e) => spec_valid_date(e),
                None => true,
            },
            spec_first_res_err(items@, n_res as int, 0) == spec_first_res_err(
                items@,
                n_res as int,
                i as int,
            ),
        decreases n - i,
    {
        let ghost st_old = ScanState { date: date, start: start, end: end };
        proof {
            lemma_shadow_budget_mono(items@, 0, i as int);
            lemma_shadow_budget_mono(items@, i as int, i as int + 1);
        }
        if let Some(s) = items[i].start_date {
            date = Some(s);
            proof {
                assert(items@[i as int].start_date == Some(s));
                lemma_day_number_bounds(s);
            }
            let s_dn = day_number(&s);
            let better = match &start {
                None => true,
                Some(st0) => s_dn < day_number(st0),
            };
            if better {
                start = Some(skip_weekend_start(&s));
            }
        } else if i == 0 {
            return Err(LayoutError::MissingAnchor);
        }
        if let Some(dur) = items[i].duration {
            proof {
                assert(items@[i as int].duration == Some(dur));
            }
            let a: Date = match &date {
                Some(d) => *d,
                None => unreached(),
            };
            let sd = weekend_adjusted_duration(&a, dur as u64);
            proof {
                lemma_day_number_bounds(a);
            }
            let nd = add_days(&a, sd);
            date = Some(nd);
            shadows.push(Some(sd as i64));
        } else {
            shadows.push(None);
        }
        let cur: Date = match &date {
            Some(d) => *d,
            None => unreached(),
        };
        let upd_end = match &end {
            None => true,
            Some(e0) => day_number(e0) < day_number(&cur),
        };
        if upd_end {
            end = Some(cur);
        }
        proof {
            assert((ScanState { date: date, start: start, end: end }) == spec_scan_step(
                st_old,
                items@[i as int],
            ));
            assert(spec_scan(items@, i + 1) == spec_scan_step(st_old, items@[i as int]));
        }
        if let Some(ri) = items[i].resource_index {
            if ri >= n_res {
                return Err(LayoutError::ResourceIndexOutOfRange);
            }
        } else if i == 0 {
            return Err(LayoutError::MissingAnchor);
        }
        i = i + 1;
    }
    let ps = match start {
        Some(d) => d,
        None => unreached(),
    };
    let pe = match end {
        Some(d) => d,
        None => unreached(),
    };
    Ok((ps, pe, shadows))
}

/// The label of month `m`.
fn month_name(m: u32) -> (r: &'static str)
    requires
        1 <= m <= 12,
    ensures
        r@ == spec_month_name(m as int),
{
    if m == 1 {
        "Jan"
    } else if m == 2 {
        "Feb"
    } else if m == 3 {
        "Mar"
    } else if m == 4 {
        "Apr"
    } else if m == 5 {
        "May"
    } else if m == 6 {
        "Jun"
    } else if m == 7 {
        "Jul"
    } else if m == 8 {
        "Aug"
    } else if m == 9 {
        "Sep"
    } else if m == 10 {
        "Oct"
    } else if m == 11 {
        "Nov"
    } else {
        "Dec"
    }
}

/// Builds one column per calendar month from the start month through the end
/// month, each as wide as `max_month_width * days / 31` pixels.
fn build_cols(sn: Date, en: Date, mmw: u32) -> (r: Vec<ColumnRenderData>)
    requires
        spec_valid_date(sn),
        spec_valid_date(en),
        mmw <= 1_000_000,
    ensures
        r@.len() == spec_num_cols(sn, en),
        forall|j: int|
            0 <= j < r@.len() ==> (#[trigger] r@[j]).width == spec_col_width(sn, mmw as int, j)
                && r@[j].month_name@ == spec_month_name(spec_col_month(sn, j)) && 0 <= r@[j].width
                <= 62_000_000,
{
    let mut cols: Vec<ColumnRenderData> = Vec::new();
    let mut cy: u32 = sn.year;
    let mut cm: u32 = sn.month;
    let end_idx: u32 = 12 * en.year + en.month - 1;
    let mut j: usize = 0;
    while 12 * cy + cm - 1 <= end_idx
        invariant
            spec_valid_date(sn),
            spec_valid_date(en),
            mmw <= 1_000_000,
            end_idx == spec_month_index(en),
            1 <= cm <= 12,
            12 * cy + cm - 1 == spec_month_index(sn) + j,
            j <= spec_num_cols(sn, en),
            cols@.len() == j,
            forall|k: int|
                0 <= k < j ==> (#[trigger] cols@[k]).width == spec_col_width(sn, mmw as int, k)
                    && cols@[k].month_name@ == spec_month_name(spec_col_month(sn, k)) && 0
                    <= cols@[k].width <= 62_000_000,
        decreases spec_num_cols(sn, en) - j,
    {
        let dim = num_days_in_month(cy, cm);
        let w: i64 = 2 * (mmw as i64) * (dim as i64);
        cols.push(ColumnRenderData { width: w, month_name: String::from_str(month_name(cm)) });
        proof {
            lemma_fundamental_div_mod_converse(
                spec_month_index(sn) + j,
                12,
                cy as int,
                cm as int - 1,
            );
            assert(spec_col_year(sn, j as int) == cy);
            assert(spec_col_month(sn, j as int) == cm);
        }
        if cm == 12 {
            cy = cy + 1;
            cm = 1;
        } else {
            cm = cm + 1;
        }
        j = j + 1;
    }
    cols
}

/// The running date of the row pass before item `i`: the normalized project
/// start, reset by explicit start dates and advanced by shadow durations.
pub open spec fn spec_pass2_date(items: Seq<ItemData>, sn: Date, i: int) -> Date
    decreases i,
{
    if i <= 0 {
        sn
    } else {
        let prev = spec_pass2_date(items, sn, i - 1);
        let d0 = if items[i - 1].start_date is Some {
            items[i - 1].start_date->0
        } else {
            prev
        };
        match spec_shadow(items, i - 1) {
            Some(sd) => spec_date_plus(d0, sd as nat),
            None => d0,
        }
    }
}

/// After the first item, the row pass's running date retraces the range
/// scan's running date exactly, whatever it started from.
proof fn lemma_pass2_date(items: Seq<ItemData>, sn: Date, i: int)
    requires
        items.len() >= 1,
        items[0].start_date is Some,
        1 <= i <= items.len(),
    ensures
        spec_scan(items, i).date is Some,
        spec_pass2_date(items, sn, i) == spec_scan(items, i).date->0,
    decreases i,
{
    if i > 1 {
        lemma_pass2_date(items, sn, i - 1);
    }
}

/// Builds the laid-out rows: one per item, in item order, with carry-forward
/// start dates and resource indices.
fn build_rows(
    items: &Vec<ItemData>,
    shadows: &Vec<Option<i64>>,
    sn: Date,
    tw: u32,
    mmw: u32,
) -> (r: Vec<RowRenderData>)
    requires
        spec_durations_ok(items@),
        spec_dates_ok(items@),
        items@.len() >= 1,
        items@[0].start_date is Some,
        sn == spec_start_norm(items@),
        spec_valid_date(sn),
        shadows@.len() == items@.len(),
        forall|j: int|
            0 <= j < items@.len() ==> spec_opt_int(#[trigger] shadows@[j]) == spec_shadow(items@, j)
                && (shadows@[j] is Some ==> 0 <= shadows@[j]->0 <= DAY_NUMBER_MAX),
        tw <= 1_000_000,
        mmw <= 1_000_000,
    ensures
        r@.len() == items@.len(),
        forall|i: int|
            0 <= i < items@.len() ==> spec_row_view(#[trigger] r@[i]) == spec_row(
                items@,
                tw as int,
                mmw as int,
                i,
            ) && -7_304_178_000_620 <= (#[trigger] r@[i]).offset <= 7_304_178_000_620 && (match r@[
                i
            ].kind {
                RowKind::Bar(l) => 0 <= l <= 7_304_116_000_000,
                RowKind::Milestone => true,
            }),
{
    let n = items.len();
    proof {
        lemma_day_number_bounds(sn);
    }
    let sn_dn = day_number(&sn);
    let mut cur: Date = sn;
    let mut res: usize = 0;
    let mut rows: Vec<RowRenderData> = Vec::new();
    let mut i: usize = 0;
    while i < n
        invariant
            n == items@.len(),
            n >= 1,
            i <= n,
            spec_durations_ok(items@),
            spec_dates_ok(items@),
            items@[0].start_date is Some,
            sn == spec_start_norm(items@),
            spec_valid_date(sn),
            sn_dn == spec_day_number(sn),
            sn_dn <= DAY_NUMBER_MAX,
            shadows@.len() == n,
            forall|j: int|
                0 <= j < n ==> spec_opt_int(#[trigger] shadows@[j]) == spec_shadow(items@, j) && (
                shadows@[j] is Some ==> 0 <= shadows@[j]->0 <= DAY_NUMBER_MAX),
            tw <= 1_000_000,
            mmw <= 1_000_000,
            cur == spec_pass2_date(items@, sn, i as int),
            spec_valid_date(cur),
            i >= 1 ==> spec_day_number(cur) + spec_shadow_budget(items@, i as int)
                <= DAY_NUMBER_MAX,
            res as int == if i == 0 {
                0
            } else {
                spec_res_at(items@, i - 1)
            },
            rows@.len() == i,
            forall|k: int|
                0 <= k < i ==> spec_row_view(#[trigger] rows@[k]) == spec_row(
                    items@,
                    tw as int,
                    mmw as int,
                    k,
                ) && -7_304_178_000_620 <= (#[trigger] rows@[k]).offset <= 7_304_178_000_620 && (
                match rows@[k].kind {
                    RowKind::Bar(l) => 0 <= l <= 7_304_116_000_000,
                    RowKind::Milestone => true,
                }),
        decreases n - i,
    {
        proof {
            lemma_shadow_budget_mono(items@, 0, i as int);
            lemma_shadow_budget_mono(items@, i as int, i as int + 1);
            if i >= 1 {
                lemma_pass2_date(items@, sn, i as int);
            }
        }
        let date0: Date = if let Some(s) = items[i].start_date {
            proof {
                assert(items@[i as int].start_date == Some(s));
            }
            s
        } else {
            cur
        };
        proof {
            assert(date0 == spec_opt_date(spec_anchor(items@, i as int)));
            assert(spec_valid_date(date0));
            if items@[i as int].start_date is Some {
                assert(spec_day_number(date0) + 2 + spec_shadow_budget(items@, 0)
                    <= DAY_NUMBER_MAX);
            }
            assert(spec_day_number(date0) + spec_shadow_budget(items@, i as int)
                <= DAY_NUMBER_MAX);
            lemma_day_number_bounds(date0);
        }
        let d0n = day_number(&date0);
        let diff: i64 = (d0n as i64) - (sn_dn as i64);
        proof {
            assert(2 * (mmw as int) * (diff as int) <= 7304116000000 && 2 * (mmw as int) * (
            diff as int) >= -7304116000000) by (nonlinear_arith)
                requires
                    mmw <= 1_000_000,
                    -3652058 <= diff <= 3652058,
            ;
        }
        let offset: i64 = 62 * ((tw as i64) + 10) + 2 * (mmw as i64) * diff;
        let kind: RowKind;
        if let Some(sd) = shadows[i] {
            proof {
                assert(shadows@[i as int] == Some(sd));
                assert(spec_shadow(items@, i as int) == Some(sd as int));
                assert(0 <= 2 * (mmw as int) * (sd as int) <= 7304116000000) by (nonlinear_arith)
                    requires
                        mmw <= 1_000_000,
                        0 <= sd <= 3652058,
                ;
            }
            let length: i64 = 2 * (mmw as i64) * sd;
            cur = add_days(&date0, sd as u64);
            kind = RowKind::Bar(length);
        } else {
            proof {
                assert(shadows@[i as int] is None);
            }
            cur = date0;
            kind = RowKind::Milestone;
        }
        if let Some(ri) = items[i].resource_index {
            proof {
                assert(items@[i as int].resource_index == Some(ri));
            }
            res = ri;
        }
        let row = RowRenderData {
            title: items[i].title.clone(),
            resource_index: res,
            offset: offset,
            kind: kind,
            open: items[i].open.unwrap_or(false),
        };
        rows.push(row);
        i = i + 1;
        proof {
            assert(spec_row_view(rows@[i - 1]) == spec_row(items@, tw as int, mmw as int, i - 1));
            assert(cur == spec_pass2_date(items@, sn, i as int));
        }
    }
    rows
}

/// A scan that found a project start found it as the weekend-skipped form of
/// some item's explicit start date.
proof fn lemma_scan_start_from(items: Seq<ItemData>, k: int)
    requires
        spec_scan(items, k).start is Some,
    ensures
        exists|i: int|
            0 <= i < k && (#[trigger] items[i].start_date) is Some && spec_scan(items, k).start->0
                == spec_skip_weekend(items[i].start_date->0),
    decreases k,
{
    if k > 0 {
        let st = spec_scan(items, k - 1);
        let stepped = spec_scan_step(st, items[k - 1]);
        if items[k - 1].start_date is Some && (st.start is None || spec_day_number(
            items[k - 1].start_date->0,
        ) < spec_day_number(st.start->0)) {
            assert(items[k - 1].start_date is Some && stepped.start->0 == spec_skip_weekend(
                items[k - 1].start_date->0,
            ));
        } else {
            lemma_scan_start_from(items, k - 1);
        }
    }
}

/// A weekend skip moves a date forward by at most two days.
proof fn lemma_skip_weekend_bounds(d: Date)
    requires
        spec_valid_date(d),
        spec_day_number(d) + 2 <= DAY_NUMBER_MAX,
    ensures
        spec_valid_date(spec_skip_weekend(d)),
        spec_day_number(d) <= spec_day_number(spec_skip_weekend(d)) <= spec_day_number(d) + 2,
{
    crate::date::lemma_date_plus(d, 2);
    crate::date::lemma_date_plus(d, 1);
}

/// Lays out a schedule: validates it, scans the date range, and produces the
/// full geometry and style model — month columns proportional to month
/// lengths, weekend-adjusted bar offsets and lengths, an optional marked-date
/// offset, and two style rules per resource colored from the hue seed.
pub fn layout(title_width: u32, max_month_width: u32, seed: u32, chart: &ChartData) -> (r: Result<
    RenderData,
    LayoutError,
>)
    requires
        spec_chart_in_range(chart),
        title_width <= 1_000_000,
        max_month_width <= 1_000_000,
        seed < HUE_DENOM,
    ensures
        spec_layout_result(&r, chart, title_width, max_month_width, seed),
{
    let scanned = match scan_items(&chart.items, chart.resources.len()) {
        Ok(t) => t,
        Err(e) => {
            return Err(e);
        },
    };
    let ps = scanned.0;
    let pe = scanned.1;
    let shadows = scanned.2;
    let sn = Date { year: ps.year, month: ps.month, day: 1 };
    let en = Date { year: pe.year, month: pe.month, day: num_days_in_month(pe.year, pe.month) };
    proof {
        assert(spec_valid_date(sn));
        assert(spec_valid_date(en));
        lemma_day_number_bounds(ps);
    }
    let cols = build_cols(sn, en, max_month_width);
    proof {
        let items = chart.items@;
        lemma_scan_start_from(items, items.len() as int);
        let w = choose|i: int|
            0 <= i < items.len() && (#[trigger] items[i].start_date) is Some && spec_scan(
                items,
                items.len() as int,
            ).start->0 == spec_skip_weekend(items[i].start_date->0);
        let sdate = items[w].start_date->0;
        assert(spec_valid_date(sdate) && spec_day_number(sdate) + 2 + spec_shadow_budget(items, 0)
            <= DAY_NUMBER_MAX);
        lemma_shadow_budget_mono(items, 0, 0);
        lemma_skip_weekend_bounds(sdate);
        assert(spec_day_number(sn) + spec_shadow_budget(chart.items@, 0) <= DAY_NUMBER_MAX);
    }
    let rows = build_rows(&chart.items, &shadows, sn, title_width, max_month_width);
    proof {
        lemma_day_number_bounds(sn);
    }
    let sn_dn = day_number(&sn);
    let marked_date_offset: Option<i64> = match &chart.marked_date {
        Some(d) => {
            let mdn = day_number(d);
            let diff: i64 = (mdn as i64) - (sn_dn as i64);
            proof {
                assert(2 * (max_month_width as int) * (diff as int) <= 7304116000000 && 2 * (
                max_month_width as int) * (diff as int) >= -7304116000000) by (nonlinear_arith)
                    requires
                        max_month_width <= 1_000_000,
                        -3652058 <= diff <= 3652058,
                ;
            }
            Some(62 * ((title_width as i64) + 10) + 2 * (max_month_width as i64) * diff)
        },
        None => None,
    };
    let mut styles: Vec<String> = Vec::new();
    styles.push(String::from_str(".outer-lines{ stroke-width:3; stroke:#aaaaaa;}"));
    styles.push(String::from_str(".inner-lines{ stroke-width:2; stroke:#dddddd;}"));
    styles.push(String::from_str(".item{font-family:Arial; font-size:12pt; dominant-baseline:middle;}"));
    styles.push(String::from_str(".resource{font-family:Arial; font-size:12pt; text-anchor:end; dominant-baseline:middle;}"));
    styles.push(String::from_str(".title{font-family:Arial; font-size:18pt;}"));
    styles.push(String::from_str(".heading{font-family:Arial; font-size:16pt; dominant-baseline:middle; text-anchor:middle;}"));
    styles.push(String::from_str(".task-heading{dominant-baseline:middle; text-anchor:start;}"));
    styles.push(String::from_str(".milestone{fill:black;stroke-width:1;stroke:black;}"));
    styles.push(String::from_str(".marker{stroke-width:2; stroke:#888888; stroke-dasharray:7;}"));
    proof {
        assert(spec_strings_view(styles@) =~= spec_fixed_styles());
    }
    push_resource_styles(&mut styles, seed, chart.resources.len());
    let n_res = chart.resources.len();
    let mut resources: Vec<String> = Vec::new();
    let mut k: usize = 0;
    while k < n_res
        invariant
            n_res == chart.resources@.len(),
            k <= n_res,
            resources@.len() == k,
            forall|j: int| 0 <= j < k ==> (#[trigger] resources@[j])@ == chart.resources@[j]@,
        decreases n_res - k,
    {
        resources.push(chart.resources[k].clone());
        k = k + 1;
    }
    proof {
        assert(spec_strings_view(resources@) =~= spec_strings_view(chart.resources@));
    }
    let out = RenderData {
        title: chart.title.clone(),
        gutter: Gutter { left: 10, top: 80, right: 10, bottom: 10 },
        row_gutter: Gutter { left: 5, top: 5, right: 5, bottom: 5 },
        row_height: 30,
        resource_gutter: Gutter { left: 10, top: 10, right: 10, bottom: 10 },
        resource_height: 40,
        marked_date_offset: marked_date_offset,
        title_width: title_width,
        max_month_width: max_month_width,
        rect_corner_radius: 3,
        styles: styles,
        cols: cols,
        rows: rows,
        resources: resources,
    };
    Ok(out)
}

} // verus!
