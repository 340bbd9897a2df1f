//! Laws of the layout engine, stated and proved over the same specification
//! functions the executable contracts use.

use crate::chart::{
    lemma_shadow_budget_mono, spec_dates_ok, spec_durations_ok, spec_shadow_budget, ChartData,
    ItemData,
};
use crate::color::spec_strings_view;
use crate::date::{
    lemma_date_plus, lemma_day_number_bounds, lemma_days_before_year_step, lemma_days_in_year,
    spec_date_plus, spec_day_number, spec_days_before_month, spec_month_len,
    spec_shadow_duration, spec_valid_date, spec_weekday, Date, DAY_NUMBER_MAX, SATURDAY, SUNDAY,
};
use crate::render::{
    spec_col_markup, spec_cols_markup, spec_cols_sum, spec_legend_markup, spec_legends_markup,
    spec_marker_markup, spec_rendered_chart, spec_row_markup, spec_rows_markup,
};
use crate::layout::{
    spec_anchor, spec_col_month, spec_col_width, spec_col_year, spec_geometry_ok,
    spec_month_index, spec_num_cols, spec_opt_date, spec_row, spec_row_view, spec_scan,
    spec_shadow, spec_start_norm, RenderData,
};
use vstd::arithmetic::div_mod::{lemma_div_is_ordered, lemma_fundamental_div_mod_converse};
use vstd::prelude::*;

verus! {

/// Each laid-out column stands for one calendar month: the `j`-th column's
/// year and month are exactly `j` months after the normalized project start,
/// so the columns cover the normalized range with one column per month.
pub proof fn lemma_one_column_per_month(sn: Date, j: int)
    requires
        spec_valid_date(sn),
        0 <= j,
    ensures
        12 * spec_col_year(sn, j) + spec_col_month(sn, j) - 1 == spec_month_index(sn) + j,
        1 <= spec_col_month(sn, j) <= 12,
{
    vstd::arithmetic::div_mod::lemma_fundamental_div_mod(spec_month_index(sn) + j, 12);
    vstd::arithmetic::div_mod::lemma_mod_bound(spec_month_index(sn) + j, 12);
}

/// The first day of the `j`-th column's month.
pub open spec fn spec_month_first(sn: Date, j: int) -> Date {
    Date {
        year: spec_col_year(sn, j) as u32,
        month: spec_col_month(sn, j) as u32,
        day: 1,
    }
}

/// Stepping from one column's month to the next advances the day number by
/// exactly that month's length.  The dates here need not lie in the supported
/// year range: the day-number formula is total.
proof fn lemma_month_first_step(sn: Date, j: int)
    requires
        spec_valid_date(sn),
        0 <= j,
        spec_month_index(sn) + j + 1 <= 120_012,
    ensures
        spec_day_number(spec_month_first(sn, j + 1)) == spec_day_number(spec_month_first(sn, j))
            + spec_month_len(spec_col_year(sn, j), spec_col_month(sn, j)),
{
    lemma_one_column_per_month(sn, j);
    lemma_one_column_per_month(sn, j + 1);
    let y = spec_col_year(sn, j);
    let m = spec_col_month(sn, j);
    lemma_div_is_ordered(12, spec_month_index(sn) + j, 12);
    lemma_div_is_ordered(spec_month_index(sn) + j, 120_012, 12);
    lemma_div_is_ordered(12, spec_month_index(sn) + j + 1, 12);
    lemma_div_is_ordered(spec_month_index(sn) + j + 1, 120_012, 12);
    assert(1 <= y <= 10_001 && 1 <= spec_col_year(sn, j + 1) <= 10_001);
    if m < 12 {
        assert(spec_col_year(sn, j + 1) == y && spec_col_month(sn, j + 1) == m + 1);
        assert(spec_days_before_month(y, m + 1) == spec_days_before_month(y, m)
            + spec_month_len(y, m));
    } else {
        assert(spec_col_year(sn, j + 1) == y + 1 && spec_col_month(sn, j + 1) == 1);
        lemma_days_in_year(y);
        lemma_days_before_year_step(y);
    }
}

/// Column pixel widths sum to a value proportional to the total days in the
/// normalized range: with a maximal month width of `w` pixels, the widths of
/// the first `k` columns total `2 * w * d` units where `d` is the number of
/// days those months hold.
proof fn lemma_width_sum_days(c: &RenderData, chart: &ChartData, seed: u32, k: int)
    requires
        spec_geometry_ok(c, chart, c.title_width, c.max_month_width, seed),
        spec_valid_date(spec_start_norm(chart.items@)),
        spec_valid_date(crate::layout::spec_end_norm(chart.items@)),
        spec_month_index(spec_start_norm(chart.items@)) <= spec_month_index(
            crate::layout::spec_end_norm(chart.items@),
        ),
        0 <= k <= spec_num_cols(
            spec_start_norm(chart.items@),
            crate::layout::spec_end_norm(chart.items@),
        ),
        spec_month_index(spec_start_norm(chart.items@)) + k <= spec_month_index(
            crate::layout::spec_end_norm(chart.items@),
        ) + 1,
    ensures
        spec_cols_sum(c, k) == 2 * (c.max_month_width as int) * (spec_day_number(
            spec_month_first(spec_start_norm(chart.items@), k),
        ) - spec_day_number(spec_start_norm(chart.items@))),
    decreases k,
{
    let sn = spec_start_norm(chart.items@);
    let en = crate::layout::spec_end_norm(chart.items@);
    let mmw = c.max_month_width as int;
    lemma_fundamental_div_mod_converse(spec_month_index(sn), 12, sn.year as int, sn.month - 1);
    assert(sn.day == 1);
    assert(spec_month_first(sn, 0) == sn);
    if k > 0 {
        lemma_width_sum_days(c, chart, seed, k - 1);
        lemma_month_first_step(sn, k - 1);
        assert(c.cols@[k - 1].width == spec_col_width(sn, mmw, k - 1));
        let len = spec_month_len(spec_col_year(sn, k - 1), spec_col_month(sn, k - 1));
        let d0 = spec_day_number(spec_month_first(sn, k - 1)) - spec_day_number(sn);
        assert(spec_cols_sum(c, k) == spec_cols_sum(c, k - 1) + c.cols@[k - 1].width);
        assert(spec_cols_sum(c, k - 1) == 2 * mmw * d0);
        assert(c.cols@[k - 1].width == 2 * mmw * len);
        assert(spec_day_number(spec_month_first(sn, k)) - spec_day_number(sn) == d0 + len);
        assert(2 * mmw * (d0 + len) == 2 * mmw * d0 + 2 * mmw * len) by (nonlinear_arith);
        assert(spec_cols_sum(c, k) == 2 * mmw * (spec_day_number(spec_month_first(sn, k))
            - spec_day_number(sn)));
    } else {
        assert(k == 0);
        assert(spec_cols_sum(c, 0) == 0);
        assert(spec_day_number(spec_month_first(sn, 0)) - spec_day_number(sn) == 0);
        assert(2 * mmw * 0 == 0) by (nonlinear_arith);
    }
    assert(spec_cols_sum(c, k) == 2 * (c.max_month_width as int) * (spec_day_number(
        spec_month_first(spec_start_norm(chart.items@), k),
    ) - spec_day_number(spec_start_norm(chart.items@))));
}

/// The month after the end of a non-empty range starts one day past the
/// normalized end, even when that day falls outside the supported years.
proof fn lemma_last_month_first_valid(sn: Date, en: Date, k: int)
    requires
        spec_valid_date(sn),
        spec_valid_date(en),
        en.day == spec_month_len(en.year as int, en.month as int),
        1 <= k,
        spec_month_index(sn) + k == spec_month_index(en) + 1,
    ensures
        spec_day_number(spec_month_first(sn, k)) == spec_day_number(en) + 1,
{
    lemma_one_column_per_month(sn, k - 1);
    lemma_fundamental_div_mod_converse(spec_month_index(en), 12, en.year as int, en.month - 1);
    let y = spec_col_year(sn, k - 1);
    let m = spec_col_month(sn, k - 1);
    assert(y == en.year && m == en.month);
    lemma_month_first_step(sn, k - 1);
    assert(spec_day_number(spec_month_first(sn, k - 1)) == spec_day_number(en) - (en.day - 1));
}

/// Column pixel widths of an accepted schedule sum to the total day count of
/// the normalized range scaled by `max_month_width / 31` pixels per day, and
/// each column's width is exactly `max_month_width * daysInMonth / 31`.
pub proof fn lemma_total_column_width(c: &RenderData, chart: &ChartData, seed: u32)
    requires
        spec_geometry_ok(c, chart, c.title_width, c.max_month_width, seed),
        spec_valid_date(spec_start_norm(chart.items@)),
        spec_valid_date(crate::layout::spec_end_norm(chart.items@)),
        spec_month_index(spec_start_norm(chart.items@)) <= spec_month_index(
            crate::layout::spec_end_norm(chart.items@),
        ),
    ensures
        spec_cols_sum(c, c.cols@.len() as int) == 2 * c.max_month_width * (spec_day_number(
            crate::layout::spec_end_norm(chart.items@),
        ) + 1 - spec_day_number(spec_start_norm(chart.items@))),
{
    let sn = spec_start_norm(chart.items@);
    let en = crate::layout::spec_end_norm(chart.items@);
    let k = spec_num_cols(sn, en);
    lemma_width_sum_days(c, chart, seed, k);
    lemma_last_month_first_valid(sn, en, k);
}

/// Weekend adjustment: a duration whose landing day is a Saturday is extended
/// by two days, one landing on a Sunday by one day, and any other landing day
/// leaves it unchanged.
pub proof fn lemma_weekend_adjustment(anchor: Date, days: int)
    ensures
        spec_weekday(spec_date_plus(anchor, days as nat)) == SATURDAY ==> spec_shadow_duration(
            anchor,
            days,
        ) == days + 2,
        spec_weekday(spec_date_plus(anchor, days as nat)) == SUNDAY ==> spec_shadow_duration(
            anchor,
            days,
        ) == days + 1,
        spec_weekday(spec_date_plus(anchor, days as nat)) != SATURDAY && spec_weekday(
            spec_date_plus(anchor, days as nat),
        ) != SUNDAY ==> spec_shadow_duration(anchor, days) == days,
{
}

/// The running date of the range scan stays valid and leaves room for the
/// remaining weekend-padded day budget.
proof fn lemma_scan_date_bounded(items: Seq<ItemData>, k: int)
    requires
        spec_durations_ok(items),
        spec_dates_ok(items),
        0 <= k <= items.len(),
    ensures
        match spec_scan(items, k).date {
            Some(d) => spec_valid_date(d) && spec_day_number(d) + spec_shadow_budget(items, k)
                <= DAY_NUMBER_MAX,
            None => true,
        },
    decreases k,
{
    if k > 0 {
        lemma_scan_date_bounded(items, k - 1);
        let st = spec_scan(items, k - 1);
        let item = items[k - 1];
        lemma_shadow_budget_mono(items, 0, k - 1);
        lemma_shadow_budget_mono(items, k - 1, k);
        lemma_shadow_budget_mono(items, k, k);
        let date0 = if item.start_date is Some {
            item.start_date
        } else {
            st.date
        };
        if date0 is Some {
            let a = date0->0;
            if item.start_date is Some {
                assert(spec_valid_date(a) && spec_day_number(a) + 2 + spec_shadow_budget(items, 0)
                    <= DAY_NUMBER_MAX);
            }
            assert(spec_valid_date(a) && spec_day_number(a) + spec_shadow_budget(items, k - 1)
                <= DAY_NUMBER_MAX);
            match item.duration {
                Some(dur) => {
                    let sd = spec_shadow_duration(a, dur as int);
                    assert(dur >= 0);
                    assert(dur <= sd <= dur + 2);
                    lemma_day_number_bounds(a);
                    lemma_date_plus(a, sd as nat);
                },
                None => {},
            }
        }
    }
}

/// After the first item the scan always carries a running date.
proof fn lemma_scan_date_some(items: Seq<ItemData>, k: int)
    requires
        items.len() >= 1,
        items[0].start_date is Some,
        1 <= k <= items.len(),
    ensures
        spec_scan(items, k).date is Some,
    decreases k,
{
    if k > 1 {
        lemma_scan_date_some(items, k - 1);
    }
}

/// Row offsets are consistent with elapsed days: when item `i` carries a
/// shadow duration `d` and item `i + 1` has no explicit start date, the
/// second row's offset exceeds the first's by exactly `d` days scaled by
/// `max_month_width / 31` pixels per day — with no rounding error.
pub proof fn lemma_row_offset_consistency(
    items: Seq<ItemData>,
    tw: int,
    mmw: int,
    i: int,
    d: int,
)
    requires
        spec_durations_ok(items),
        spec_dates_ok(items),
        items.len() >= 1,
        items[0].start_date is Some,
        0 <= i,
        i + 1 < items.len(),
        items[i + 1].start_date is None,
        spec_shadow(items, i) == Some(d),
    ensures
        spec_row(items, tw, mmw, i + 1).offset == spec_row(items, tw, mmw, i).offset + 2 * mmw
            * d,
{
    let a = spec_opt_date(spec_anchor(items, i));
    if i >= 1 {
        lemma_scan_date_some(items, i);
    }
    lemma_scan_date_bounded(items, i);
    lemma_shadow_budget_mono(items, 0, i);
    lemma_shadow_budget_mono(items, i, i + 1);
    if items[i].start_date is Some {
        assert(spec_valid_date(a) && spec_day_number(a) + 2 + spec_shadow_budget(items, 0)
            <= DAY_NUMBER_MAX);
    }
    let dur = items[i].duration->0;
    assert(dur >= 0);
    assert(dur <= d <= dur + 2);
    lemma_day_number_bounds(a);
    lemma_date_plus(a, d as nat);
    assert(spec_scan(items, i + 1).date == Some(spec_date_plus(a, d as nat)));
    assert(spec_day_number(spec_opt_date(spec_anchor(items, i + 1))) == spec_day_number(a) + d);
    let sd = spec_day_number(spec_start_norm(items));
    assert(2 * mmw * (spec_day_number(a) + d - sd) == 2 * mmw * (spec_day_number(a) - sd) + 2
        * mmw * d) by (nonlinear_arith);
}

/// Two geometry models of the same accepted layout have equal column sums.
proof fn lemma_cols_sum_equal(a: &RenderData, b: &RenderData, k: int)
    requires
        a.cols@.len() == b.cols@.len(),
        forall|j: int|
            0 <= j < a.cols@.len() ==> (#[trigger] a.cols@[j]).width == b.cols@[j].width,
        k <= a.cols@.len(),
    ensures
        spec_cols_sum(a, k) == spec_cols_sum(b, k),
    decreases k,
{
    if k > 0 {
        lemma_cols_sum_equal(a, b, k - 1);
    }
}

/// The shared facts two models of the same layout agree on.
spec fn spec_models_agree(a: &RenderData, b: &RenderData) -> bool {
    &&& a.title@ == b.title@
    &&& a.gutter == b.gutter
    &&& a.row_gutter == b.row_gutter
    &&& a.row_height == b.row_height
    &&& a.resource_gutter == b.resource_gutter
    &&& a.resource_height == b.resource_height
    &&& a.rect_corner_radius == b.rect_corner_radius
    &&& a.title_width == b.title_width
    &&& a.max_month_width == b.max_month_width
    &&& a.cols@.len() == b.cols@.len()
    &&& forall|j: int|
        0 <= j < a.cols@.len() ==> (#[trigger] a.cols@[j]).width == b.cols@[j].width
            && a.cols@[j].month_name@ == b.cols@[j].month_name@
    &&& a.rows@.len() == b.rows@.len()
    &&& forall|i: int|
        0 <= i < a.rows@.len() ==> spec_row_view(#[trigger] a.rows@[i]) == spec_row_view(
            b.rows@[i],
        )
    &&& crate::layout::spec_opt_int(a.marked_date_offset) == crate::layout::spec_opt_int(
        b.marked_date_offset,
    )
    &&& spec_strings_view(a.styles@) == spec_strings_view(b.styles@)
    &&& spec_strings_view(a.resources@) == spec_strings_view(b.resources@)
}

/// Agreeing models produce the same row markup.
proof fn lemma_rows_markup_equal(a: &RenderData, b: &RenderData, k: int)
    requires
        spec_models_agree(a, b),
        k <= a.rows@.len(),
    ensures
        spec_rows_markup(a, k) == spec_rows_markup(b, k),
    decreases k,
{
    if k > 0 {
        lemma_rows_markup_equal(a, b, k - 1);
        lemma_cols_sum_equal(a, b, a.cols@.len() as int);
        assert(spec_row_view(a.rows@[k - 1]) == spec_row_view(b.rows@[k - 1]));
        assert(a.rows@[k - 1].title@ == b.rows@[k - 1].title@);
        assert(spec_row_markup(a, k - 1) == spec_row_markup(b, k - 1));
    }
}

/// Agreeing models produce the same column markup.
proof fn lemma_cols_markup_equal(a: &RenderData, b: &RenderData, k: int)
    requires
        spec_models_agree(a, b),
        k <= a.cols@.len(),
    ensures
        spec_cols_markup(a, k) == spec_cols_markup(b, k),
    decreases k,
{
    if k > 0 {
        lemma_cols_markup_equal(a, b, k - 1);
        lemma_cols_sum_equal(a, b, k - 1);
        assert(a.cols@[k - 1].month_name@ == b.cols@[k - 1].month_name@);
        assert(spec_col_markup(a, k - 1) == spec_col_markup(b, k - 1));
    }
}

/// Agreeing models produce the same legend markup.
proof fn lemma_legends_markup_equal(a: &RenderData, b: &RenderData, k: int)
    requires
        spec_models_agree(a, b),
        k <= a.resources@.len(),
    ensures
        spec_legends_markup(a, k) == spec_legends_markup(b, k),
    decreases k,
{
    assert(a.resources@.len() == b.resources@.len()) by {
        assert(spec_strings_view(a.resources@).len() == a.resources@.len());
        assert(spec_strings_view(b.resources@).len() == b.resources@.len());
    }
    if k > 0 {
        lemma_legends_markup_equal(a, b, k - 1);
        assert(a.resources@[k - 1]@ == spec_strings_view(a.resources@)[k - 1]);
        assert(b.resources@[k - 1]@ == spec_strings_view(b.resources@)[k - 1]);
        assert(spec_legend_markup(a, k - 1) == spec_legend_markup(b, k - 1));
    }
}

/// Idempotence, through to the markup: two models of the same accepted
/// layout render to identical documents, with or without the legend.
pub proof fn lemma_render_deterministic(
    a: &RenderData,
    b: &RenderData,
    chart: &ChartData,
    tw: u32,
    mmw: u32,
    seed: u32,
    legend: bool,
)
    requires
        spec_geometry_ok(a, chart, tw, mmw, seed),
        spec_geometry_ok(b, chart, tw, mmw, seed),
    ensures
        spec_rendered_chart(a, legend) == spec_rendered_chart(b, legend),
{
    assert(spec_models_agree(a, b));
    lemma_cols_sum_equal(a, b, a.cols@.len() as int);
    lemma_rows_markup_equal(a, b, a.rows@.len() as int);
    lemma_cols_markup_equal(a, b, a.cols@.len() as int);
    assert(a.resources@.len() == b.resources@.len()) by {
        assert(spec_strings_view(a.resources@).len() == a.resources@.len());
        assert(spec_strings_view(b.resources@).len() == b.resources@.len());
    }
    lemma_legends_markup_equal(a, b, a.resources@.len() as int);
    assert(spec_marker_markup(a) == spec_marker_markup(b));
}

/// Laying out the same schedule twice with the same inputs and seed gives
/// models whose observable contents — title, columns, rows, marker, styles
/// and resources — are identical.
pub proof fn lemma_layout_idempotent(
    a: &RenderData,
    b: &RenderData,
    chart: &ChartData,
    tw: u32,
    mmw: u32,
    seed: u32,
)
    requires
        spec_geometry_ok(a, chart, tw, mmw, seed),
        spec_geometry_ok(b, chart, tw, mmw, seed),
    ensures
        a.title@ == b.title@,
        a.cols@.len() == b.cols@.len(),
        forall|j: int|
            0 <= j < a.cols@.len() ==> (#[trigger] a.cols@[j]).width == b.cols@[j].width
                && a.cols@[j].month_name@ == b.cols@[j].month_name@,
        a.rows@.len() == b.rows@.len(),
        forall|i: int|
            0 <= i < a.rows@.len() ==> spec_row_view(#[trigger] a.rows@[i]) == spec_row_view(
                b.rows@[i],
            ),
        crate::layout::spec_opt_int(a.marked_date_offset) == crate::layout::spec_opt_int(
            b.marked_date_offset,
        ),
        spec_strings_view(a.styles@) == spec_strings_view(b.styles@),
        spec_strings_view(a.resources@) == spec_strings_view(b.resources@),
{
}

} // verus!
