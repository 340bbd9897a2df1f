//! The schedule description consumed by the layout engine.

use crate::date::{
    spec_day_number, spec_valid_date, Date, DAY_NUMBER_MAX,
};
use vstd::prelude::*;

verus! {

/// One work item: a bar when it has a duration, a milestone otherwise.
/// Missing start dates and resource indices inherit the most recently seen
/// explicit value in item order.
pub struct ItemData {
    pub title: String,
    pub duration: Option<i64>,
    pub start_date: Option<Date>,
    pub resource_index: Option<usize>,
    pub open: Option<bool>,
}

/// A whole schedule: a chart title, an optional marked date, the resource
/// names, and the ordered work items.
pub struct ChartData {
    pub title: String,
    pub marked_date: Option<Date>,
    pub resources: Vec<String>,
    pub items: Vec<ItemData>,
}

/// The ways a schedule can be rejected by the layout engine.
#[derive(Clone, Copy, PartialEq, Eq, Structural, Debug)]
pub enum LayoutError {
    /// Fewer than two items were supplied.
    TooFewItems,
    /// The first item lacks a start date or a resource index.
    MissingAnchor,
    /// An item names a resource index at or beyond the resource count.
    ResourceIndexOutOfRange,
}

impl LayoutError {
    /// A human-readable description of the rejection.
    pub fn message(&self) -> (r: &'static str)
        ensures
            *self == LayoutError::TooFewItems ==> r@ == "You must provide more than one task"@,
            *self == LayoutError::MissingAnchor ==> r@
                == "First item must contain a start date and resource index"@,
            *self == LayoutError::ResourceIndexOutOfRange ==> r@
                == "Resource index is out of range"@,
    {
        match self {
            LayoutError::TooFewItems => "You must provide more than one task",
            LayoutError::MissingAnchor => "First item must contain a start date and resource index",
            LayoutError::ResourceIndexOutOfRange => "Resource index is out of range",
        }
    }
}

/// The weekend-padded day budget of the items from `i` on: every duration,
/// plus two days of possible weekend extension each.  It bounds how far the
/// running date can move while scanning the tail of the schedule.
pub open spec fn spec_shadow_budget(items: Seq<ItemData>, i: int) -> int
    decreases items.len() - i,
{
    if i < 0 || i >= items.len() {
        0
    } else {
        (match items[i].duration {
            Some(d) => d + 2,
            None => 0,
        }) + spec_shadow_budget(items, i + 1)
    }
}

/// Every explicit duration is nonnegative.  A duration is a count of days of
/// work, so the layout engine's domain excludes negative values; the command
/// line front end rejects a document that carries one instead of laying out
/// a bar that runs backwards.
pub open spec fn spec_durations_ok(items: Seq<ItemData>) -> bool {
    forall|i: int|
        0 <= i < items.len() ==> match #[trigger] items[i].duration {
            Some(d) => d >= 0,
            None => true,
        }
}

/// Every explicit start date is a valid date that, together with the whole
/// weekend-padded day budget and the two days a weekend skip can add, stays
/// within the supported calendar range.
pub open spec fn spec_dates_ok(items: Seq<ItemData>) -> bool {
    forall|i: int|
        0 <= i < items.len() ==> match #[trigger] items[i].start_date {
            Some(s) => spec_valid_date(s) && spec_day_number(s) + 2 + spec_shadow_budget(items, 0)
                <= DAY_NUMBER_MAX,
            None => true,
        }
}

/// The machine-limit side conditions under which the layout engine runs: the
/// calendar arithmetic stays in range and the pixel arithmetic fits in 64
/// bits.  These say nothing about schedule well-formedness, which the engine
/// itself checks and reports.
pub open spec fn spec_chart_in_range(chart: &ChartData) -> bool {
    &&& spec_durations_ok(chart.items@)
    &&& spec_dates_ok(chart.items@)
    &&& match chart.marked_date {
        Some(d) => spec_valid_date(d),
        None => true,
    }
    &&& chart.items@.len() <= 100_000_000
    &&& chart.resources@.len() <= 10_000_000
}

/// The tail budgets shrink as the start index grows.
pub proof fn lemma_shadow_budget_mono(items: Seq<ItemData>, i: int, j: int)
    requires
        spec_durations_ok(items),
        0 <= i <= j,
    ensures
        spec_shadow_budget(items, j) <= spec_shadow_budget(items, i),
        spec_shadow_budget(items, j) >= 0,
    decreases j - i, items.len() - i,
{
    if j > i && i < items.len() {
        lemma_shadow_budget_mono(items, i + 1, j);
    } else if j > i {
        lemma_shadow_budget_mono(items, i + 1, j);
    } else if i < items.len() {
        lemma_shadow_budget_mono(items, i + 1, i + 1);
    }
}

} // verus!
