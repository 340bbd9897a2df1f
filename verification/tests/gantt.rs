use gantt::chart::{ChartData, ItemData, LayoutError};
use gantt::color::hsv_to_rgb;
use gantt::date::{add_days, day_number, num_days_in_month, weekday, weekend_adjusted_duration, Date};
use gantt::layout::{layout, RowKind};
use gantt::render::render_chart;
use gantt::{GanttChartLog, GanttChartTool};

struct SilentLog;

impl GanttChartLog for SilentLog {
    fn output(&self, _text: &str) {}
    fn warning(&self, _text: &str) {}
    fn error(&self, _text: &str) {}
}

fn d(year: u32, month: u32, day: u32) -> Date {
    Date { year, month, day }
}

fn item(
    title: &str,
    duration: Option<i64>,
    start_date: Option<Date>,
    resource_index: Option<usize>,
    open: Option<bool>,
) -> ItemData {
    ItemData {
        title: String::from(title),
        duration,
        start_date,
        resource_index,
        open,
    }
}

/// The concrete scenario: Alice and Bob, a five-day task from Monday
/// 2024-01-01 whose landing day is a Saturday, then a three-day task.
fn scenario_chart() -> ChartData {
    ChartData {
        title: String::from("Plan"),
        marked_date: None,
        resources: vec![String::from("Alice"), String::from("Bob")],
        items: vec![
            item("A", Some(5), Some(d(2024, 1, 1)), Some(0), None),
            item("B", Some(3), None, Some(1), None),
        ],
    }
}

#[test]
fn days_in_month_handles_leap_years() {
    assert_eq!(num_days_in_month(2024, 2), 29);
    assert_eq!(num_days_in_month(2023, 2), 28);
    assert_eq!(num_days_in_month(1900, 2), 28);
    assert_eq!(num_days_in_month(2000, 2), 29);
    assert_eq!(num_days_in_month(2024, 1), 31);
    assert_eq!(num_days_in_month(2024, 4), 30);
    assert_eq!(num_days_in_month(2024, 12), 31);
}

#[test]
fn weekday_of_known_dates() {
    // 2024-01-01 was a Monday, 2024-01-06 a Saturday, 2024-01-07 a Sunday.
    assert_eq!(weekday(&d(2024, 1, 1)), 0);
    assert_eq!(weekday(&d(2024, 1, 6)), 5);
    assert_eq!(weekday(&d(2024, 1, 7)), 6);
}

#[test]
fn add_days_crosses_month_and_year_boundaries() {
    assert_eq!(add_days(&d(2023, 12, 31), 1), d(2024, 1, 1));
    assert_eq!(add_days(&d(2024, 2, 28), 2), d(2024, 3, 1));
    assert_eq!(add_days(&d(2024, 1, 1), 366), d(2025, 1, 1));
    assert_eq!(add_days(&d(2024, 1, 15), 0), d(2024, 1, 15));
}

#[test]
fn day_numbers_are_consecutive() {
    let a = day_number(&d(2024, 1, 31));
    let b = day_number(&d(2024, 2, 1));
    assert_eq!(b, a + 1);
}

#[test]
fn weekend_adjustment_extends_saturday_by_two_and_sunday_by_one() {
    // From Monday 2024-01-01: +5 lands on Saturday, +6 on Sunday, +3 on Thursday.
    assert_eq!(weekend_adjusted_duration(&d(2024, 1, 1), 5), 7);
    assert_eq!(weekend_adjusted_duration(&d(2024, 1, 1), 6), 7);
    assert_eq!(weekend_adjusted_duration(&d(2024, 1, 1), 3), 3);
}

#[test]
fn rejects_single_item_schedule() {
    let chart = ChartData {
        title: String::from("t"),
        marked_date: None,
        resources: vec![String::from("r")],
        items: vec![item("only", Some(1), Some(d(2024, 1, 1)), Some(0), None)],
    };
    assert!(matches!(
        layout(210, 200, 0, &chart),
        Err(LayoutError::TooFewItems)
    ));
}

#[test]
fn rejects_first_item_without_start_date() {
    let chart = ChartData {
        title: String::from("t"),
        marked_date: None,
        resources: vec![String::from("r")],
        items: vec![
            item("a", Some(1), None, Some(0), None),
            item("b", Some(1), None, None, None),
        ],
    };
    assert!(matches!(
        layout(210, 200, 0, &chart),
        Err(LayoutError::MissingAnchor)
    ));
}

#[test]
fn rejects_first_item_without_resource_index() {
    let chart = ChartData {
        title: String::from("t"),
        marked_date: None,
        resources: vec![String::from("r")],
        items: vec![
            item("a", Some(1), Some(d(2024, 1, 1)), None, None),
            item("b", Some(1), None, Some(0), None),
        ],
    };
    assert!(matches!(
        layout(210, 200, 0, &chart),
        Err(LayoutError::MissingAnchor)
    ));
}

#[test]
fn rejects_resource_index_out_of_range() {
    let chart = ChartData {
        title: String::from("t"),
        marked_date: None,
        resources: vec![String::from("r")],
        items: vec![
            item("a", Some(1), Some(d(2024, 1, 1)), Some(0), None),
            item("b", Some(1), None, Some(1), None),
        ],
    };
    assert!(matches!(
        layout(210, 200, 0, &chart),
        Err(LayoutError::ResourceIndexOutOfRange)
    ));
}

#[test]
fn error_messages_match_reporting() {
    assert_eq!(
        LayoutError::TooFewItems.message(),
        "You must provide more than one task"
    );
    assert_eq!(
        LayoutError::MissingAnchor.message(),
        "First item must contain a start date and resource index"
    );
    assert_eq!(
        LayoutError::ResourceIndexOutOfRange.message(),
        "Resource index is out of range"
    );
}

#[test]
fn concrete_scenario_single_january_column() {
    let chart = scenario_chart();
    let model = layout(210, 200, 0, &chart).unwrap();

    // January 2024 only: one column, exactly the maximal month width
    // (31 days / 31), held as 2 * 200 * 31 units of 1/62 px = 200 px.
    assert_eq!(model.cols.len(), 1);
    assert_eq!(model.cols[0].width, 2 * 200 * 31);
    assert_eq!(model.cols[0].month_name, "Jan");

    assert_eq!(model.rows.len(), 2);
    // Item A anchors the chart at the left edge of the timeline:
    // 62 * (title column 210 + left gutter 10).
    assert_eq!(model.rows[0].offset, 62 * 220);
    // Jan 1 + 5 days lands on Saturday Jan 6: shadow duration 7 days.
    assert_eq!(model.rows[0].kind, RowKind::Bar(2 * 200 * 7));
    assert_eq!(model.rows[0].resource_index, 0);
    // Item B starts where A's shadow ends, 7 elapsed days into the chart.
    assert_eq!(model.rows[1].offset, 62 * 220 + 2 * 200 * 7);
    // Jan 8 + 3 days lands on Thursday Jan 11: no weekend extension.
    assert_eq!(model.rows[1].kind, RowKind::Bar(2 * 200 * 3));
    assert_eq!(model.rows[1].resource_index, 1);

    // No marked date, no marker offset.
    assert_eq!(model.marked_date_offset, None);
    // Nine structural styles plus two per resource.
    assert_eq!(model.styles.len(), 9 + 4);
    assert_eq!(model.resources, vec!["Alice", "Bob"]);
}

#[test]
fn boundary_two_items_bar_then_milestone() {
    let chart = ChartData {
        title: String::from("boundary"),
        marked_date: None,
        resources: vec![String::from("r")],
        items: vec![
            item("bar", Some(10), Some(d(2024, 1, 25)), Some(0), None),
            item("stone", None, None, None, None),
        ],
    };
    let model = layout(210, 200, 0, &chart).unwrap();
    // Jan 25 + 10 days lands on Sunday Feb 4: shadow 11, end Feb 5.
    assert_eq!(model.cols.len(), 2);
    assert_eq!(model.cols[0].month_name, "Jan");
    assert_eq!(model.cols[1].month_name, "Feb");
    assert!(matches!(model.rows[0].kind, RowKind::Bar(_)));
    assert_eq!(model.rows[1].kind, RowKind::Milestone);
    assert_eq!(model.marked_date_offset, None);
    // The milestone sits where the bar's shadow duration ends.
    assert_eq!(model.rows[1].offset, model.rows[0].offset + 2 * 200 * 11);
}

#[test]
fn one_column_per_month_over_three_months() {
    let chart = ChartData {
        title: String::from("span"),
        marked_date: None,
        resources: vec![String::from("r")],
        items: vec![
            item("a", Some(1), Some(d(2024, 1, 10)), Some(0), None),
            item("b", None, Some(d(2024, 3, 10)), None, None),
        ],
    };
    let model = layout(210, 200, 0, &chart).unwrap();
    assert_eq!(model.cols.len(), 3);
    assert_eq!(model.cols[0].month_name, "Jan");
    assert_eq!(model.cols[1].month_name, "Feb");
    assert_eq!(model.cols[2].month_name, "Mar");
    // Each column's width is exactly maxMonthWidth * daysInMonth / 31,
    // and the widths sum proportionally to the days in range.
    assert_eq!(model.cols[0].width, 2 * 200 * 31);
    assert_eq!(model.cols[1].width, 2 * 200 * 29);
    assert_eq!(model.cols[2].width, 2 * 200 * 31);
    let total: i64 = model.cols.iter().map(|c| c.width).sum();
    let total_days = 31 + 29 + 31;
    assert_eq!(total, 2 * 200 * total_days);
}

#[test]
fn month_labels_are_centered_over_their_columns() {
    let chart = ChartData {
        title: String::from("span"),
        marked_date: None,
        resources: vec![String::from("r")],
        items: vec![
            item("a", Some(1), Some(d(2024, 1, 10)), Some(0), None),
            item("b", None, Some(d(2024, 3, 10)), None, None),
        ],
    };
    let model = layout(210, 200, 0, &chart).unwrap();
    let svg = render_chart(false, &model);
    // January spans 220..420 px: its label sits at 320 px.  February is
    // 200 * 29/31 px wide from 420 px: its center is 420 + 2900/31 px,
    // printed with five truncated fraction digits.
    assert!(svg.contains("<text class=\"heading\" x=\"320\" y=\"60\">Jan</text>"));
    assert!(svg.contains("<text class=\"heading\" x=\"513.54838\" y=\"60\">Feb</text>"));
}

#[test]
fn marked_date_gets_an_offset_on_the_same_timeline() {
    let mut chart = scenario_chart();
    chart.marked_date = Some(d(2024, 1, 8));
    let model = layout(210, 200, 0, &chart).unwrap();
    assert_eq!(model.marked_date_offset, Some(62 * 220 + 2 * 200 * 7));
}

#[test]
fn layout_and_render_are_deterministic_for_a_fixed_seed() {
    let chart = scenario_chart();
    let a = layout(210, 200, 123_456, &chart).unwrap();
    let b = layout(210, 200, 123_456, &chart).unwrap();
    assert_eq!(a.styles, b.styles);
    assert_eq!(render_chart(false, &a), render_chart(false, &b));
    assert_eq!(render_chart(true, &a), render_chart(true, &b));
}

#[test]
fn hsv_to_rgb_matches_the_sector_formula() {
    // Hue 0: sector 0 gives (v, t, p) = (128, 64, 64).
    assert_eq!(hsv_to_rgb(0), 0x804040);
    // Hue 1/2: sector 3 with zero fraction gives (p, q, v) = (64, 128, 128).
    assert_eq!(hsv_to_rgb(500_000), 0x408080);
}

#[test]
fn styles_embed_the_resource_colors() {
    let chart = scenario_chart();
    let model = layout(210, 200, 0, &chart).unwrap();
    // Seed 0 colors resource 0 with hue 0 -> #804040.
    assert_eq!(
        model.styles[9],
        ".resource-0-closed{stroke-width:1; stroke:#804040; fill:#804040;}"
    );
    assert_eq!(
        model.styles[10],
        ".resource-0-open{stroke-width:2; stroke:#804040; fill:none;}"
    );
    assert!(model.styles[0].starts_with(".outer-lines"));
}

#[test]
fn rendered_document_is_self_contained_svg() {
    let chart = scenario_chart();
    let model = layout(210, 200, 0, &chart).unwrap();
    let svg = render_chart(false, &model);
    assert!(svg.starts_with("<svg xmlns=\"http://www.w3.org/2000/svg\""));
    assert!(svg.ends_with("</svg>"));
    assert!(svg.contains("<style>"));
    assert!(svg.contains("Plan"));
    assert!(svg.contains("Tasks"));
    assert!(svg.contains("resource-0-closed"));
    // No marked date: no marker line; no legend without the flag.
    assert!(!svg.contains("marker\" x1"));
    assert!(!svg.contains("class=\"resource\""));
    // Canvas width: 62 * (10 + 210 + 10) + 12400 units = 430 px exactly.
    assert!(svg.contains("width=\"430\""));
}

#[test]
fn rendered_legend_lists_each_resource() {
    let chart = scenario_chart();
    let model = layout(210, 200, 0, &chart).unwrap();
    let svg = render_chart(true, &model);
    assert!(svg.contains(">Alice</text>"));
    assert!(svg.contains(">Bob</text>"));
    let without = render_chart(false, &model);
    assert!(!without.contains(">Alice</text>"));
}

#[test]
fn rendered_marker_appears_only_with_a_marked_date() {
    let mut chart = scenario_chart();
    chart.marked_date = Some(d(2024, 1, 8));
    let model = layout(210, 200, 0, &chart).unwrap();
    let svg = render_chart(false, &model);
    assert!(svg.contains("class=\"marker\""));
}

#[test]
fn fractional_pixel_coordinates_render_exactly() {
    let chart = ChartData {
        title: String::from("frac"),
        marked_date: None,
        resources: vec![String::from("r")],
        items: vec![
            item("a", Some(1), Some(d(2024, 1, 1)), Some(0), None),
            item("b", Some(1), None, None, None),
        ],
    };
    let model = layout(210, 200, 0, &chart).unwrap();
    let svg = render_chart(false, &model);
    // One elapsed day is 200/31 px: the second bar sits at
    // 220 + 200/31 = 226.45161... px, truncated to five digits.
    assert_eq!(model.rows[1].offset, 62 * 220 + 2 * 200);
    assert!(svg.contains("x=\"226.45161\""));
}

#[test]
fn tool_wraps_layout_and_render() {
    let log = SilentLog;
    let tool = GanttChartTool::new(&log);
    let chart = scenario_chart();
    let model = tool.process_chart_data(210, 200, 0, &chart).unwrap();
    let svg = tool.render_chart(false, &model);
    assert!(svg.starts_with("<svg"));
    assert_eq!(GanttChartTool::<SilentLog>::hsv_to_rgb(0), 0x804040);
}

#[test]
fn open_items_use_the_outline_style_class() {
    let chart = ChartData {
        title: String::from("open"),
        marked_date: None,
        resources: vec![String::from("r")],
        items: vec![
            item("a", Some(2), Some(d(2024, 1, 1)), Some(0), Some(true)),
            item("b", Some(2), None, None, Some(false)),
        ],
    };
    let model = layout(210, 200, 0, &chart).unwrap();
    assert!(model.rows[0].open);
    assert!(!model.rows[1].open);
    let svg = render_chart(false, &model);
    assert!(svg.contains("class=\"resource-0-open\""));
    assert!(svg.contains("class=\"resource-0-closed\""));
}

#[test]
fn carry_forward_start_dates_reset_the_running_date() {
    let chart = ChartData {
        title: String::from("carry"),
        marked_date: None,
        resources: vec![String::from("r")],
        items: vec![
            item("a", Some(2), Some(d(2024, 1, 8)), Some(0), None),
            item("jump", Some(2), Some(d(2024, 1, 15)), None, None),
        ],
    };
    let model = layout(210, 200, 0, &chart).unwrap();
    // The second item's explicit date overrides the running date:
    // 14 days elapsed from the January 1 normalized start.
    assert_eq!(model.rows[1].offset, 62 * 220 + 2 * 200 * 14);
    assert_eq!(model.rows[1].resource_index, 0);
}

#[test]
fn weekend_start_date_is_skipped_for_the_project_start() {
    // Saturday 2024-06-01: the project start moves to Monday June 3, but
    // the normalized start snaps back to June 1.
    let chart = ChartData {
        title: String::from("wk"),
        marked_date: None,
        resources: vec![String::from("r")],
        items: vec![
            item("a", Some(1), Some(d(2024, 6, 1)), Some(0), None),
            item("b", Some(1), None, None, None),
        ],
    };
    let model = layout(210, 200, 0, &chart).unwrap();
    assert_eq!(model.cols.len(), 1);
    assert_eq!(model.cols[0].month_name, "Jun");
    // The item itself still anchors at its explicit date, June 1.
    assert_eq!(model.rows[0].offset, 62 * 220);
}
