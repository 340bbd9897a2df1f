//! A verified Gantt-chart layout and rendering library.
//!
//! The library turns a schedule description (resources and work items with
//! optional start dates, durations and resource assignments) into exact pixel
//! geometry and a self-contained SVG document.  All horizontal coordinates
//! are kept in a fixed-point unit of 1/62 pixel, so every quantity the chart
//! needs (month columns proportional to `days / 31`, half of the month width)
//! is represented exactly and the whole pipeline is a proven function of its
//! inputs.

pub mod chart;
pub mod color;
pub mod date;
pub mod laws;
pub mod layout;
pub mod render;
pub mod text;

use crate::chart::{ChartData, LayoutError};
use crate::color::{spec_hsv_rgb, HUE_DENOM};
use crate::layout::{spec_layout_result, spec_render_in_range, RenderData};
use crate::render::spec_rendered_chart;
use vstd::prelude::*;

verus! {

/// A sink for the tool's diagnostics; callers decide where the text goes.
pub trait GanttChartLog {
    /// Ordinary output.
    fn output(&self, text: &str);

    /// A warning.
    fn warning(&self, text: &str);

    /// An error.
    fn error(&self, text: &str);
}

/// The chart tool: a diagnostics sink together with the layout and rendering
/// steps.
pub struct GanttChartTool<'a, L: GanttChartLog> {
    pub log: &'a L,
}

impl<'a, L: GanttChartLog> GanttChartTool<'a, L> {
    /// A tool writing its diagnostics to `log`.
    pub fn new(log: &'a L) -> (r: GanttChartTool<'a, L>)
        ensures
            r.log == log,
    {
        GanttChartTool { log }
    }

    /// Lays out a schedule into the geometry and style model; see
    /// [`crate::layout::layout`] for the full contract.
    pub fn process_chart_data(
        &self,
        title_width: u32,
        max_month_width: u32,
        seed: u32,
        chart_data: &ChartData,
    ) -> (r: Result<RenderData, LayoutError>)
        requires
            crate::chart::spec_chart_in_range(chart_data),
            title_width <= 1_000_000,
            max_month_width <= 1_000_000,
            seed < HUE_DENOM,
        ensures
            spec_layout_result(&r, chart_data, title_width, max_month_width, seed),
    {
        crate::layout::layout(title_width, max_month_width, seed, chart_data)
    }

    /// Renders a geometry model to a complete SVG document; the output is a
    /// pure function of the model.
    pub fn render_chart(&self, use_legend: bool, chart: &RenderData) -> (r: String)
        requires
            spec_render_in_range(chart),
        ensures
            r@ == spec_rendered_chart(chart, use_legend),
    {
        crate::render::render_chart(use_legend, chart)
    }

    /// Converts a fixed-point hue (saturation and value one half) to 24-bit
    /// RGB.
    pub fn hsv_to_rgb(h: u32) -> (r: u32)
        requires
            h < HUE_DENOM,
        ensures
            r == spec_hsv_rgb(h as int),
    {
        crate::color::hsv_to_rgb(h)
    }
}

} // verus!
