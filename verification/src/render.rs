//! The diagram assembler: from a geometry model to a self-contained SVG
//! document.
//!
//! Every coordinate is emitted through the fixed-point text of `crate::text`,
//! so the output is a pure function of the geometry model: the contract of
//! [`render_chart`] pins the whole document, character for character.

use crate::color::spec_strings_view;
use crate::layout::{spec_render_in_range, RenderData, RowKind};
use crate::text::{append_dec, append_px, spec_dec, spec_px};
use vstd::prelude::*;
use vstd::string::StringExecFns;

verus! {

/// The absolute bound accepted for a coordinate handed to the text layer.
pub const COORD_MAX: i64 = 0x4000_0000_0000_0000;

/// A `<text>` element.
pub open spec fn spec_text_el(class: Seq<char>, x: int, y: int, body: Seq<char>) -> Seq<char> {
    "<text class=\""@ + class + "\" x=\""@ + spec_px(x) + "\" y=\""@ + spec_px(y) + "\">"@ + body
        + "</text>"@
}

/// A `<line>` element.
pub open spec fn spec_line_el(class: Seq<char>, x1: int, y1: int, x2: int, y2: int) -> Seq<char> {
    "<line class=\""@ + class + "\" x1=\""@ + spec_px(x1) + "\" y1=\""@ + spec_px(y1) + "\" x2=\""@
        + spec_px(x2) + "\" y2=\""@ + spec_px(y2) + "\"/>"@
}

/// A rounded `<rect>` element (the corner radius serves both axes).
pub open spec fn spec_rect_el(class: Seq<char>, x: int, y: int, rx: int, w: int, h: int) -> Seq<
    char,
> {
    "<rect class=\""@ + class + "\" x=\""@ + spec_px(x) + "\" y=\""@ + spec_px(y) + "\" rx=\""@
        + spec_px(rx) + "\" ry=\""@ + spec_px(rx) + "\" width=\""@ + spec_px(w) + "\" height=\""@
        + spec_px(h) + "\"/>"@
}

/// The diamond path of a milestone centered at `(x, y)` with half-extent `n`.
pub open spec fn spec_milestone_el(x: int, y: int, n: int) -> Seq<char> {
    "<path d=\"M "@ + spec_px(x - n) + " "@ + spec_px(y) + " l "@ + spec_px(n) + " "@ + spec_px(-n)
        + " l "@ + spec_px(n) + " "@ + spec_px(n) + " l "@ + spec_px(-n) + " "@ + spec_px(n)
        + " l "@ + spec_px(-n) + " "@ + spec_px(-n) + " z\"/>"@
}

/// The document header: canvas size, view box and white background.  Both
/// extents are in 1/62-pixel units.
pub open spec fn spec_svg_header(w: int, h: int) -> Seq<char> {
    "<svg xmlns=\"http://www.w3.org/2000/svg\" width=\""@ + spec_px(w) + "\" height=\""@ + spec_px(
        h,
    ) + "\" viewBox=\"0 0 "@ + spec_px(w) + " "@ + spec_px(h) + "\" style=\"background-color: white;\">"@
}

/// The style rules, each on its own line.
pub open spec fn spec_styles_cat(styles: Seq<Seq<char>>, k: int) -> Seq<char>
    decreases k,
{
    if k <= 0 {
        Seq::empty()
    } else {
        spec_styles_cat(styles, k - 1) + "\n"@ + styles[k - 1]
    }
}

/// The embedded style block.
pub open spec fn spec_style_block(styles: Seq<Seq<char>>) -> Seq<char> {
    "<style>"@ + spec_styles_cat(styles, styles.len() as int) + "\n</style>"@
}

/// The sum of the widths of the first `k` columns.
pub open spec fn spec_cols_sum(c: &RenderData, k: int) -> int
    decreases k,
{
    if k <= 0 {
        0
    } else {
        spec_cols_sum(c, k - 1) + c.cols@[k - 1].width
    }
}

/// The canvas width in 1/62-pixel units: left gutter, title column, all month
/// columns, right gutter.
pub open spec fn spec_canvas_width(c: &RenderData) -> int {
    62 * (c.gutter.left + c.title_width + c.gutter.right) + spec_cols_sum(
        c,
        c.cols@.len() as int,
    )
}

/// The canvas height in whole pixels: top gutter, one row height per row, the
/// legend strip when requested, bottom gutter.
pub open spec fn spec_canvas_height(c: &RenderData, legend: bool) -> int {
    c.gutter.top + c.rows@.len() * c.row_height + (if legend {
        c.resource_gutter.top + c.resource_gutter.bottom + c.row_height
    } else {
        0
    }) + c.gutter.bottom
}

/// The class of a bar: its resource index, filled or outline-only.
pub open spec fn spec_bar_class(res: int, open: bool) -> Seq<char> {
    "resource-"@ + spec_dec(res as nat) + (if open {
        "-open"@
    } else {
        "-closed"@
    })
}

/// The markup of row `i`: its title text, its bar or milestone, and the
/// divider line above it (heavier for the first row).
pub open spec fn spec_row_markup(c: &RenderData, i: int) -> Seq<char> {
    let row = c.rows@[i];
    let y = c.gutter.top + i * c.row_height;
    let text = spec_text_el(
        "item"@,
        62 * (c.gutter.left + c.row_gutter.left),
        62 * (y + c.row_gutter.top) + 31 * c.row_height,
        row.title@,
    );
    let shape = match row.kind {
        RowKind::Bar(l) => spec_rect_el(
            spec_bar_class(row.resource_index as int, row.open),
            row.offset as int,
            62 * (y + c.row_gutter.top),
            62 * c.rect_corner_radius,
            l as int,
            62 * (c.row_height - c.row_gutter.top - c.row_gutter.bottom),
        ),
        RowKind::Milestone => spec_milestone_el(
            row.offset as int,
            62 * (y + c.row_gutter.top) + 31 * (c.row_height - c.row_gutter.top
                - c.row_gutter.bottom),
            31 * (c.row_height - c.row_gutter.top - c.row_gutter.bottom),
        ),
    };
    let line = spec_line_el(
        if i == 0 {
            "outer-lines"@
        } else {
            "inner-lines"@
        },
        62 * c.gutter.left,
        62 * y,
        spec_canvas_width(c) - 62 * c.gutter.right,
        62 * y,
    );
    text + shape + line
}

/// The markup of the first `k` rows.
pub open spec fn spec_rows_markup(c: &RenderData, k: int) -> Seq<char>
    decreases k,
{
    if k <= 0 {
        Seq::empty()
    } else {
        spec_rows_markup(c, k - 1) + spec_row_markup(c, k - 1)
    }
}

/// The markup of column `j`: its month label centered over the column (half
/// its own width past its left edge; widths are even, so this stays exact)
/// and the vertical divider at that left edge.
pub open spec fn spec_col_markup(c: &RenderData, j: int) -> Seq<char> {
    let lx = 62 * (c.gutter.left + c.title_width) + spec_cols_sum(c, j);
    let y2 = 62 * (c.gutter.top + c.rows@.len() * c.row_height);
    spec_text_el(
        "heading"@,
        lx + c.cols@[j].width / 2,
        62 * (c.gutter.top - c.row_gutter.bottom) - 31 * c.row_height,
        c.cols@[j].month_name@,
    ) + spec_line_el("inner-lines"@, lx, 62 * c.gutter.top, lx, y2)
}

/// The markup of the first `k` columns.
pub open spec fn spec_cols_markup(c: &RenderData, k: int) -> Seq<char>
    decreases k,
{
    if k <= 0 {
        Seq::empty()
    } else {
        spec_cols_markup(c, k - 1) + spec_col_markup(c, k - 1)
    }
}

/// The legend entry of resource `i`: its name and a filled color swatch.
pub open spec fn spec_legend_markup(c: &RenderData, i: int) -> Seq<char> {
    let y = c.gutter.top + c.rows@.len() * c.row_height;
    let block = c.resource_height - c.resource_gutter.top - c.resource_gutter.bottom;
    spec_text_el(
        "resource"@,
        62 * (c.resource_gutter.left + (i + 1) * 100 - 5),
        62 * y + 31 * c.resource_height,
        c.resources@[i]@,
    ) + spec_rect_el(
        "resource-"@ + spec_dec(i as nat) + "-closed"@,
        62 * (c.resource_gutter.left + (i + 1) * 100 + 5),
        62 * (y + c.resource_gutter.top),
        62 * c.rect_corner_radius,
        62 * block,
        62 * block,
    )
}

/// The markup of the first `k` legend entries.
pub open spec fn spec_legends_markup(c: &RenderData, k: int) -> Seq<char>
    decreases k,
{
    if k <= 0 {
        Seq::empty()
    } else {
        spec_legends_markup(c, k - 1) + spec_legend_markup(c, k - 1)
    }
}

/// The dashed marked-date line, when a marked date is present.
pub open spec fn spec_marker_markup(c: &RenderData) -> Seq<char> {
    match c.marked_date_offset {
        Some(off) => spec_line_el(
            "marker"@,
            off as int,
            62 * c.gutter.top - 310,
            off as int,
            62 * (c.gutter.top + c.rows@.len() * c.row_height) + 310,
        ),
        None => Seq::empty(),
    }
}

/// The whole rendered document, in this fixed order: header, style block, the
/// row layer with its closing divider, the column layer with its trailing
/// divider, the fixed "Tasks" header, the chart title, the optional marked
/// date line, and the optional legend.
pub open spec fn spec_rendered_chart(c: &RenderData, legend: bool) -> Seq<char> {
    let w = spec_canvas_width(c);
    let h = 62 * spec_canvas_height(c, legend);
    let nrows = c.rows@.len() as int;
    let y2 = 62 * (c.gutter.top + nrows * c.row_height);
    spec_svg_header(w, h) + spec_style_block(spec_strings_view(c.styles@)) + "<g>"@
        + spec_rows_markup(c, nrows) + spec_line_el(
        "outer-lines"@,
        62 * c.gutter.left,
        y2,
        w - 62 * c.gutter.right,
        y2,
    ) + "</g>"@ + "<g>"@ + spec_cols_markup(c, c.cols@.len() as int) + spec_line_el(
        "inner-lines"@,
        62 * (c.gutter.left + c.title_width),
        62 * c.gutter.top,
        62 * (c.gutter.left + c.title_width),
        y2,
    ) + "</g>"@ + spec_text_el(
        "heading task-heading"@,
        62 * (c.gutter.left + c.row_gutter.left),
        62 * (c.gutter.top - c.row_gutter.bottom) - 31 * c.row_height,
        "Tasks"@,
    ) + spec_text_el("title"@, 62 * c.gutter.left, 1550int, c.title@) + spec_marker_markup(c) + (
    if legend {
        "<g>"@ + spec_legends_markup(c, c.resources@.len() as int) + "</g>"@
    } else {
        Seq::empty()
    }) + "</svg>"@
}

/// Appends a `<text>` element.
fn append_text_el(s: &mut String, class: &str, x: i64, y: i64, body: &str)
    requires
        -COORD_MAX <= x <= COORD_MAX,
        -COORD_MAX <= y <= COORD_MAX,
    ensures
        final(s)@ == old(s)@ + spec_text_el(class@, x as int, y as int, body@),
{
    s.append("<text class=\"");
    s.append(class);
    s.append("\" x=\"");
    append_px(s, x);
    s.append("\" y=\"");
    append_px(s, y);
    s.append("\">");
    s.append(body);
    s.append("</text>");
    proof {
        assert(s@ =~= old(s)@ + spec_text_el(class@, x as int, y as int, body@));
    }
}

/// Appends a `<line>` element.
fn append_line_el(s: &mut String, class: &str, x1: i64, y1: i64, x2: i64, y2: i64)
    requires
        -COORD_MAX <= x1 <= COORD_MAX,
        -COORD_MAX <= y1 <= COORD_MAX,
        -COORD_MAX <= x2 <= COORD_MAX,
        -COORD_MAX <= y2 <= COORD_MAX,
    ensures
        final(s)@ == old(s)@ + spec_line_el(class@, x1 as int, y1 as int, x2 as int, y2 as int),
{
    s.append("<line class=\"");
    s.append(class);
    s.append("\" x1=\"");
    append_px(s, x1);
    s.append("\" y1=\"");
    append_px(s, y1);
    s.append("\" x2=\"");
    append_px(s, x2);
    s.append("\" y2=\"");
    append_px(s, y2);
    s.append("\"/>");
    proof {
        assert(s@ =~= old(s)@ + spec_line_el(
            class@,
            x1 as int,
            y1 as int,
            x2 as int,
            y2 as int,
        ));
    }
}

/// Appends a rounded `<rect>` element.
#[verifier::rlimit(50)]
fn append_rect_el(s: &mut String, class: &str, x: i64, y: i64, rx: i64, w: i64, h: i64)
    requires
        -COORD_MAX <= x <= COORD_MAX,
        -COORD_MAX <= y <= COORD_MAX,
        -COORD_MAX <= rx <= COORD_MAX,
        -COORD_MAX <= w <= COORD_MAX,
        -COORD_MAX <= h <= COORD_MAX,
    ensures
        final(s)@ == old(s)@ + spec_rect_el(
            class@,
            x as int,
            y as int,
            rx as int,
            w as int,
            h as int,
        ),
{
    s.append("<rect class=\"");
    s.append(class);
    s.append("\" x=\"");
    append_px(s, x);
    s.append("\" y=\"");
    append_px(s, y);
    s.append("\" rx=\"");
    append_px(s, rx);
    s.append("\" ry=\"");
    append_px(s, rx);
    s.append("\" width=\"");
    append_px(s, w);
    s.append("\" height=\"");
    append_px(s, h);
    s.append("\"/>");
    proof {
        assert(s@ =~= old(s)@ + spec_rect_el(
            class@,
            x as int,
            y as int,
            rx as int,
            w as int,
            h as int,
        ));
    }
}

/// Appends a milestone diamond `<path>` element.
#[verifier::rlimit(50)]
fn append_milestone_el(s: &mut String, x: i64, y: i64, n: i64)
    requires
        -COORD_MAX < x - n && x - n <= COORD_MAX,
        -COORD_MAX <= y <= COORD_MAX,
        -COORD_MAX < n <= COORD_MAX,
    ensures
        final(s)@ == old(s)@ + spec_milestone_el(x as int, y as int, n as int),
{
    s.append("<path d=\"M ");
    append_px(s, x - n);
    s.append(" ");
    append_px(s, y);
    s.append(" l ");
    append_px(s, n);
    s.append(" ");
    append_px(s, -n);
    s.append(" l ");
    append_px(s, n);
    s.append(" ");
    append_px(s, n);
    s.append(" l ");
    append_px(s, -n);
    s.append(" ");
    append_px(s, n);
    s.append(" l ");
    append_px(s, -n);
    s.append(" ");
    append_px(s, -n);
    s.append(" z\"/>");
    proof {
        assert(s@ =~= old(s)@ + spec_milestone_el(x as int, y as int, n as int));
    }
}

/// Appends the embedded style block, one rule per line.
fn append_style_block(s: &mut String, styles: &Vec<String>)
    ensures
        final(s)@ == old(s)@ + spec_style_block(spec_strings_view(styles@)),
{
    s.append("<style>");
    let n = styles.len();
    let mut k: usize = 0;
    while k < n
        invariant
            n == styles@.len(),
            k <= n,
            s@ == old(s)@ + "<style>"@ + spec_styles_cat(spec_strings_view(styles@), k as int),
        decreases n - k,
    {
        s.append("\n");
        s.append(styles[k].as_str());
        k = k + 1;
        proof {
            assert(s@ =~= old(s)@ + "<style>"@ + spec_styles_cat(
                spec_strings_view(styles@),
                k as int,
            ));
        }
    }
    s.append("\n</style>");
    proof {
        assert(s@ =~= old(s)@ + spec_style_block(spec_strings_view(styles@)));
    }
}

/// The canvas width of a model, in 1/62-pixel units.
fn canvas_width(c: &RenderData) -> (w: i64)
    requires
        spec_render_in_range(c),
    ensures
        w == spec_canvas_width(c),
        0 <= w <= 12_473_000_000_000,
{
    let n = c.cols.len();
    let mut acc: i64 = 0;
    let mut j: usize = 0;
    while j < n
        invariant
            spec_render_in_range(c),
            n == c.cols@.len(),
            j <= n,
            acc == spec_cols_sum(c, j as int),
            0 <= acc <= 62_000_000 * j,
        decreases n - j,
    {
        acc = acc + c.cols[j].width;
        j = j + 1;
    }
    62 * ((c.gutter.left as i64) + (c.title_width as i64) + (c.gutter.right as i64)) + acc
}

/// Appends the markup of one row.
#[verifier::rlimit(100)]
fn append_row(s: &mut String, c: &RenderData, i: usize, w: i64)
    requires
        spec_render_in_range(c),
        i < c.rows@.len(),
        w == spec_canvas_width(c),
        0 <= w <= 12_473_000_000_000,
    ensures
        final(s)@ == old(s)@ + spec_row_markup(c, i as int),
{
    proof {
        assert(0 <= (i as int) * (c.row_height as int) <= 10_000_000_000_000) by (nonlinear_arith)
            requires
                0 <= i <= 100_000_000,
                c.row_height <= 100_000,
        ;
    }
    let y: i64 = (c.gutter.top as i64) + (i as i64) * (c.row_height as i64);
    let bar_h: i64 = (c.row_height as i64) - (c.row_gutter.top as i64) - (
    c.row_gutter.bottom as i64);
    append_text_el(
        s,
        "item",
        62 * ((c.gutter.left as i64) + (c.row_gutter.left as i64)),
        62 * (y + (c.row_gutter.top as i64)) + 31 * (c.row_height as i64),
        c.rows[i].title.as_str(),
    );
    let ghost after_text = s@;
    let row_offset = c.rows[i].offset;
    match c.rows[i].kind {
        RowKind::Bar(l) => {
            let mut cls = String::new();
            cls.append("resource-");
            append_dec(&mut cls, c.rows[i].resource_index as u64);
            if c.rows[i].open {
                cls.append("-open");
            } else {
                cls.append("-closed");
            }
            proof {
                assert(cls@ =~= spec_bar_class(
                    c.rows@[i as int].resource_index as int,
                    c.rows@[i as int].open,
                ));
            }
            append_rect_el(
                s,
                cls.as_str(),
                row_offset,
                62 * (y + (c.row_gutter.top as i64)),
                62 * (c.rect_corner_radius as i64),
                l,
                62 * bar_h,
            );
        },
        RowKind::Milestone => {
            append_milestone_el(
                s,
                row_offset,
                62 * (y + (c.row_gutter.top as i64)) + 31 * bar_h,
                31 * bar_h,
            );
        },
    }
    let line_class: &str = if i == 0 {
        "outer-lines"
    } else {
        "inner-lines"
    };
    append_line_el(
        s,
        line_class,
        62 * (c.gutter.left as i64),
        62 * y,
        w - 62 * (c.gutter.right as i64),
        62 * y,
    );
    proof {
        assert(s@ =~= old(s)@ + spec_row_markup(c, i as int));
    }
}

/// Appends the row layer: title, bar or milestone, and divider per row.
fn append_rows(s: &mut String, c: &RenderData, w: i64)
    requires
        spec_render_in_range(c),
        w == spec_canvas_width(c),
        0 <= w <= 12_473_000_000_000,
    ensures
        final(s)@ == old(s)@ + spec_rows_markup(c, c.rows@.len() as int),
{
    let n = c.rows.len();
    let mut i: usize = 0;
    while i < n
        invariant
            spec_render_in_range(c),
            n == c.rows@.len(),
            i <= n,
            w == spec_canvas_width(c),
            0 <= w <= 12_473_000_000_000,
            s@ == old(s)@ + spec_rows_markup(c, i as int),
        decreases n - i,
    {
        append_row(s, c, i, w);
        i = i + 1;
        proof {
            assert(s@ =~= old(s)@ + spec_rows_markup(c, i as int));
        }
    }
}

/// Appends the column layer: month label and left divider per column.
#[verifier::rlimit(80)]
fn append_cols(s: &mut String, c: &RenderData)
    requires
        spec_render_in_range(c),
    ensures
        final(s)@ == old(s)@ + spec_cols_markup(c, c.cols@.len() as int),
{
    proof {
        assert(0 <= (c.rows@.len() as int) * (c.row_height as int) <= 10_000_000_000_000)
            by (nonlinear_arith)
            requires
                0 <= c.rows@.len() <= 100_000_000,
                c.row_height <= 100_000,
        ;
    }
    let y2: i64 = 62 * ((c.gutter.top as i64) + (c.rows.len() as i64) * (c.row_height as i64));
    let name_y: i64 = 62 * ((c.gutter.top as i64) - (c.row_gutter.bottom as i64)) - 31 * (
    c.row_height as i64);
    let n = c.cols.len();
    let mut acc: i64 = 0;
    let mut j: usize = 0;
    while j < n
        invariant
            spec_render_in_range(c),
            n == c.cols@.len(),
            j <= n,
            acc == spec_cols_sum(c, j as int),
            0 <= acc <= 62_000_000 * j,
            y2 == 62 * (c.gutter.top + c.rows@.len() * c.row_height),
            0 <= y2 <= 700_000_000_000_000,
            name_y == 62 * (c.gutter.top - c.row_gutter.bottom) - 31 * c.row_height,
            s@ == old(s)@ + spec_cols_markup(c, j as int),
        decreases n - j,
    {
        let lx: i64 = 62 * ((c.gutter.left as i64) + (c.title_width as i64)) + acc;
        let half_width: i64 = c.cols[j].width / 2;
        append_text_el(
            s,
            "heading",
            lx + half_width,
            name_y,
            c.cols[j].month_name.as_str(),
        );
        append_line_el(s, "inner-lines", lx, 62 * (c.gutter.top as i64), lx, y2);
        acc = acc + c.cols[j].width;
        j = j + 1;
        proof {
            assert(s@ =~= old(s)@ + spec_cols_markup(c, j as int));
        }
    }
}

/// Appends the legend entries: name and color swatch per resource.
#[verifier::rlimit(80)]
fn append_legends(s: &mut String, c: &RenderData)
    requires
        spec_render_in_range(c),
    ensures
        final(s)@ == old(s)@ + spec_legends_markup(c, c.resources@.len() as int),
{
    proof {
        assert(0 <= (c.rows@.len() as int) * (c.row_height as int) <= 10_000_000_000_000)
            by (nonlinear_arith)
            requires
                0 <= c.rows@.len() <= 100_000_000,
                c.row_height <= 100_000,
        ;
    }
    let y: i64 = (c.gutter.top as i64) + (c.rows.len() as i64) * (c.row_height as i64);
    let block: i64 = (c.resource_height as i64) - (c.resource_gutter.top as i64) - (
    c.resource_gutter.bottom as i64);
    let n = c.resources.len();
    let mut i: usize = 0;
    while i < n
        invariant
            spec_render_in_range(c),
            n == c.resources@.len(),
            i <= n,
            y == c.gutter.top + c.rows@.len() * c.row_height,
            0 <= y <= 10_000_100_000_000,
            block == c.resource_height - c.resource_gutter.top - c.resource_gutter.bottom,
            s@ == old(s)@ + spec_legends_markup(c, i as int),
        decreases n - i,
    {
        append_text_el(
            s,
            "resource",
            62 * ((c.resource_gutter.left as i64) + ((i as i64) + 1) * 100 - 5),
            62 * y + 31 * (c.resource_height as i64),
            c.resources[i].as_str(),
        );
        let mut cls = String::new();
        cls.append("resource-");
        append_dec(&mut cls, i as u64);
        cls.append("-closed");
        proof {
            assert(cls@ =~= "resource-"@ + spec_dec(i as nat) + "-closed"@);
        }
        append_rect_el(
            s,
            cls.as_str(),
            62 * ((c.resource_gutter.left as i64) + ((i as i64) + 1) * 100 + 5),
            62 * (y + (c.resource_gutter.top as i64)),
            62 * (c.rect_corner_radius as i64),
            62 * block,
            62 * block,
        );
        i = i + 1;
        proof {
            assert(s@ =~= old(s)@ + spec_legends_markup(c, i as int));
        }
    }
}

/// Renders the geometry model to a complete SVG document.  The result is a
/// pure function of the model and the legend flag: identical models give
/// byte-identical markup.
#[verifier::rlimit(60)]
pub fn render_chart(use_legend: bool, c: &RenderData) -> (r: String)
    requires
        spec_render_in_range(c),
    ensures
        r@ == spec_rendered_chart(c, use_legend),
{
    proof {
        assert(0 <= (c.rows@.len() as int) * (c.row_height as int) <= 10_000_000_000_000)
            by (nonlinear_arith)
            requires
                0 <= c.rows@.len() <= 100_000_000,
                c.row_height <= 100_000,
        ;
    }
    let w = canvas_width(c);
    let h_px: i64 = (c.gutter.top as i64) + (c.rows.len() as i64) * (c.row_height as i64) + (
    if use_legend {
        (c.resource_gutter.top as i64) + (c.resource_gutter.bottom as i64) + (c.row_height as i64)
    } else {
        0
    }) + (c.gutter.bottom as i64);
    let h: i64 = 62 * h_px;
    let mut s = String::new();
    s.append("<svg xmlns=\"http://www.w3.org/2000/svg\" width=\"");
    append_px(&mut s, w);
    s.append("\" height=\"");
    append_px(&mut s, h);
    s.append("\" viewBox=\"0 0 ");
    append_px(&mut s, w);
    s.append(" ");
    append_px(&mut s, h);
    s.append("\" style=\"background-color: white;\">");
    proof {
        assert(s@ =~= spec_svg_header(w as int, h as int));
    }
    append_style_block(&mut s, &c.styles);
    let ghost after_styles = s@;
    s.append("<g>");
    append_rows(&mut s, c, w);
    let y2: i64 = 62 * ((c.gutter.top as i64) + (c.rows.len() as i64) * (c.row_height as i64));
    append_line_el(
        &mut s,
        "outer-lines",
        62 * (c.gutter.left as i64),
        y2,
        w - 62 * (c.gutter.right as i64),
        y2,
    );
    s.append("</g>");
    proof {
        assert(s@ =~= after_styles + "<g>"@ + spec_rows_markup(c, c.rows@.len() as int)
            + spec_line_el(
            "outer-lines"@,
            62 * c.gutter.left,
            y2 as int,
            spec_canvas_width(c) - 62 * c.gutter.right,
            y2 as int,
        ) + "</g>"@);
    }
    let ghost after_rows = s@;
    s.append("<g>");
    append_cols(&mut s, c);
    let tx: i64 = 62 * ((c.gutter.left as i64) + (c.title_width as i64));
    append_line_el(&mut s, "inner-lines", tx, 62 * (c.gutter.top as i64), tx, y2);
    s.append("</g>");
    proof {
        assert(s@ =~= after_rows + "<g>"@ + spec_cols_markup(c, c.cols@.len() as int)
            + spec_line_el(
            "inner-lines"@,
            tx as int,
            62 * c.gutter.top,
            tx as int,
            y2 as int,
        ) + "</g>"@);
    }
    let ghost after_cols = s@;
    append_text_el(
        &mut s,
        "heading task-heading",
        62 * ((c.gutter.left as i64) + (c.row_gutter.left as i64)),
        62 * ((c.gutter.top as i64) - (c.row_gutter.bottom as i64)) - 31 * (c.row_height as i64),
        "Tasks",
    );
    append_text_el(&mut s, "title", 62 * (c.gutter.left as i64), 1550, c.title.as_str());
    match c.marked_date_offset {
        Some(off) => {
            append_line_el(&mut s, "marker", off, 62 * (c.gutter.top as i64) - 310, off, y2 + 310);
        },
        None => {},
    }
    proof {
        assert(s@ =~= after_cols + spec_text_el(
            "heading task-heading"@,
            62 * (c.gutter.left + c.row_gutter.left),
            62 * (c.gutter.top - c.row_gutter.bottom) - 31 * c.row_height,
            "Tasks"@,
        ) + spec_text_el("title"@, 62 * c.gutter.left, 1550int, c.title@) + spec_marker_markup(c));
    }
    let ghost after_marker = s@;
    if use_legend {
        s.append("<g>");
        append_legends(&mut s, c);
        s.append("</g>");
        proof {
            assert(s@ =~= after_marker + "<g>"@ + spec_legends_markup(
                c,
                c.resources@.len() as int,
            ) + "</g>"@);
        }
    }
    s.append("</svg>");
    proof {
        assert(s@ =~= spec_rendered_chart(c, use_legend));
    }
    s
}

} // verus!
