//! The bounds of a scroll offset.
//!
//! A text drawn at a given width takes one row for each line, and for a line
//! that is wider than the viewport one more row for each full viewport width
//! that its spans fill. The largest offset that still shows text is the
//! number of rows beyond the height of the viewport.

use vstd::prelude::*;
use vstd::string::*;

use crate::text::{LineView, SpanView, StyledLine, StyledText};

verus! {

/// The number of terminal columns that `text` takes when it is drawn.
pub uninterp spec fn display_width(text: Seq<char>) -> nat;

/// Calls `ratatui::text::Span::width` on a span made of `text` by
/// `Span::raw`, which keeps the text as it is. `width` gives the Unicode
/// display width of the content of the span.
///
/// Believed, not proved: the width depends on the characters of `text`
/// alone, and is the one that `display_width` names.
#[verifier::external_body]
fn span_width(text: &str) -> (width: usize)
    ensures
        width == display_width(text@),
{
    ratatui::text::Span::raw(text).width()
}

/// The joint display width of the first `n` spans.
pub open spec fn spans_width(spans: Seq<SpanView>, n: int) -> nat
    decreases n,
{
    if n <= 0 {
        0
    } else {
        spans_width(spans, n - 1) + display_width(spans[n - 1].text)
    }
}

/// The display width of a line: the sum of the widths of its spans.
pub open spec fn line_width(line: LineView) -> nat {
    spans_width(line.spans, line.spans.len() as int)
}

/// The rows that a line takes in a viewport of `width` columns, which is
/// not zero: one, and one more for each full `width` of the line.
pub open spec fn line_rows(line: LineView, width: int) -> nat {
    (1 + line_width(line) / (width as nat)) as nat
}

/// The rows that the first `n` lines take in a viewport of `width` columns,
/// which is not zero.
pub open spec fn rows_of(lines: Seq<LineView>, n: int, width: int) -> nat
    decreases n,
{
    if n <= 0 {
        0
    } else {
        rows_of(lines, n - 1, width) + line_rows(lines[n - 1], width)
    }
}

/// The rows that a text takes in a viewport of `width` columns. A viewport
/// without width shows no row.
pub open spec fn total_rows(lines: Seq<LineView>, width: int) -> nat {
    if width <= 0 {
        0
    } else {
        rows_of(lines, lines.len() as int, width)
    }
}

/// The largest valid scroll offset: the rows that do not fit in `height`.
pub open spec fn max_scroll(lines: Seq<LineView>, width: int, height: int) -> nat {
    if total_rows(lines, width) > height {
        (total_rows(lines, width) - height) as nat
    } else {
        0
    }
}

/// The offset that a request for `requested` leads to: the request itself,
/// but no more than the largest valid offset.
pub open spec fn clamped_scroll(
    lines: Seq<LineView>,
    width: int,
    height: int,
    requested: int,
) -> int {
    if requested <= max_scroll(lines, width, height) {
        requested
    } else {
        max_scroll(lines, width, height) as int
    }
}

/// The lesser of two numbers.
pub open spec fn least(a: int, b: int) -> int {
    if a <= b {
        a
    } else {
        b
    }
}

/// The width from which a line fills more rows than are counted.
pub const WIDTH_LIMIT: u64 = 0x1_0000_0000_0000;

/// The largest number of rows that is counted.
pub const ROW_LIMIT: u32 = 0xffff_ffff;

/// A quotient is at least `k` where the dividend is at least `k` times the
/// divisor.
proof fn lemma_quotient_at_least(x: int, d: int, k: int)
    by (nonlinear_arith)
    requires
        d > 0,
        x >= d * k,
    ensures
        x / d >= k,
{
}

/// The display width of `line`, counted up to `WIDTH_LIMIT`.
fn capped_line_width(line: &StyledLine) -> (width: u64)
    ensures
        width == least(line_width(line@) as int, WIDTH_LIMIT as int),
{
    let ghost spans = line@.spans;
    let mut width: u64 = 0;
    let mut k: usize = 0;
    while k < line.spans.len()
        invariant
            k <= line.spans.len(),
            spans == line@.spans,
            width == least(spans_width(spans, k as int) as int, WIDTH_LIMIT as int),
        decreases line.spans.len() - k,
    {
        let w = span_width(line.spans[k].text.as_str());
        if w as u64 >= WIDTH_LIMIT - width {
            width = WIDTH_LIMIT;
        } else {
            width = width + w as u64;
        }
        k += 1;
    }
    width
}

/// The number of rows that `text` takes in a viewport of `width` columns,
/// counted up to `ROW_LIMIT`.
pub fn wrapped_line_count(text: &StyledText, width: u16) -> (rows: u32)
    ensures
        rows == least(total_rows(text@, width as int) as int, ROW_LIMIT as int),
{
    if width == 0 {
        return 0;
    }
    let ghost lines = text@;
    let mut rows: u64 = 0;
    let mut i: usize = 0;
    while i < text.lines.len()
        invariant
            i <= text.lines.len(),
            width > 0,
            lines == text@,
            rows == least(rows_of(lines, i as int, width as int) as int, ROW_LIMIT as int),
        decreases text.lines.len() - i,
    {
        let filled = capped_line_width(&text.lines[i]);
        let wraps = filled / (width as u64);
        proof {
            let full = line_width(lines[i as int]) as int;
            if full >= WIDTH_LIMIT {
                lemma_quotient_at_least(full, width as int, 0x1_0000_0000);
                lemma_quotient_at_least(WIDTH_LIMIT as int, width as int, 0x1_0000_0000);
            }
        }
        if wraps >= ROW_LIMIT as u64 - rows {
            rows = ROW_LIMIT as u64;
        } else {
            rows = rows + 1 + wraps;
        }
        i += 1;
    }
    rows as u32
}

/// The offset that a request for `requested` leads to in a viewport of
/// `viewport_width` columns and `viewport_height` rows: the request itself,
/// but no more than the rows of `model` that do not fit in the viewport.
pub fn clamp_scroll(
    model: &StyledText,
    viewport_width: u16,
    viewport_height: u16,
    requested: u16,
) -> (actual: u16)
    ensures
        actual == clamped_scroll(
            model@,
            viewport_width as int,
            viewport_height as int,
            requested as int,
        ),
        0 <= actual <= requested,
        actual <= max_scroll(model@, viewport_width as int, viewport_height as int),
{
    let rows = wrapped_line_count(model, viewport_width);
    let max = if rows > viewport_height as u32 {
        rows - viewport_height as u32
    } else {
        0
    };
    if requested as u32 <= max {
        requested
    } else {
        max as u16
    }
}

/// The offset one row further down, as far as the text reaches.
pub open spec fn scrolled_down(lines: Seq<LineView>, width: int, height: int, offset: int) -> int {
    clamped_scroll(lines, width, height, least(offset + 1, u16::MAX as int))
}

/// The offset one row further up; the top stays the top.
pub open spec fn scrolled_up(offset: int) -> int {
    if offset == 0 {
        0
    } else {
        offset - 1
    }
}

/// The offset one row below `offset`, as far as `model` reaches in the
/// viewport.
pub fn scroll_down(
    model: &StyledText,
    viewport_width: u16,
    viewport_height: u16,
    offset: u16,
) -> (actual: u16)
    ensures
        actual == scrolled_down(
            model@,
            viewport_width as int,
            viewport_height as int,
            offset as int,
        ),
{
    clamp_scroll(model, viewport_width, viewport_height, offset.saturating_add(1))
}

/// The offset one row above `offset`; the top stays the top.
pub fn scroll_up(offset: u16) -> (actual: u16)
    ensures
        actual == scrolled_up(offset as int),
{
    if offset == 0 {
        0
    } else {
        offset - 1
    }
}

} // verus!
