//! The styled text model: what the renderer and the footnote linker produce.

use vstd::prelude::*;

verus! {

/// Horizontal placement of a line inside its viewport.
#[derive(Clone, Copy, Debug, PartialEq, Eq, Structural)]
pub enum Alignment {
    Left,
    Center,
    Right,
}

/// A run of text with one emphasis setting.
#[derive(Clone, Debug, PartialEq, Eq)]
pub struct StyledSpan {
    pub text: String,
    pub bold: bool,
    pub italic: bool,
}

/// The mathematical value of a [`StyledSpan`].
pub struct SpanView {
    pub text: Seq<char>,
    pub bold: bool,
    pub italic: bool,
}

impl View for StyledSpan {
    type V = SpanView;

    open spec fn view(&self) -> SpanView {
        SpanView { text: self.text@, bold: self.bold, italic: self.italic }
    }
}

/// One line: its spans from left to right, and where the line is placed.
/// No alignment means the default, which is left.
#[derive(Clone, Debug, PartialEq, Eq)]
pub struct StyledLine {
    pub spans: Vec<StyledSpan>,
    pub alignment: Option<Alignment>,
}

/// The mathematical value of a [`StyledLine`].
pub struct LineView {
    pub spans: Seq<SpanView>,
    pub alignment: Option<Alignment>,
}

impl View for StyledLine {
    type V = LineView;

    open spec fn view(&self) -> LineView {
        LineView { spans: span_views(self.spans@), alignment: self.alignment }
    }
}

/// A whole text: its lines from top to bottom.
#[derive(Clone, Debug, PartialEq, Eq)]
pub struct StyledText {
    pub lines: Vec<StyledLine>,
}

impl View for StyledText {
    type V = Seq<LineView>;

    open spec fn view(&self) -> Seq<LineView> {
        line_views(self.lines@)
    }
}

/// The values of a sequence of spans, in order.
pub open spec fn span_views(spans: Seq<StyledSpan>) -> Seq<SpanView> {
    spans.map_values(|s: StyledSpan| s@)
}

/// The values of a sequence of lines, in order.
pub open spec fn line_views(lines: Seq<StyledLine>) -> Seq<LineView> {
    lines.map_values(|l: StyledLine| l@)
}

/// A span without emphasis.
pub open spec fn plain_span(text: Seq<char>) -> SpanView {
    SpanView { text, bold: false, italic: false }
}

/// A bold span.
pub open spec fn bold_span(text: Seq<char>) -> SpanView {
    SpanView { text, bold: true, italic: false }
}

/// A span that is italic exactly when `italic` is set.
pub open spec fn slanted_span(text: Seq<char>, italic: bool) -> SpanView {
    SpanView { text, bold: false, italic }
}

/// A line without spans and without alignment.
pub open spec fn blank_line() -> LineView {
    LineView { spans: Seq::empty(), alignment: None }
}

/// A line of one span, with the default alignment.
pub open spec fn single_span_line(span: SpanView) -> LineView {
    LineView { spans: seq![span], alignment: None }
}

/// A centred line of one bold span: the form of a heading.
pub open spec fn heading_line(text: Seq<char>) -> LineView {
    LineView { spans: seq![bold_span(text)], alignment: Some(Alignment::Center) }
}

impl StyledSpan {
    /// A span without emphasis.
    pub fn raw(text: String) -> (span: StyledSpan)
        ensures
            span@ == plain_span(text@),
    {
        StyledSpan { text, bold: false, italic: false }
    }

    /// A bold span.
    pub fn bold(text: String) -> (span: StyledSpan)
        ensures
            span@ == bold_span(text@),
    {
        StyledSpan { text, bold: true, italic: false }
    }

    /// A span that is italic exactly when `italic` is set.
    pub fn slanted(text: String, italic: bool) -> (span: StyledSpan)
        ensures
            span@ == slanted_span(text@, italic),
    {
        StyledSpan { text, bold: false, italic }
    }
}

impl StyledLine {
    /// The blank line.
    pub fn blank() -> (line: StyledLine)
        ensures
            line@ == blank_line(),
    {
        let line = StyledLine { spans: Vec::new(), alignment: None };
        assert(line@.spans =~= Seq::<SpanView>::empty());
        line
    }

    /// A line that holds `span` alone, with the default alignment.
    pub fn single(span: StyledSpan) -> (line: StyledLine)
        ensures
            line@ == single_span_line(span@),
    {
        let mut spans: Vec<StyledSpan> = Vec::new();
        spans.push(span);
        let line = StyledLine { spans, alignment: None };
        assert(line@.spans =~= seq![span@]);
        line
    }

    /// A centred line that holds `text` in bold.
    pub fn heading(text: String) -> (line: StyledLine)
        ensures
            line@ == heading_line(text@),
    {
        let mut spans: Vec<StyledSpan> = Vec::new();
        spans.push(StyledSpan::bold(text));
        let line = StyledLine { spans, alignment: Some(Alignment::Center) };
        assert(line@.spans =~= seq![bold_span(text@)]);
        line
    }

    /// Appends `span` at the right end.
    pub fn push(&mut self, span: StyledSpan)
        ensures
            final(self)@.spans == old(self)@.spans.push(span@),
            final(self)@.alignment == old(self)@.alignment,
    {
        self.spans.push(span);
    }

    /// Appends all of `spans` at the right end, in order.
    pub fn extend(&mut self, spans: Vec<StyledSpan>)
        ensures
            final(self)@.spans == old(self)@.spans + span_views(spans@),
            final(self)@.alignment == old(self)@.alignment,
    {
        let mut spans = spans;
        self.spans.append(&mut spans);
    }
}

impl StyledText {
    /// The text without lines.
    pub fn empty() -> (text: StyledText)
        ensures
            text@ == Seq::<LineView>::empty(),
    {
        StyledText { lines: Vec::new() }
    }

    /// Appends `line` at the bottom.
    pub fn push(&mut self, line: StyledLine)
        ensures
            final(self)@ == old(self)@.push(line@),
    {
        self.lines.push(line);
    }

    /// Appends all lines of `other` at the bottom, in order.
    pub fn extend(&mut self, other: StyledText)
        ensures
            final(self)@ == old(self)@ + other@,
    {
        let mut other = other;
        self.lines.append(&mut other.lines);
    }

    /// The number of lines.
    pub fn len(&self) -> (n: usize)
        ensures
            n == self@.len(),
    {
        self.lines.len()
    }
}

} // verus!
