//! The chapter renderer: from the markup tree of a chapter to its styled
//! lines.
//!
//! A chapter is rendered from its `body` element. A `header` inside the body
//! gives the title, the subtitle, the introduction and the summary, each only
//! where it is present. Every node of class `verse` below the body gives one
//! line, followed by a blank line.

use vstd::prelude::*;
use vstd::string::*;

use crate::marker::{footnote_unicode, optional_marker_glyph};
use crate::markup::{
    arena_wf, first_child_with, node_wf, recursive_text_as_string, subtree_end, subtree_text,
    tagged, MarkupTree, NodeView,
};
use crate::seqs::{concat_range, first_in_range, lemma_first_in_range};
use crate::text::{
    blank_line, heading_line, plain_span, single_span_line, slanted_span, LineView, SpanView,
    StyledLine, StyledSpan, StyledText,
};

verus! {

/// The span that the text of a node gives: one span where the node has text,
/// none where it has not.
pub open spec fn text_spans(text: Option<Seq<char>>, bold: bool, italic: bool) -> Seq<SpanView> {
    match text {
        Some(t) => seq![SpanView { text: t, bold, italic }],
        None => Seq::empty(),
    }
}

/// The spans that node `c`, a child of a footnote reference, gives. A `sup`
/// element gives the glyph of its tag where the tag has one, a text node
/// gives its text, and every other node gives nothing. The spans are italic
/// exactly when `italic` is set.
pub open spec fn note_child_spans(nodes: Seq<NodeView>, c: int, italic: bool) -> Seq<SpanView> {
    if nodes[c].tag == "sup"@ {
        match optional_marker_glyph(nodes[c].text) {
            Some(glyph) => seq![slanted_span(glyph, italic)],
            None => Seq::empty(),
        }
    } else if nodes[c].is_text {
        text_spans(nodes[c].text, false, italic)
    } else {
        Seq::empty()
    }
}

/// `note_child_spans` over the places of a list of children.
pub open spec fn note_child_fn(nodes: Seq<NodeView>, children: Seq<usize>, italic: bool) -> spec_fn(
    int,
) -> Seq<SpanView> {
    |k: int| note_child_spans(nodes, children[k] as int, italic)
}

/// The spans of the footnote reference at node `r`: those of its children,
/// in order.
pub open spec fn note_ref_spans(nodes: Seq<NodeView>, r: int, italic: bool) -> Seq<SpanView> {
    concat_range(
        0,
        nodes[r].children.len() as int,
        note_child_fn(nodes, nodes[r].children, italic),
    )
}

/// The spans that node `c`, a child of a clarity word without text of its
/// own, gives: those of a footnote reference, in italics; the text of a text
/// node, in italics; nothing for any other node.
pub open spec fn clarity_child_spans(nodes: Seq<NodeView>, c: int) -> Seq<SpanView> {
    if nodes[c].has_class("study-note-ref"@) {
        note_ref_spans(nodes, c, true)
    } else if nodes[c].is_text {
        text_spans(nodes[c].text, false, true)
    } else {
        Seq::empty()
    }
}

/// `clarity_child_spans` over the places of a list of children.
pub open spec fn clarity_child_fn(nodes: Seq<NodeView>, children: Seq<usize>) -> spec_fn(
    int,
) -> Seq<SpanView> {
    |k: int| clarity_child_spans(nodes, children[k] as int)
}

/// The spans of the clarity word at node `w`: its own text in italics where
/// it has text, and else what its children give.
pub open spec fn clarity_spans(nodes: Seq<NodeView>, w: int) -> Seq<SpanView> {
    match nodes[w].text {
        Some(t) => seq![slanted_span(t, true)],
        None => concat_range(
            0,
            nodes[w].children.len() as int,
            clarity_child_fn(nodes, nodes[w].children),
        ),
    }
}

/// The spans that node `c`, a child of a verse, gives.
pub open spec fn verse_child_spans(nodes: Seq<NodeView>, c: int) -> Seq<SpanView> {
    if nodes[c].has_class("verse-number"@) {
        text_spans(nodes[c].text, true, false)
    } else if nodes[c].has_class("para-mark"@) || nodes[c].is_text {
        text_spans(nodes[c].text, false, false)
    } else if nodes[c].has_class("clarity-word"@) {
        clarity_spans(nodes, c)
    } else if nodes[c].has_class("study-note-ref"@) {
        note_ref_spans(nodes, c, false)
    } else {
        Seq::empty()
    }
}

/// `verse_child_spans` over the places of a list of children.
pub open spec fn verse_child_fn(nodes: Seq<NodeView>, children: Seq<usize>) -> spec_fn(int) -> Seq<
    SpanView,
> {
    |k: int| verse_child_spans(nodes, children[k] as int)
}

/// The line of the verse at node `v`: what its children give, in order.
pub open spec fn verse_line(nodes: Seq<NodeView>, v: int) -> LineView {
    LineView {
        spans: concat_range(
            0,
            nodes[v].children.len() as int,
            verse_child_fn(nodes, nodes[v].children),
        ),
        alignment: None,
    }
}

/// The lines that node `i` gives as a verse: its line and a blank line where
/// its class is `verse`, nothing otherwise.
pub open spec fn verse_block(nodes: Seq<NodeView>, i: int) -> Seq<LineView> {
    if nodes[i].has_class("verse"@) {
        seq![verse_line(nodes, i), blank_line()]
    } else {
        Seq::empty()
    }
}

/// `verse_block` over the places of an arena.
pub open spec fn verse_block_fn(nodes: Seq<NodeView>) -> spec_fn(int) -> Seq<LineView> {
    |i: int| verse_block(nodes, i)
}

/// The lines of the verses at the places `from..to`, in document order.
pub open spec fn verse_lines(nodes: Seq<NodeView>, from: int, to: int) -> Seq<LineView> {
    concat_range(from, to, verse_block_fn(nodes))
}

/// The heading that the child of `header` with the id `id` gives: one
/// centred bold line with the text below that child; nothing without it.
pub open spec fn heading_lines(nodes: Seq<NodeView>, header: int, id: Seq<char>) -> Seq<LineView> {
    match first_child_with(nodes, header, "id"@, id) {
        Some(c) => seq![heading_line(subtree_text(nodes, c))],
        None => Seq::empty(),
    }
}

/// The introduction: a blank line and one plain line with the text below the
/// child of `header` with the id `intro1`; nothing without that child.
pub open spec fn intro_lines(nodes: Seq<NodeView>, header: int) -> Seq<LineView> {
    match first_child_with(nodes, header, "id"@, "intro1"@) {
        Some(c) => seq![blank_line(), single_span_line(plain_span(subtree_text(nodes, c)))],
        None => Seq::empty(),
    }
}

/// The summary: one italic line with the text below the child of `header` of
/// class `study-summary`, between two blank lines; nothing without that
/// child.
pub open spec fn summary_lines(nodes: Seq<NodeView>, header: int) -> Seq<LineView> {
    match first_child_with(nodes, header, "class"@, "study-summary"@) {
        Some(c) => seq![
            blank_line(),
            single_span_line(slanted_span(subtree_text(nodes, c), true)),
            blank_line(),
        ],
        None => Seq::empty(),
    }
}

/// The lines of the header at node `header`: title, subtitle, introduction
/// and summary, in this order.
pub open spec fn header_lines(nodes: Seq<NodeView>, header: int) -> Seq<LineView> {
    heading_lines(nodes, header, "title1"@) + heading_lines(nodes, header, "subtitle1"@)
        + intro_lines(nodes, header) + summary_lines(nodes, header)
}

/// The first `header` element in the subtree of node `body`.
pub open spec fn header_of(nodes: Seq<NodeView>, body: int) -> Option<int> {
    first_in_range(body, subtree_end(nodes, body), tagged(nodes, "header"@))
}

/// The lines of the body at node `body`: those of its header, where it has
/// one, and then those of its verses.
pub open spec fn body_lines(nodes: Seq<NodeView>, body: int) -> Seq<LineView> {
    let head = match header_of(nodes, body) {
        Some(h) => header_lines(nodes, h),
        None => Seq::empty(),
    };
    head + verse_lines(nodes, body, subtree_end(nodes, body))
}

/// The first `body` element of the tree.
pub open spec fn body_of(nodes: Seq<NodeView>) -> Option<int> {
    first_in_range(0, nodes.len() as int, tagged(nodes, "body"@))
}

/// The styled text of a chapter with the markup tree `nodes`: the lines of
/// its body, and no line at all where the tree has no body.
pub open spec fn rendered_text(nodes: Seq<NodeView>) -> Seq<LineView> {
    match body_of(nodes) {
        Some(b) => body_lines(nodes, b),
        None => Seq::empty(),
    }
}

/// The value of a string slice that may be absent.
pub open spec fn optional_str(text: Option<&str>) -> Option<Seq<char>> {
    match text {
        Some(t) => Some(t@),
        None => None,
    }
}

/// Appends to `line` the span that `text` gives.
fn push_text(line: &mut StyledLine, text: Option<&str>, bold: bool, italic: bool)
    ensures
        final(line)@.spans == old(line)@.spans + text_spans(optional_str(text), bold, italic),
        final(line)@.alignment == old(line)@.alignment,
{
    match text {
        Some(t) => {
            line.push(StyledSpan { text: t.to_owned(), bold, italic });
        },
        None => {},
    }
}

/// Appends to `line` the spans of the footnote reference at node `r`.
fn push_note_ref(tree: &MarkupTree, r: usize, italic: bool, line: &mut StyledLine)
    requires
        r < tree@.len(),
    ensures
        final(line)@.spans == old(line)@.spans + note_ref_spans(tree@, r as int, italic),
        final(line)@.alignment == old(line)@.alignment,
{
    let node = tree.node(r);
    let ghost children = tree@[r as int].children;
    let ghost pieces = note_child_fn(tree@, children, italic);
    let mut k: usize = 0;
    while k < node.children.len()
        invariant
            k <= node.children.len(),
            r < tree@.len(),
            node@ == tree@[r as int],
            node_wf(tree@, r as int),
            children == tree@[r as int].children,
            pieces == note_child_fn(tree@, children, italic),
            line@.spans == old(line)@.spans + concat_range(0, k as int, pieces),
            line@.alignment == old(line)@.alignment,
        decreases node.children.len() - k,
    {
        let c = node.children[k];
        let child = tree.node(c);
        if child.has_tag("sup") {
            match footnote_unicode(child.text()) {
                Some(glyph) => {
                    line.push(StyledSpan::slanted(glyph.to_owned(), italic));
                },
                None => {},
            }
        } else if child.is_text {
            push_text(line, child.text(), false, italic);
        }
        k += 1;
    }
}

/// Appends to `line` the spans of the clarity word at node `w`.
fn push_clarity_word(tree: &MarkupTree, w: usize, line: &mut StyledLine)
    requires
        w < tree@.len(),
    ensures
        final(line)@.spans == old(line)@.spans + clarity_spans(tree@, w as int),
        final(line)@.alignment == old(line)@.alignment,
{
    let node = tree.node(w);
    match node.text() {
        Some(t) => {
            line.push(StyledSpan::slanted(t.to_owned(), true));
        },
        None => {
            let ghost children = tree@[w as int].children;
            let ghost pieces = clarity_child_fn(tree@, children);
            let mut k: usize = 0;
            while k < node.children.len()
                invariant
                    k <= node.children.len(),
                    w < tree@.len(),
                    node@ == tree@[w as int],
                    node_wf(tree@, w as int),
                    children == tree@[w as int].children,
                    pieces == clarity_child_fn(tree@, children),
                    line@.spans == old(line)@.spans + concat_range(0, k as int, pieces),
                    line@.alignment == old(line)@.alignment,
                decreases node.children.len() - k,
            {
                let c = node.children[k];
                let child = tree.node(c);
                        if child.has_class("study-note-ref") {
                    push_note_ref(tree, c, true, line);
                } else if child.is_text {
                    push_text(line, child.text(), false, true);
                }
                k += 1;
            }
        },
    }
}

/// The line of the verse at `node`: the verse number in bold, paragraph marks
/// and bare text plain, clarity words in italics, and the glyph of each
/// footnote reference.
pub fn verse_text(tree: &MarkupTree, node: usize) -> (line: StyledLine)
    requires
        node < tree@.len(),
    ensures
        line@ == verse_line(tree@, node as int),
{
    let mut line = StyledLine::blank();
    let verse = tree.node(node);
    let ghost children = tree@[node as int].children;
    let ghost pieces = verse_child_fn(tree@, children);
    let mut k: usize = 0;
    while k < verse.children.len()
        invariant
            k <= verse.children.len(),
            node < tree@.len(),
            verse@ == tree@[node as int],
            node_wf(tree@, node as int),
            children == tree@[node as int].children,
            pieces == verse_child_fn(tree@, children),
            line@.spans == concat_range(0, k as int, pieces),
            line@.alignment is None,
        decreases verse.children.len() - k,
    {
        let c = verse.children[k];
        let child = tree.node(c);
        if child.has_class("verse-number") {
            push_text(&mut line, child.text(), true, false);
        } else if child.has_class("para-mark") || child.is_text {
            push_text(&mut line, child.text(), false, false);
        } else if child.has_class("clarity-word") {
            push_clarity_word(tree, c, &mut line);
        } else if child.has_class("study-note-ref") {
            push_note_ref(tree, c, false, &mut line);
        }
        k += 1;
    }
    line
}

/// The text below `node`, as one string.
fn text_below(tree: &MarkupTree, node: usize) -> (text: String)
    requires
        node < tree@.len(),
    ensures
        text@ == subtree_text(tree@, node as int),
{
    let mut text = String::new();
    recursive_text_as_string(tree, node, &mut text);
    text
}

/// Appends to `text` the heading that the child of `header` with the id `id`
/// gives.
fn push_heading(tree: &MarkupTree, header: usize, id: &str, text: &mut StyledText)
    requires
        header < tree@.len(),
    ensures
        final(text)@ == old(text)@ + heading_lines(tree@, header as int, id@),
{
    match tree.find_child_with(header, "id", id) {
        Some(c) => {
            text.push(StyledLine::heading(text_below(tree, c)));
        },
        None => {},
    }
}

/// Appends to `text` the lines of the header at node `header`.
fn push_header(tree: &MarkupTree, header: usize, text: &mut StyledText)
    requires
        header < tree@.len(),
    ensures
        final(text)@ == old(text)@ + header_lines(tree@, header as int),
{
    push_heading(tree, header, "title1", text);
    push_heading(tree, header, "subtitle1", text);
    match tree.find_child_with(header, "id", "intro1") {
        Some(c) => {
            text.push(StyledLine::blank());
            text.push(StyledLine::single(StyledSpan::raw(text_below(tree, c))));
        },
        None => {},
    }
    match tree.find_child_with(header, "class", "study-summary") {
        Some(c) => {
            text.push(StyledLine::blank());
            text.push(StyledLine::single(StyledSpan::slanted(text_below(tree, c), true)));
            text.push(StyledLine::blank());
        },
        None => {},
    }
}

/// Renders the chapter whose markup tree is `tree`.
pub fn render_tree(tree: &MarkupTree) -> (text: StyledText)
    ensures
        text@ == rendered_text(tree@),
{
    let mut text = StyledText::empty();
    let body = match tree.find_tag(0, tree.len(), "body") {
        Some(b) => b,
        None => {
            return text;
        },
    };
    let end = tree.subtree_end(body);
    match tree.find_tag(body, end, "header") {
        Some(header) => {
            push_header(tree, header, &mut text);
        },
        None => {},
    }
    let ghost head = text@;
    let ghost blocks = verse_block_fn(tree@);
    let mut i = body;
    while i < end
        invariant
            body <= i <= end,
            end <= tree@.len(),
            blocks == verse_block_fn(tree@),
            text@ == head + concat_range(body as int, i as int, blocks),
        decreases end - i,
    {
        if tree.node(i).has_class("verse") {
            text.push(verse_text(tree, i));
            text.push(StyledLine::blank());
        }
        i += 1;
    }
    text
}

/// A chapter without a `header` element gives no title, subtitle,
/// introduction or summary: its text is the lines of its verses.
pub proof fn lemma_no_header_only_verses(nodes: Seq<NodeView>)
    requires
        arena_wf(nodes),
        forall|i: int| 0 <= i < nodes.len() ==> (#[trigger] nodes[i]).tag != "header"@,
    ensures
        rendered_text(nodes) == match body_of(nodes) {
            Some(b) => verse_lines(nodes, b, subtree_end(nodes, b)),
            None => Seq::empty(),
        },
{
    lemma_first_in_range(0, nodes.len() as int, tagged(nodes, "body"@));
    match body_of(nodes) {
        Some(b) => {
            assert(node_wf(nodes, b));
            lemma_first_in_range(b, subtree_end(nodes, b), tagged(nodes, "header"@));
        },
        None => {},
    }
}

} // verus!
