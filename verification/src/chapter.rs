//! A chapter with its footnotes, and the footnote linker.
//!
//! The linker scans the markup of a chapter for footnote references, in
//! document order, and gives one line for each reference that the footnote
//! table of the chapter knows. A reference without an entry gives no line; a
//! reference that occurs twice gives its line twice.

use vstd::hash_map::StringHashMap;
use vstd::prelude::*;
use vstd::string::*;

use crate::error::{AppError, AppResult};
use crate::markup::{collected_text, markup_tree, parse_markup, MarkupTree, NodeView};
use crate::render::{render_tree, rendered_text};
use crate::seqs::{concat_range, lemma_concat_range_singles};
use crate::text::{bold_span, plain_span, LineView, StyledLine, StyledSpan, StyledText};

verus! {

/// A footnote: the id by which the text refers to it, its label and its
/// content, both as markup.
#[derive(Debug, PartialEq, Eq)]
pub struct Footnote {
    pub id: String,
    pub label_html: String,
    pub content_html: String,
}

/// The mathematical value of a [`Footnote`].
pub struct FootnoteView {
    pub id: Seq<char>,
    pub label_html: Seq<char>,
    pub content_html: Seq<char>,
}

impl View for Footnote {
    type V = FootnoteView;

    open spec fn view(&self) -> FootnoteView {
        FootnoteView {
            id: self.id@,
            label_html: self.label_html@,
            content_html: self.content_html@,
        }
    }
}

impl Clone for Footnote {
    fn clone(&self) -> (copy: Footnote)
        ensures
            copy@ == self@,
    {
        Footnote {
            id: self.id.clone(),
            label_html: self.label_html.clone(),
            content_html: self.content_html.clone(),
        }
    }
}

/// The values of a sequence of footnotes, in order.
pub open spec fn footnote_views(footnotes: Seq<Footnote>) -> Seq<FootnoteView> {
    footnotes.map_values(|f: Footnote| f@)
}

/// The table that holds the first `n` of `footnotes` under their ids. Where
/// two of them share an id, the later one stays.
pub open spec fn footnote_table(footnotes: Seq<FootnoteView>, n: int) -> Map<
    Seq<char>,
    FootnoteView,
>
    decreases n,
{
    if n <= 0 {
        Map::empty()
    } else {
        footnote_table(footnotes, n - 1).insert(footnotes[n - 1].id, footnotes[n - 1])
    }
}

/// A chapter: its title, the markup of its body, and its footnotes by id.
pub struct Chapter {
    pub title: String,
    pub html_content: String,
    pub footnotes: StringHashMap<Footnote>,
}

/// The mathematical value of a [`Chapter`].
pub struct ChapterView {
    pub title: Seq<char>,
    pub html_content: Seq<char>,
    pub footnotes: Map<Seq<char>, FootnoteView>,
}

impl View for Chapter {
    type V = ChapterView;

    open spec fn view(&self) -> ChapterView {
        ChapterView {
            title: self.title@,
            html_content: self.html_content@,
            footnotes: self.footnotes@.map_values(|f: Footnote| f@),
        }
    }
}

/// The references that node `i` gives: the value of its `data-ref` attribute
/// where its class is `study-note-ref` and it has that attribute.
pub open spec fn reference_at(nodes: Seq<NodeView>, i: int) -> Seq<Seq<char>> {
    if nodes[i].has_class("study-note-ref"@) {
        match nodes[i].attribute("data-ref"@) {
            Some(id) => seq![id],
            None => Seq::empty(),
        }
    } else {
        Seq::empty()
    }
}

/// `reference_at` over the places of an arena.
pub open spec fn reference_fn(nodes: Seq<NodeView>) -> spec_fn(int) -> Seq<Seq<char>> {
    |i: int| reference_at(nodes, i)
}

/// The ids that the markup refers to, in document order, each as often as it
/// occurs.
pub open spec fn references(nodes: Seq<NodeView>) -> Seq<Seq<char>> {
    concat_range(0, nodes.len() as int, reference_fn(nodes))
}

/// A fragment of markup, wrapped as one paragraph, so that text at its top
/// level has an element around it.
pub open spec fn wrapped(fragment: Seq<char>) -> Seq<char> {
    "<p>"@ + fragment + "</p>"@
}

/// All the text of a tree, in document order.
pub open spec fn whole_text(nodes: Seq<NodeView>) -> Seq<char> {
    collected_text(nodes, 0, nodes.len() as int)
}

/// The tree of a fragment of markup: the tree of the fragment as it stands
/// where it has one, as a fragment that opens with a declaration may, and
/// else the tree of the wrapped fragment, where that has one.
pub open spec fn fragment_tree(fragment: Seq<char>) -> Option<Seq<NodeView>> {
    match markup_tree(fragment) {
        Some(nodes) => Some(nodes),
        None => markup_tree(wrapped(fragment)),
    }
}

/// The text of a fragment of markup: all the text of its tree, where it has
/// one.
pub open spec fn fragment_text(fragment: Seq<char>) -> Option<Seq<char>> {
    match fragment_tree(fragment) {
        Some(nodes) => Some(whole_text(nodes)),
        None => None,
    }
}

/// The line of a footnote with the given label and content: the label in
/// bold, then the content.
pub open spec fn footnote_line(label: Seq<char>, content: Seq<char>) -> LineView {
    LineView { spans: seq![bold_span(label), plain_span(content)], alignment: None }
}

/// Whether the label and the content of a footnote each have a tree.
pub open spec fn footnote_parses(footnote: FootnoteView) -> bool {
    fragment_text(footnote.label_html) is Some && fragment_text(footnote.content_html) is Some
}

/// Whether the reference `id` can be linked: the table does not know it, or
/// its footnote parses.
pub open spec fn reference_links(table: Map<Seq<char>, FootnoteView>, id: Seq<char>) -> bool {
    table.contains_key(id) ==> footnote_parses(table[id])
}

/// The lines that the reference `id` gives: the line of its footnote where
/// the table knows `id`, and nothing where it does not.
pub open spec fn linked_lines(table: Map<Seq<char>, FootnoteView>, id: Seq<char>) -> Seq<
    LineView,
> {
    if table.contains_key(id) {
        seq![
            footnote_line(
                fragment_text(table[id].label_html).unwrap(),
                fragment_text(table[id].content_html).unwrap(),
            ),
        ]
    } else {
        Seq::empty()
    }
}

/// `linked_lines` over the places of a list of references.
pub open spec fn linked_fn(table: Map<Seq<char>, FootnoteView>, ids: Seq<Seq<char>>) -> spec_fn(
    int,
) -> Seq<LineView> {
    |k: int| linked_lines(table, ids[k])
}

/// The lines of the references `ids`, in order.
pub open spec fn footnote_lines(table: Map<Seq<char>, FootnoteView>, ids: Seq<Seq<char>>) -> Seq<
    LineView,
> {
    concat_range(0, ids.len() as int, linked_fn(table, ids))
}

/// Whether each of the references `ids` can be linked.
pub open spec fn references_link(
    table: Map<Seq<char>, FootnoteView>,
    ids: Seq<Seq<char>>,
) -> bool {
    forall|k: int| 0 <= k < ids.len() ==> reference_links(table, #[trigger] ids[k])
}

/// The footnote text of a chapter: the lines of the references of its
/// markup. There is none where the markup of the chapter has no tree, or
/// where a footnote that it refers to does not parse.
pub open spec fn linked_footnotes(chapter: ChapterView) -> Option<Seq<LineView>> {
    match markup_tree(chapter.html_content) {
        Some(nodes) => if references_link(chapter.footnotes, references(nodes)) {
            Some(footnote_lines(chapter.footnotes, references(nodes)))
        } else {
            None
        },
        None => None,
    }
}

/// The values of a sequence of strings, in order.
pub open spec fn string_views(strings: Seq<String>) -> Seq<Seq<char>> {
    strings.map_values(|s: String| s@)
}

/// The ids that `tree` refers to, in document order.
pub fn references_of(tree: &MarkupTree) -> (ids: Vec<String>)
    ensures
        string_views(ids@) == references(tree@),
{
    let mut ids: Vec<String> = Vec::new();
    let ghost pieces = reference_fn(tree@);
    let mut i: usize = 0;
    while i < tree.len()
        invariant
            i <= tree@.len(),
            pieces == reference_fn(tree@),
            string_views(ids@) == concat_range(0, i as int, pieces),
        decreases tree@.len() - i,
    {
        let node = tree.node(i);
        if node.has_class("study-note-ref") {
            match node.attribute("data-ref") {
                Some(id) => {
                    ids.push(id.to_owned());
                },
                None => {},
            }
        }
        i += 1;
    }
    ids
}

/// Wraps a fragment of markup as one paragraph.
pub fn wrap_fragment(fragment: &str) -> (markup: String)
    ensures
        markup@ == wrapped(fragment@),
{
    let mut markup = "<p>".to_owned();
    markup.append(fragment);
    markup.append("</p>");
    markup
}

/// Parses a fragment of markup into its tree: as it stands where that
/// parses, and else wrapped as one paragraph. Fails exactly when the
/// fragment has no tree either way.
pub fn parse_fragment(fragment: &str) -> (tree: AppResult<MarkupTree>)
    ensures
        match tree {
            Ok(t) => fragment_tree(fragment@) == Some(t@),
            Err(e) => fragment_tree(fragment@) is None && e == AppError::Markup,
        },
{
    match parse_markup(fragment) {
        Ok(tree) => Ok(tree),
        Err(_) => parse_markup(wrap_fragment(fragment).as_str()),
    }
}

/// All the text of `tree`, as one string.
pub fn text_of_tree(tree: &MarkupTree) -> (text: String)
    ensures
        text@ == whole_text(tree@),
{
    let mut text = String::new();
    tree.collect_text(0, tree.len(), &mut text);
    text
}

/// The line of a footnote whose label has the tree `label` and whose
/// content has the tree `content`.
pub fn footnote_text(label: &MarkupTree, content: &MarkupTree) -> (line: StyledLine)
    ensures
        line@ == footnote_line(whole_text(label@), whole_text(content@)),
{
    let mut line = StyledLine::blank();
    line.push(StyledSpan::bold(text_of_tree(label)));
    line.push(StyledSpan::raw(text_of_tree(content)));
    assert(line@.spans =~= footnote_line(whole_text(label@), whole_text(content@)).spans);
    line
}

impl Footnote {
    /// The line of this footnote. Fails exactly when its label or its
    /// content has no tree, neither as it stands nor wrapped as a paragraph.
    pub fn line(&self) -> (line: AppResult<StyledLine>)
        ensures
            match line {
                Ok(l) => footnote_parses(self@) && l@ == footnote_line(
                    fragment_text(self@.label_html).unwrap(),
                    fragment_text(self@.content_html).unwrap(),
                ),
                Err(e) => !footnote_parses(self@) && e == AppError::Markup,
            },
    {
        let label = match parse_fragment(self.label_html.as_str()) {
            Ok(tree) => tree,
            Err(e) => {
                return Err(e);
            },
        };
        let content = match parse_fragment(self.content_html.as_str()) {
            Ok(tree) => tree,
            Err(e) => {
                return Err(e);
            },
        };
        Ok(footnote_text(&label, &content))
    }
}

impl Chapter {
    /// A chapter with the given title and markup, and with `footnotes` in its
    /// table under their ids.
    pub fn new(title: String, html_content: String, footnotes: &Vec<Footnote>) -> (chapter:
        Chapter)
        ensures
            chapter@ == (ChapterView {
                title: title@,
                html_content: html_content@,
                footnotes: footnote_table(footnote_views(footnotes@), footnotes@.len() as int),
            }),
    {
        let ghost views = footnote_views(footnotes@);
        let mut table: StringHashMap<Footnote> = StringHashMap::new();
        let mut i: usize = 0;
        while i < footnotes.len()
            invariant
                i <= footnotes.len(),
                views == footnote_views(footnotes@),
                table@.map_values(|f: Footnote| f@) == footnote_table(views, i as int),
            decreases footnotes.len() - i,
        {
            let footnote = footnotes[i].clone();
            table.insert(footnote.id.clone(), footnote);
            i += 1;
        }
        Chapter { title, html_content, footnotes: table }
    }

    /// The footnote with the id `id`, where the table knows it.
    pub fn footnote(&self, id: &str) -> (found: Option<&Footnote>)
        ensures
            match found {
                Some(f) => self@.footnotes.contains_key(id@) && f@ == self@.footnotes[id@],
                None => !self@.footnotes.contains_key(id@),
            },
    {
        self.footnotes.get(id)
    }

    /// The ids that the markup of the chapter refers to, in document order.
    /// Fails exactly when the markup has no tree.
    pub fn refs_in_order(&self) -> (ids: AppResult<Vec<String>>)
        ensures
            match ids {
                Ok(found) => markup_tree(self@.html_content) matches Some(nodes) && string_views(
                    found@,
                ) == references(nodes),
                Err(e) => markup_tree(self@.html_content) is None && e == AppError::Markup,
            },
    {
        match parse_markup(self.html_content.as_str()) {
            Ok(tree) => Ok(references_of(&tree)),
            Err(e) => Err(e),
        }
    }

    /// The lines of the references `ids`, in order. Fails exactly when a
    /// footnote that one of them refers to does not parse.
    pub fn link(&self, ids: &Vec<String>) -> (text: AppResult<StyledText>)
        ensures
            match text {
                Ok(t) => references_link(self@.footnotes, string_views(ids@)) && t@
                    == footnote_lines(self@.footnotes, string_views(ids@)),
                Err(e) => !references_link(self@.footnotes, string_views(ids@)) && e
                    == AppError::Markup,
            },
    {
        let ghost table = self@.footnotes;
        let ghost wanted = string_views(ids@);
        let ghost pieces = linked_fn(table, wanted);
        let mut result = StyledText::empty();
        let mut k: usize = 0;
        while k < ids.len()
            invariant
                k <= ids.len(),
                table == self@.footnotes,
                wanted == string_views(ids@),
                pieces == linked_fn(table, wanted),
                result@ == concat_range(0, k as int, pieces),
                forall|j: int| 0 <= j < k ==> reference_links(table, #[trigger] wanted[j]),
            decreases ids.len() - k,
        {
            assert(wanted[k as int] == ids@[k as int]@);
            match self.footnote(ids[k].as_str()) {
                Some(footnote) => match footnote.line() {
                    Ok(line) => {
                        result.push(line);
                    },
                    Err(e) => {
                        return Err(e);
                    },
                },
                None => {},
            }
            k += 1;
        }
        Ok(result)
    }

    /// The footnote text of the chapter.
    pub fn footnotes_text(&self) -> (text: AppResult<StyledText>)
        ensures
            match text {
                Ok(t) => linked_footnotes(self@) == Some(t@),
                Err(e) => linked_footnotes(self@) is None && e == AppError::Markup,
            },
    {
        let ids = match self.refs_in_order() {
            Ok(ids) => ids,
            Err(e) => {
                return Err(e);
            },
        };
        self.link(&ids)
    }

    /// The styled text of the chapter. Fails exactly when the markup of the
    /// chapter has no tree.
    pub fn text(&self) -> (text: AppResult<StyledText>)
        ensures
            match text {
                Ok(t) => markup_tree(self@.html_content) matches Some(nodes) && t@ == rendered_text(
                    nodes,
                ),
                Err(e) => markup_tree(self@.html_content) is None && e == AppError::Markup,
            },
    {
        match parse_markup(self.html_content.as_str()) {
            Ok(tree) => Ok(render_tree(&tree)),
            Err(e) => Err(e),
        }
    }
}

/// The number of the first `n` references that the table knows.
pub open spec fn known_references(
    table: Map<Seq<char>, FootnoteView>,
    ids: Seq<Seq<char>>,
    n: int,
) -> nat
    decreases n,
{
    if n <= 0 {
        0
    } else if table.contains_key(ids[n - 1]) {
        known_references(table, ids, n - 1) + 1
    } else {
        known_references(table, ids, n - 1)
    }
}

/// The first `n` references give one line for each of them that the table
/// knows.
pub proof fn lemma_line_for_each_known(
    table: Map<Seq<char>, FootnoteView>,
    ids: Seq<Seq<char>>,
    n: int,
)
    requires
        0 <= n <= ids.len(),
    ensures
        concat_range(0, n, linked_fn(table, ids)).len() == known_references(table, ids, n),
    decreases n,
{
    if n > 0 {
        lemma_line_for_each_known(table, ids, n - 1);
    }
}

/// Of the first `n` references, all but the one at `miss` are known where
/// `miss` is among them, and all are known where it is not.
proof fn lemma_known_but_one(
    table: Map<Seq<char>, FootnoteView>,
    ids: Seq<Seq<char>>,
    miss: int,
    n: int,
)
    requires
        0 <= n <= ids.len(),
        0 <= miss < ids.len(),
        !table.contains_key(ids[miss]),
        forall|k: int| 0 <= k < ids.len() && k != miss ==> table.contains_key(#[trigger] ids[k]),
    ensures
        known_references(table, ids, n) == if miss < n {
            n - 1
        } else {
            n
        },
    decreases n,
{
    if n > 0 {
        lemma_known_but_one(table, ids, miss, n - 1);
    }
}

/// A reference that the table does not know is passed over in silence:
/// where every other reference has a footnote that parses, the references
/// link, and they give one line fewer than there are references.
pub proof fn lemma_unknown_reference_skipped(
    table: Map<Seq<char>, FootnoteView>,
    ids: Seq<Seq<char>>,
    miss: int,
)
    requires
        0 <= miss < ids.len(),
        !table.contains_key(ids[miss]),
        forall|k: int|
            0 <= k < ids.len() && k != miss ==> table.contains_key(#[trigger] ids[k])
                && footnote_parses(table[ids[k]]),
    ensures
        references_link(table, ids),
        footnote_lines(table, ids).len() == ids.len() - 1,
{
    lemma_line_for_each_known(table, ids, ids.len() as int);
    lemma_known_but_one(table, ids, miss, ids.len() as int);
}

/// Where the table knows every reference, there is one line for each
/// reference, in the order of the references: the line of its footnote. A
/// footnote that is referred to twice so has its line twice.
pub proof fn lemma_line_for_each_reference(
    table: Map<Seq<char>, FootnoteView>,
    ids: Seq<Seq<char>>,
)
    requires
        forall|k: int| 0 <= k < ids.len() ==> table.contains_key(#[trigger] ids[k]),
    ensures
        footnote_lines(table, ids).len() == ids.len(),
        forall|k: int|
            0 <= k < ids.len() ==> #[trigger] footnote_lines(table, ids)[k] == footnote_line(
                fragment_text(table[ids[k]].label_html).unwrap(),
                fragment_text(table[ids[k]].content_html).unwrap(),
            ),
        forall|j: int, k: int|
            0 <= j < ids.len() && 0 <= k < ids.len() && ids[j] == ids[k] ==> footnote_lines(
                table,
                ids,
            )[j] == footnote_lines(table, ids)[k],
{
    let pieces = linked_fn(table, ids);
    assert forall|k: int| 0 <= k < ids.len() implies #[trigger] pieces(k).len() == 1 by {}
    lemma_concat_range_singles(0, ids.len() as int, pieces);
    assert forall|k: int| 0 <= k < ids.len() implies #[trigger] footnote_lines(table, ids)[k]
        == footnote_line(
        fragment_text(table[ids[k]].label_html).unwrap(),
        fragment_text(table[ids[k]].content_html).unwrap(),
    ) by {
        assert(footnote_lines(table, ids)[k - 0] == pieces(k)[0]);
    }
}

} // verus!
