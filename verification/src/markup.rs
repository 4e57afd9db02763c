//! The markup tree of a chapter or of a footnote.
//!
//! A tree is held as an arena: its nodes in document order, each with the
//! places of its children and the size of its subtree. A node and what lies
//! below it are then one stretch of the arena.

use vstd::prelude::*;
use vstd::string::*;

use crate::error::{AppError, AppResult};
use crate::seqs::{concat_range, first_in_range, lemma_concat_range_split};
use crate::strings::same_text;

verus! {

/// One attribute of an element: its local name and its value. The prefix
/// that a name may carry is no part of the local name, so that `n:class`
/// and `class` are both named `class` here.
#[derive(Clone, Debug, PartialEq, Eq)]
pub struct MarkupAttribute {
    pub name: String,
    pub value: String,
}

/// The mathematical value of a [`MarkupAttribute`].
pub struct AttributeView {
    pub name: Seq<char>,
    pub value: Seq<char>,
}

impl View for MarkupAttribute {
    type V = AttributeView;

    open spec fn view(&self) -> AttributeView {
        AttributeView { name: self.name@, value: self.value@ }
    }
}

/// One node of a markup tree.
#[derive(Clone, Debug, PartialEq, Eq)]
pub struct MarkupNode {
    /// Whether this is a text node.
    pub is_text: bool,
    /// The local name of an element; empty for every other kind of node.
    pub tag: String,
    /// The attributes of an element, in the order in which they were written.
    pub attributes: Vec<MarkupAttribute>,
    /// The text of a text node or of a comment; for an element, the text of
    /// its first child where that child is a text node.
    pub text: Option<String>,
    /// The places of the children in the arena, from first to last.
    pub children: Vec<usize>,
    /// The number of nodes in the subtree of this node, itself included.
    pub subtree_len: usize,
}

/// The mathematical value of a [`MarkupNode`].
pub struct NodeView {
    pub is_text: bool,
    pub tag: Seq<char>,
    pub attributes: Seq<AttributeView>,
    pub text: Option<Seq<char>>,
    pub children: Seq<usize>,
    pub subtree_len: usize,
}

/// The value of a string that may be absent.
pub open spec fn optional_text(text: Option<String>) -> Option<Seq<char>> {
    match text {
        Some(t) => Some(t@),
        None => None,
    }
}

/// The values of a sequence of attributes, in order.
pub open spec fn attribute_views(attributes: Seq<MarkupAttribute>) -> Seq<AttributeView> {
    attributes.map_values(|a: MarkupAttribute| a@)
}

/// The values of a sequence of nodes, in order.
pub open spec fn node_views(nodes: Seq<MarkupNode>) -> Seq<NodeView> {
    nodes.map_values(|n: MarkupNode| n@)
}

impl View for MarkupNode {
    type V = NodeView;

    open spec fn view(&self) -> NodeView {
        NodeView {
            is_text: self.is_text,
            tag: self.tag@,
            attributes: attribute_views(self.attributes@),
            text: optional_text(self.text),
            children: self.children@,
            subtree_len: self.subtree_len,
        }
    }
}

/// The predicate "attribute `k` is named `name`", over the places of a list
/// of attributes.
pub open spec fn named(attributes: Seq<AttributeView>, name: Seq<char>) -> spec_fn(int) -> bool {
    |k: int| attributes[k].name == name
}

/// The value of the first attribute with the local name `name`, whatever
/// namespace the attribute stands in. This is how `roxmltree::Node::attribute`
/// looks up a name that is given without a namespace.
pub open spec fn attribute_value(attributes: Seq<AttributeView>, name: Seq<char>) -> Option<
    Seq<char>,
> {
    match first_in_range(0, attributes.len() as int, named(attributes, name)) {
        Some(k) => Some(attributes[k].value),
        None => None,
    }
}

impl NodeView {
    /// The value of the first attribute with the local name `name`.
    pub open spec fn attribute(self, name: Seq<char>) -> Option<Seq<char>> {
        attribute_value(self.attributes, name)
    }

    /// Whether the attribute `name` is present with exactly the value `value`.
    pub open spec fn has_attribute(self, name: Seq<char>, value: Seq<char>) -> bool {
        self.attribute(name) == Some(value)
    }

    /// Whether the `class` attribute is exactly `class`.
    pub open spec fn has_class(self, class: Seq<char>) -> bool {
        self.has_attribute("class"@, class)
    }

    /// The text that a text node contributes to collected text.
    pub open spec fn text_content(self) -> Seq<char> {
        match self.text {
            Some(t) if self.is_text => t,
            _ => Seq::empty(),
        }
    }
}

/// The place behind the subtree of node `i`.
pub open spec fn subtree_end(nodes: Seq<NodeView>, i: int) -> int {
    i + nodes[i].subtree_len
}

/// Where child `k` of node `i` has to stand: the first child right behind
/// `i`, every other child right behind the subtree of the child before it.
/// For `k` the number of children, this is where the subtree of `i` has to
/// end.
pub open spec fn child_place(nodes: Seq<NodeView>, i: int, k: int) -> int {
    if k <= 0 {
        i + 1
    } else {
        subtree_end(nodes, nodes[i].children[k - 1] as int)
    }
}

/// Node `i` of an arena is well placed: its subtree is a non-empty stretch
/// of the arena that starts at `i`, and the subtrees of its children, one
/// behind the other, fill the stretch behind `i`.
pub open spec fn node_wf(nodes: Seq<NodeView>, i: int) -> bool {
    &&& 1 <= nodes[i].subtree_len
    &&& subtree_end(nodes, i) <= nodes.len()
    &&& forall|k: int|
        0 <= k < nodes[i].children.len() ==> i < #[trigger] nodes[i].children[k] < subtree_end(
            nodes,
            i,
        )
    &&& forall|k: int|
        0 <= k < nodes[i].children.len() ==> nodes[i].children[k] == #[trigger] child_place(
            nodes,
            i,
            k,
        )
    &&& child_place(nodes, i, nodes[i].children.len() as int) == subtree_end(nodes, i)
}

/// Every node of the arena is well placed.
pub open spec fn arena_wf(nodes: Seq<NodeView>) -> bool {
    forall|i: int| 0 <= i < nodes.len() ==> #[trigger] node_wf(nodes, i)
}

/// The function from a place in the arena to the text that its node
/// contributes.
pub open spec fn text_at(nodes: Seq<NodeView>) -> spec_fn(int) -> Seq<char> {
    |i: int| nodes[i].text_content()
}

/// The text of the text nodes at the places `from..to`, joined in document
/// order with nothing between them.
pub open spec fn collected_text(nodes: Seq<NodeView>, from: int, to: int) -> Seq<char> {
    concat_range(from, to, text_at(nodes))
}

/// The text of the text nodes in the subtree of node `i`, in document order.
pub open spec fn subtree_text(nodes: Seq<NodeView>, i: int) -> Seq<char> {
    collected_text(nodes, i, subtree_end(nodes, i))
}

/// The text that a walk through the first `k` children of node `i` collects,
/// child after child.
pub open spec fn children_walk_text(nodes: Seq<NodeView>, i: int, k: int) -> Seq<char>
    decreases nodes.len() - i, k,
{
    if k <= 0 {
        Seq::empty()
    } else {
        let child = nodes[i].children[k - 1] as int;
        let below = if i < child < nodes.len() {
            walk_text(nodes, child)
        } else {
            Seq::empty()
        };
        children_walk_text(nodes, i, k - 1) + below
    }
}

/// The text that a depth-first walk from node `i` collects: the text of the
/// node where it is a text node, and then what the walk collects from each
/// of its children, in their order.
pub open spec fn walk_text(nodes: Seq<NodeView>, i: int) -> Seq<char>
    decreases nodes.len() - i, nodes[i].children.len() + 1,
{
    nodes[i].text_content() + children_walk_text(nodes, i, nodes[i].children.len() as int)
}

/// In a tree, a walk through the first `k` children of a node collects the
/// text of the stretch from behind the node to where child `k` has to stand.
proof fn lemma_children_walk_text(nodes: Seq<NodeView>, i: int, k: int)
    requires
        arena_wf(nodes),
        0 <= i < nodes.len(),
        0 <= k <= nodes[i].children.len(),
    ensures
        children_walk_text(nodes, i, k) == collected_text(nodes, i + 1, child_place(nodes, i, k)),
    decreases nodes.len() - i, k,
{
    assert(node_wf(nodes, i));
    if k > 0 {
        let child = nodes[i].children[k - 1] as int;
        assert(child == child_place(nodes, i, k - 1));
        assert(node_wf(nodes, child));
        lemma_children_walk_text(nodes, i, k - 1);
        lemma_walk_is_document_order(nodes, child);
        lemma_concat_range_split(i + 1, child, subtree_end(nodes, child), text_at(nodes));
    }
}

/// In a tree, a depth-first walk from a node collects the text of the
/// subtree of the node in document order.
pub proof fn lemma_walk_is_document_order(nodes: Seq<NodeView>, i: int)
    requires
        arena_wf(nodes),
        0 <= i < nodes.len(),
    ensures
        walk_text(nodes, i) == subtree_text(nodes, i),
    decreases nodes.len() - i, nodes[i].children.len() + 1,
{
    assert(node_wf(nodes, i));
    lemma_children_walk_text(nodes, i, nodes[i].children.len() as int);
    lemma_concat_range_split(i, i + 1, subtree_end(nodes, i), text_at(nodes));
    assert(concat_range(i, i, text_at(nodes)) == Seq::<char>::empty());
    assert(concat_range(i, i + 1, text_at(nodes)) == nodes[i].text_content());
}

/// The predicate "node `i` is an element named `tag`", over the places of an
/// arena.
pub open spec fn tagged(nodes: Seq<NodeView>, tag: Seq<char>) -> spec_fn(int) -> bool {
    |i: int| nodes[i].tag == tag
}

/// The predicate "child `k` has the attribute `name` with the value `value`",
/// over the places of a list of children.
pub open spec fn child_with(
    nodes: Seq<NodeView>,
    children: Seq<usize>,
    name: Seq<char>,
    value: Seq<char>,
) -> spec_fn(int) -> bool {
    |k: int| nodes[children[k] as int].has_attribute(name, value)
}

/// The first child of node `parent` that has the attribute `name` with the
/// value `value`, as a place in the arena.
pub open spec fn first_child_with(
    nodes: Seq<NodeView>,
    parent: int,
    name: Seq<char>,
    value: Seq<char>,
) -> Option<int> {
    let children = nodes[parent].children;
    match first_in_range(0, children.len() as int, child_with(nodes, children, name, value)) {
        Some(k) => Some(children[k] as int),
        None => None,
    }
}

impl MarkupNode {
    /// The value of the first attribute with the local name `name`.
    pub fn attribute(&self, name: &str) -> (value: Option<&str>)
        ensures
            match value {
                Some(v) => self@.attribute(name@) == Some(v@),
                None => self@.attribute(name@) is None,
            },
    {
        let ghost attributes = self@.attributes;
        let ghost wanted = named(attributes, name@);
        let mut k: usize = 0;
        while k < self.attributes.len()
            invariant
                k <= self.attributes.len(),
                attributes == self@.attributes,
                wanted == named(attributes, name@),
                first_in_range(0, attributes.len() as int, wanted) == first_in_range(
                    k as int,
                    attributes.len() as int,
                    wanted,
                ),
            decreases self.attributes.len() - k,
        {
            if same_text(self.attributes[k].name.as_str(), name) {
                return Some(self.attributes[k].value.as_str());
            }
            k += 1;
        }
        None
    }

    /// Whether the attribute `name` is present with exactly the value `value`.
    pub fn has_attribute(&self, name: &str, value: &str) -> (holds: bool)
        ensures
            holds == self@.has_attribute(name@, value@),
    {
        match self.attribute(name) {
            Some(v) => same_text(v, value),
            None => false,
        }
    }

    /// Whether the `class` attribute is exactly `class`.
    pub fn has_class(&self, class: &str) -> (holds: bool)
        ensures
            holds == self@.has_class(class@),
    {
        self.has_attribute("class", class)
    }

    /// Whether this is an element with the local name `tag`.
    pub fn has_tag(&self, tag: &str) -> (holds: bool)
        ensures
            holds == (self@.tag == tag@),
    {
        same_text(self.tag.as_str(), tag)
    }

    /// The text of the node, where it has one.
    pub fn text(&self) -> (text: Option<&str>)
        ensures
            match text {
                Some(t) => self@.text == Some(t@),
                None => self@.text is None,
            },
    {
        match &self.text {
            Some(t) => Some(t.as_str()),
            None => None,
        }
    }
}

/// Whether node `i` of `nodes` is well placed.
fn well_placed_at(nodes: &Vec<MarkupNode>, i: usize) -> (holds: bool)
    requires
        i < nodes@.len(),
    ensures
        holds == node_wf(node_views(nodes@), i as int),
{
    let ghost views = node_views(nodes@);
    let node = &nodes[i];
    assert(node@ == views[i as int]);
    if node.subtree_len < 1 || node.subtree_len > nodes.len() - i {
        return false;
    }
    let end = i + node.subtree_len;
    let mut next = i + 1;
    let mut k: usize = 0;
    while k < node.children.len()
        invariant
            k <= node.children.len(),
            i < nodes@.len(),
            views == node_views(nodes@),
            node@ == views[i as int],
            end == subtree_end(views, i as int),
            i < end <= nodes@.len(),
            next == child_place(views, i as int, k as int),
            next <= end,
            forall|m: int| 0 <= m < k ==> i < #[trigger] views[i as int].children[m] < end,
            forall|m: int|
                0 <= m < k ==> views[i as int].children[m] == #[trigger] child_place(
                    views,
                    i as int,
                    m,
                ),
        decreases node.children.len() - k,
    {
        let child = node.children[k];
        if child != next || child >= end {
            assert(!(views[i as int].children[k as int] == child_place(views, i as int, k as int)
                && i < views[i as int].children[k as int] < end));
            return false;
        }
        assert(nodes@[child as int]@ == views[child as int]);
        let size = nodes[child].subtree_len;
        if size > end - child {
            assert(child_place(views, i as int, k + 1) > end);
            if k + 1 < node.children.len() {
                assert(!(views[i as int].children[k + 1] == child_place(views, i as int, k + 1)
                    && views[i as int].children[k + 1] < end));
            }
            return false;
        }
        next = child + size;
        k += 1;
    }
    next == end
}

/// A markup tree: an arena of nodes, every one of them well placed.
#[derive(Debug, PartialEq, Eq)]
pub struct MarkupTree {
    nodes: Vec<MarkupNode>,
}

impl View for MarkupTree {
    type V = Seq<NodeView>;

    closed spec fn view(&self) -> Seq<NodeView> {
        node_views(self.nodes@)
    }
}

impl MarkupTree {
    #[verifier::type_invariant]
    spec fn well_placed(&self) -> bool {
        arena_wf(node_views(self.nodes@))
    }

    /// Makes a tree of `nodes`, which are taken to stand in document order.
    /// There is a tree exactly when every node is well placed.
    pub fn new(nodes: Vec<MarkupNode>) -> (tree: Option<MarkupTree>)
        ensures
            match tree {
                Some(t) => arena_wf(node_views(nodes@)) && t@ == node_views(nodes@),
                None => !arena_wf(node_views(nodes@)),
            },
    {
        let ghost views = node_views(nodes@);
        let len = nodes.len();
        let mut i: usize = 0;
        while i < len
            invariant
                i <= len,
                len == nodes.len(),
                views == node_views(nodes@),
                forall|j: int| 0 <= j < i ==> #[trigger] node_wf(views, j),
            decreases len - i,
        {
            if !well_placed_at(&nodes, i) {
                return None;
            }
            i += 1;
        }
        Some(MarkupTree { nodes })
    }

    /// The number of nodes.
    pub fn len(&self) -> (n: usize)
        ensures
            n == self@.len(),
    {
        self.nodes.len()
    }

    /// Node `i`, which is well placed.
    pub fn node(&self, i: usize) -> (node: &MarkupNode)
        requires
            i < self@.len(),
        ensures
            node@ == self@[i as int],
            node_wf(self@, i as int),
    {
        proof {
            use_type_invariant(self);
        }
        &self.nodes[i]
    }

    /// The place behind the subtree of node `i`.
    pub fn subtree_end(&self, i: usize) -> (end: usize)
        requires
            i < self@.len(),
        ensures
            end == subtree_end(self@, i as int),
            i < end <= self@.len(),
    {
        proof {
            use_type_invariant(self);
        }
        assert(node_wf(self@, i as int));
        assert(self@.len() == self.nodes.len());
        i + self.nodes[i].subtree_len
    }

    /// The first place in `from..to` whose node is an element named `tag`.
    pub fn find_tag(&self, from: usize, to: usize, tag: &str) -> (found: Option<usize>)
        requires
            to <= self@.len(),
        ensures
            match found {
                Some(i) => first_in_range(from as int, to as int, tagged(self@, tag@)) == Some(
                    i as int,
                ) && from <= i < to,
                None => first_in_range(from as int, to as int, tagged(self@, tag@)) is None,
            },
    {
        let ghost wanted = tagged(self@, tag@);
        let mut i = from;
        while i < to
            invariant
                from <= i,
                to <= self@.len(),
                wanted == tagged(self@, tag@),
                first_in_range(from as int, to as int, wanted) == first_in_range(
                    i as int,
                    to as int,
                    wanted,
                ),
            decreases to - i,
        {
            if self.node(i).has_tag(tag) {
                return Some(i);
            }
            i += 1;
        }
        None
    }

    /// The first child of node `parent` that has the attribute `name` with
    /// the value `value`.
    pub fn find_child_with(&self, parent: usize, name: &str, value: &str) -> (found: Option<usize>)
        requires
            parent < self@.len(),
        ensures
            match found {
                Some(c) => first_child_with(self@, parent as int, name@, value@) == Some(c as int)
                    && c < self@.len(),
                None => first_child_with(self@, parent as int, name@, value@) is None,
            },
    {
        let node = self.node(parent);
        let ghost children = self@[parent as int].children;
        let ghost wanted = child_with(self@, children, name@, value@);
        let mut k: usize = 0;
        while k < node.children.len()
            invariant
                k <= node.children.len(),
                parent < self@.len(),
                node@ == self@[parent as int],
                node_wf(self@, parent as int),
                children == self@[parent as int].children,
                wanted == child_with(self@, children, name@, value@),
                first_in_range(0, children.len() as int, wanted) == first_in_range(
                    k as int,
                    children.len() as int,
                    wanted,
                ),
            decreases node.children.len() - k,
        {
            let child = node.children[k];
            if self.node(child).has_attribute(name, value) {
                return Some(child);
            }
            k += 1;
        }
        None
    }

    /// The text of the text nodes at the places `from..to`, joined in
    /// document order, appended to `s`.
    pub fn collect_text(&self, from: usize, to: usize, s: &mut String)
        requires
            to <= self@.len(),
        ensures
            final(s)@ == old(s)@ + collected_text(self@, from as int, to as int),
    {
        let ghost pieces = text_at(self@);
        let mut i = from;
        while i < to
            invariant
                from <= i,
                i <= to || i == from,
                to <= self@.len(),
                pieces == text_at(self@),
                s@ == old(s)@ + concat_range(from as int, i as int, pieces),
            decreases to - i,
        {
            let node = self.node(i);
            if node.is_text {
                match node.text() {
                    Some(t) => {
                        s.append(t);
                    },
                    None => {},
                }
            }
            i += 1;
        }
    }
}

/// The text of the text nodes in the subtree of `node`, in document order,
/// appended to `s`.
pub fn recursive_text_as_string(tree: &MarkupTree, node: usize, s: &mut String)
    requires
        node < tree@.len(),
    ensures
        final(s)@ == old(s)@ + subtree_text(tree@, node as int),
{
    let end = tree.subtree_end(node);
    tree.collect_text(node, end, s);
}

/// `roxmltree::Error`: why the XML parser rejected its input. It is carried
/// from the parser to the caller and never looked into.
#[verifier::external_type_specification]
#[verifier::external_body]
pub struct ExMarkupSyntaxError(roxmltree::Error);

/// The nodes that the XML parser yields for `markup`, in document order, as
/// the arena holds them; nothing where the parser rejects `markup`. With
/// `allow_dtd` the parser accepts a document type declaration.
pub uninterp spec fn parsed_markup(markup: Seq<char>, allow_dtd: bool) -> Option<Seq<NodeView>>;

/// Parses `markup` with `roxmltree::Document::parse_with_options`, with the
/// options that `roxmltree::ParsingOptions` has by default but for
/// `allow_dtd`, and copies the nodes of the document out in the order of
/// `Document::descendants`. Each node is copied with what `Node::is_text`,
/// `Node::tag_name`, `Node::attributes`, `Node::text`, `Node::children` and
/// `Node::descendants` report of it; an attribute is copied with what
/// `Attribute::name`, its local name, and `Attribute::value` report; a child
/// is named by its `NodeId`, which is its place in that order.
///
/// Believed, not proved: the outcome depends on `markup` and `allow_dtd`
/// alone, and is the one that `parsed_markup` names.
#[verifier::external_body]
fn parse_nodes(markup: &str, allow_dtd: bool) -> (parsed: Result<
    Vec<MarkupNode>,
    roxmltree::Error,
>)
    ensures
        match parsed {
            Ok(nodes) => parsed_markup(markup@, allow_dtd) == Some(node_views(nodes@)),
            Err(_) => parsed_markup(markup@, allow_dtd) is None,
        },
{
    let options = roxmltree::ParsingOptions { allow_dtd, ..Default::default() };
    let document = roxmltree::Document::parse_with_options(markup, options)?;
    Ok(document.descendants().map(|n| MarkupNode {
        is_text: n.is_text(),
        tag: n.tag_name().name().to_string(),
        attributes: n.attributes().map(|a| MarkupAttribute {
            name: a.name().to_string(),
            value: a.value().to_string(),
        }).collect(),
        text: n.text().map(str::to_string),
        children: n.children().map(|c| c.id().get_usize()).collect(),
        subtree_len: n.descendants().len(),
    }).collect())
}

/// The markup tree of `markup`: the nodes that the parser yields with
/// document type declarations allowed, where it accepts `markup` and every
/// node is well placed.
pub open spec fn markup_tree(markup: Seq<char>) -> Option<Seq<NodeView>> {
    match parsed_markup(markup, true) {
        Some(nodes) if arena_wf(nodes) => Some(nodes),
        _ => None,
    }
}

/// Parses `markup` into its tree. Fails exactly when `markup` has no tree.
pub fn parse_markup(markup: &str) -> (tree: AppResult<MarkupTree>)
    ensures
        match tree {
            Ok(t) => markup_tree(markup@) == Some(t@),
            Err(e) => markup_tree(markup@) is None && e == AppError::Markup,
        },
{
    match parse_nodes(markup, true) {
        Ok(nodes) => match MarkupTree::new(nodes) {
            Some(tree) => Ok(tree),
            None => Err(AppError::Markup),
        },
        Err(_) => Err(AppError::Markup),
    }
}

} // verus!
