use scripture_reader::chapter::Chapter;
use scripture_reader::error::AppError;
use scripture_reader::markup::{parse_markup, MarkupAttribute, MarkupNode, MarkupTree};
use scripture_reader::render::{render_tree, verse_text};
use scripture_reader::text::{Alignment, StyledLine, StyledSpan, StyledText};

fn chapter(markup: &str) -> Chapter {
    Chapter::new("Chapter".to_string(), markup.to_string(), &Vec::new())
}

fn span(text: &str, bold: bool, italic: bool) -> StyledSpan {
    StyledSpan { text: text.to_string(), bold, italic }
}

fn line(spans: Vec<StyledSpan>) -> StyledLine {
    StyledLine { spans, alignment: None }
}

fn heading(text: &str) -> StyledLine {
    StyledLine { spans: vec![span(text, true, false)], alignment: Some(Alignment::Center) }
}

fn blank() -> StyledLine {
    line(Vec::new())
}

fn element(tag: &str, attributes: Vec<(&str, &str)>, children: Vec<usize>, subtree_len: usize) -> MarkupNode {
    MarkupNode {
        is_text: false,
        tag: tag.to_string(),
        attributes: attributes
            .into_iter()
            .map(|(name, value)| MarkupAttribute { name: name.to_string(), value: value.to_string() })
            .collect(),
        text: None,
        children,
        subtree_len,
    }
}

fn text_node(text: &str) -> MarkupNode {
    MarkupNode {
        is_text: true,
        tag: String::new(),
        attributes: Vec::new(),
        text: Some(text.to_string()),
        children: Vec::new(),
        subtree_len: 1,
    }
}

#[test]
fn verse_with_footnote_marker_renders_text_and_glyph() {
    let markup = "<body><verse class=\"verse\">1 In the beginning <note class=\"study-note-ref\"><sup>a</sup></note></verse></body>";
    let text = chapter(markup).text().unwrap();
    assert_eq!(
        text,
        StyledText {
            lines: vec![
                line(vec![span("1 In the beginning ", false, false), span("ᵃ", false, false)]),
                blank(),
            ],
        }
    );
}

#[test]
fn chapter_without_header_begins_with_verses() {
    let markup = "<html><body><p class=\"verse\">One</p><p class=\"verse\">Two</p></body></html>";
    let text = chapter(markup).text().unwrap();
    assert_eq!(
        text.lines,
        vec![
            line(vec![span("One", false, false)]),
            blank(),
            line(vec![span("Two", false, false)]),
            blank(),
        ]
    );
}

#[test]
fn header_gives_title_subtitle_intro_and_summary_in_order() {
    let markup = "<html><body><header>\
        <p class=\"study-summary\">Sum<i>mary</i></p>\
        <p id=\"intro1\">Intro</p>\
        <h2 id=\"subtitle1\">Sub</h2>\
        <h1 id=\"title1\">Ti<b>t</b>le</h1>\
        </header><p class=\"verse\">V</p></body></html>";
    let text = chapter(markup).text().unwrap();
    assert_eq!(
        text.lines,
        vec![
            heading("Title"),
            heading("Sub"),
            blank(),
            line(vec![span("Intro", false, false)]),
            blank(),
            line(vec![span("Summary", false, true)]),
            blank(),
            line(vec![span("V", false, false)]),
            blank(),
        ]
    );
}

#[test]
fn header_parts_are_emitted_only_where_present() {
    let markup = "<body><header><h1 id=\"title1\">Only</h1></header></body>";
    let text = chapter(markup).text().unwrap();
    assert_eq!(text.lines, vec![heading("Only")]);

    let markup = "<body><header><p id=\"intro1\">In</p></header></body>";
    let text = chapter(markup).text().unwrap();
    assert_eq!(text.lines, vec![blank(), line(vec![span("In", false, false)])]);

    let markup = "<body><header/></body>";
    assert_eq!(chapter(markup).text().unwrap().lines, Vec::new());
}

#[test]
fn header_parts_are_looked_for_among_children_only() {
    let markup = "<body><header><div><h1 id=\"title1\">Deep</h1></div></header></body>";
    assert_eq!(chapter(markup).text().unwrap().lines, Vec::new());
}

#[test]
fn markup_without_body_renders_nothing() {
    let text = chapter("<html><p class=\"verse\">Lost</p></html>").text().unwrap();
    assert_eq!(text, StyledText { lines: Vec::new() });
}

#[test]
fn verse_number_is_bold_and_para_mark_is_plain() {
    let markup = "<body><p class=\"verse\"><span class=\"verse-number\">3 </span><span class=\"para-mark\">¶ </span>And God said</p></body>";
    let text = chapter(markup).text().unwrap();
    assert_eq!(
        text.lines[0],
        line(vec![span("3 ", true, false), span("¶ ", false, false), span("And God said", false, false)])
    );
}

#[test]
fn clarity_word_with_text_is_italic() {
    let markup = "<body><p class=\"verse\">it <span class=\"clarity-word\">was</span> good</p></body>";
    let text = chapter(markup).text().unwrap();
    assert_eq!(
        text.lines[0],
        line(vec![span("it ", false, false), span("was", false, true), span(" good", false, false)])
    );
}

#[test]
fn clarity_word_around_reference_gives_italic_glyph_and_text() {
    let markup = "<body><p class=\"verse\"><span class=\"clarity-word\"><a class=\"study-note-ref\" data-ref=\"n1\"><sup>b</sup>is</a></span></p></body>";
    let text = chapter(markup).text().unwrap();
    assert_eq!(text.lines[0], line(vec![span("ᵇ", false, true), span("is", false, true)]));
}

#[test]
fn reference_outside_clarity_word_is_not_italic() {
    let markup = "<body><p class=\"verse\"><a class=\"study-note-ref\"><sup>c</sup>word</a></p></body>";
    let text = chapter(markup).text().unwrap();
    assert_eq!(text.lines[0], line(vec![span("ᶜ", false, false), span("word", false, false)]));
}

#[test]
fn unmapped_marker_and_unknown_children_give_no_span() {
    let markup = "<body><p class=\"verse\">a<a class=\"study-note-ref\"><sup>12</sup><em>x</em></a><b>bold</b><span class=\"verse-number\"/></p></body>";
    let text = chapter(markup).text().unwrap();
    assert_eq!(text.lines[0], line(vec![span("a", false, false)]));
}

#[test]
fn nested_verses_are_found_in_document_order() {
    let markup = "<body><div><p class=\"verse\">A</p><div><p class=\"verse\">B</p></div></div><p class=\"verse\">C</p></body>";
    let text = chapter(markup).text().unwrap();
    let texts: Vec<String> = text
        .lines
        .iter()
        .filter(|l| !l.spans.is_empty())
        .map(|l| l.spans[0].text.clone())
        .collect();
    assert_eq!(texts, vec!["A".to_string(), "B".to_string(), "C".to_string()]);
    assert_eq!(text.len(), 6);
}

#[test]
fn malformed_markup_is_a_markup_error() {
    assert_eq!(chapter("<body><p>").text(), Err(AppError::Markup));
    assert_eq!(chapter("").text(), Err(AppError::Markup));
    assert!(parse_markup("plain words").is_err());
}

#[test]
fn document_type_declaration_is_tolerated() {
    let markup = "<!DOCTYPE html><html><body><p class=\"verse\">V</p></body></html>";
    let text = chapter(markup).text().unwrap();
    assert_eq!(text.lines[0], line(vec![span("V", false, false)]));
}

#[test]
fn parsed_tree_holds_nodes_in_document_order() {
    let tree = parse_markup("<a x=\"1\" y=\"2\">t<b/>u</a>").unwrap();
    assert_eq!(tree.len(), 5);
    let root = tree.node(0);
    assert_eq!(root.children, vec![1]);
    assert_eq!(root.subtree_len, 5);
    let a = tree.node(1);
    assert!(a.has_tag("a"));
    assert_eq!(a.children, vec![2, 3, 4]);
    assert_eq!(a.subtree_len, 4);
    assert_eq!(a.attribute("x"), Some("1"));
    assert_eq!(a.attribute("y"), Some("2"));
    assert_eq!(a.attribute("z"), None);
    assert_eq!(a.text(), Some("t"));
    assert!(tree.node(2).is_text);
    assert_eq!(tree.node(2).text(), Some("t"));
    assert!(tree.node(3).has_tag("b"));
    assert_eq!(tree.node(3).text(), None);
    assert_eq!(tree.node(4).text(), Some("u"));
    assert_eq!(tree.subtree_end(1), 5);
    assert_eq!(tree.subtree_end(3), 4);
}

#[test]
fn tree_written_by_hand_renders_like_the_parsed_one() {
    let nodes = vec![
        element("", vec![], vec![1], 6),
        element("body", vec![], vec![2], 5),
        element("verse", vec![("class", "verse")], vec![3, 4], 4),
        text_node("1 In the beginning "),
        element("note", vec![("class", "study-note-ref")], vec![5], 2),
        MarkupNode { text: Some("a".to_string()), ..element("sup", vec![], vec![], 1) },
    ];
    let tree = MarkupTree::new(nodes).unwrap();
    let expected = line(vec![span("1 In the beginning ", false, false), span("ᵃ", false, false)]);
    assert_eq!(verse_text(&tree, 2), expected);
    assert_eq!(render_tree(&tree).lines, vec![expected, blank()]);
}

#[test]
fn arena_with_a_misplaced_node_is_no_tree() {
    assert!(MarkupTree::new(vec![element("a", vec![], vec![], 0)]).is_none());
    assert!(MarkupTree::new(vec![element("a", vec![], vec![], 2)]).is_none());
    assert!(MarkupTree::new(vec![element("a", vec![], vec![0], 1)]).is_none());
    assert!(MarkupTree::new(vec![element("a", vec![], vec![1], 1), text_node("t")]).is_none());
    assert!(MarkupTree::new(vec![element("a", vec![], vec![1], 2), text_node("t")]).is_some());
    assert!(MarkupTree::new(Vec::new()).is_some());
}

#[test]
fn children_have_to_fill_the_subtree_one_behind_the_other() {
    let two_texts = |children: Vec<usize>, subtree_len: usize| {
        MarkupTree::new(vec![
            element("a", vec![], children, subtree_len),
            text_node("t"),
            text_node("u"),
        ])
    };
    assert!(two_texts(vec![1, 2], 3).is_some());
    assert!(two_texts(vec![2], 3).is_none());
    assert!(two_texts(vec![1], 3).is_none());
    assert!(two_texts(vec![2, 1], 3).is_none());
    assert!(two_texts(vec![1, 1], 3).is_none());
    assert!(two_texts(vec![], 3).is_none());
    assert!(two_texts(vec![1, 2], 2).is_none());
    let nested = MarkupTree::new(vec![
        element("a", vec![], vec![1, 3], 4),
        element("b", vec![], vec![2], 2),
        text_node("t"),
        text_node("u"),
    ]);
    assert!(nested.is_some());
    let overlapping = MarkupTree::new(vec![
        element("a", vec![], vec![1, 2], 3),
        element("b", vec![], vec![2], 2),
        text_node("t"),
    ]);
    assert!(overlapping.is_none());
}

#[test]
fn first_attribute_of_a_name_wins() {
    let node = element("a", vec![("class", "verse"), ("id", "x"), ("id", "y")], vec![], 1);
    assert_eq!(node.attribute("id"), Some("x"));
    assert!(node.has_class("verse"));
    assert!(!node.has_class("vers"));
    assert!(node.has_attribute("id", "x"));
    assert!(!node.has_attribute("id", "y"));
}

#[test]
fn collected_text_joins_text_nodes_without_separator() {
    let tree = parse_markup("<p>a<b>b<i>c</i></b><!-- no -->d</p>").unwrap();
    let mut s = String::from(">");
    scripture_reader::markup::recursive_text_as_string(&tree, 1, &mut s);
    assert_eq!(s, ">abcd");
    let mut part = String::new();
    tree.collect_text(3, 5, &mut part);
    assert_eq!(part, "b");
}

#[test]
fn attribute_is_found_by_its_local_name_as_the_parser_finds_it() {
    let markup = "<e xmlns:n='http://www.w3.org' n:class='verse' n:id='a' id='b' data-ref='r'/>";
    let document = roxmltree::Document::parse(markup).unwrap();
    let element = document.root_element();
    let tree = parse_markup(markup).unwrap();
    let node = tree.node(1);
    for name in ["class", "id", "data-ref", "n", "xmlns", "missing"] {
        assert_eq!(node.attribute(name), element.attribute(name));
    }
    assert_eq!(node.attribute("class"), Some("verse"));
    assert_eq!(node.attribute("id"), Some("a"));
    assert!(node.has_class("verse"));
}

#[test]
fn verse_is_found_by_a_class_attribute_that_carries_a_prefix() {
    let markup = "<body xmlns:n='http://www.w3.org'><p n:class='verse'>V</p></body>";
    let text = chapter(markup).text().unwrap();
    assert_eq!(text.lines, vec![line(vec![span("V", false, false)]), blank()]);
}
