use scripture_reader::chapter::{
    parse_fragment, references_of, text_of_tree, wrap_fragment, Chapter, Footnote,
};
use scripture_reader::error::AppError;
use scripture_reader::markup::parse_markup;
use scripture_reader::text::{StyledLine, StyledSpan};

fn footnote(id: &str, label: &str, content: &str) -> Footnote {
    Footnote { id: id.to_string(), label_html: label.to_string(), content_html: content.to_string() }
}

fn chapter(markup: &str, footnotes: Vec<Footnote>) -> Chapter {
    Chapter::new("Chapter".to_string(), markup.to_string(), &footnotes)
}

fn note_line(label: &str, content: &str) -> StyledLine {
    StyledLine {
        spans: vec![
            StyledSpan { text: label.to_string(), bold: true, italic: false },
            StyledSpan { text: content.to_string(), bold: false, italic: false },
        ],
        alignment: None,
    }
}

#[test]
fn linked_footnote_has_bold_label_and_plain_content() {
    let markup = "<body><verse class=\"verse\">1 In the beginning <note class=\"study-note-ref\" data-ref=\"a\"><sup>a</sup></note></verse></body>";
    let c = chapter(markup, vec![footnote("a", "<p>1a</p>", "Commentary.")]);
    let text = c.footnotes_text().unwrap();
    assert_eq!(text.lines, vec![note_line("1a", "Commentary.")]);
}

#[test]
fn reference_without_data_ref_is_not_scanned() {
    let markup = "<body><verse class=\"verse\">1 In the beginning <note class=\"study-note-ref\"><sup>a</sup></note></verse></body>";
    let c = chapter(markup, vec![footnote("a", "<p>1a</p>", "Commentary.")]);
    assert_eq!(c.refs_in_order().unwrap(), Vec::<String>::new());
    assert_eq!(c.footnotes_text().unwrap().lines, Vec::new());
}

#[test]
fn references_are_scanned_in_document_order_with_repeats() {
    let markup = "<body><a class=\"study-note-ref\" data-ref=\"n2\"/><p><a class=\"study-note-ref\" data-ref=\"n1\"/></p><a class=\"other\" data-ref=\"n9\"/><a class=\"study-note-ref\" data-ref=\"n2\"/></body>";
    let c = chapter(markup, Vec::new());
    assert_eq!(c.refs_in_order().unwrap(), vec!["n2".to_string(), "n1".to_string(), "n2".to_string()]);
    let tree = parse_markup(markup).unwrap();
    assert_eq!(references_of(&tree), vec!["n2".to_string(), "n1".to_string(), "n2".to_string()]);
}

#[test]
fn reference_without_entry_gives_one_line_fewer() {
    let markup = "<body><a class=\"study-note-ref\" data-ref=\"x\"/><a class=\"study-note-ref\" data-ref=\"gone\"/><a class=\"study-note-ref\" data-ref=\"y\"/></body>";
    let c = chapter(markup, vec![footnote("x", "1a", "<p>First.</p>"), footnote("y", "1b", "<p>Second.</p>")]);
    assert_eq!(c.refs_in_order().unwrap().len(), 3);
    let text = c.footnotes_text().unwrap();
    assert_eq!(text.lines, vec![note_line("1a", "First."), note_line("1b", "Second.")]);
}

#[test]
fn reference_that_occurs_twice_is_linked_twice() {
    let markup = "<body><a class=\"study-note-ref\" data-ref=\"x\"/><a class=\"study-note-ref\" data-ref=\"y\"/><a class=\"study-note-ref\" data-ref=\"x\"/></body>";
    let c = chapter(markup, vec![footnote("x", "1a", "<p>First.</p>"), footnote("y", "1b", "<p>Second.</p>")]);
    let text = c.footnotes_text().unwrap();
    assert_eq!(
        text.lines,
        vec![note_line("1a", "First."), note_line("1b", "Second."), note_line("1a", "First.")]
    );
}

#[test]
fn later_footnote_with_the_same_id_replaces_the_earlier() {
    let markup = "<body><a class=\"study-note-ref\" data-ref=\"x\"/></body>";
    let c = chapter(markup, vec![footnote("x", "old", "Old."), footnote("x", "new", "New.")]);
    assert_eq!(c.footnotes_text().unwrap().lines, vec![note_line("new", "New.")]);
    assert_eq!(c.footnote("x").unwrap().label_html, "new");
    assert!(c.footnote("y").is_none());
}

#[test]
fn label_and_content_text_is_collected_through_nested_markup() {
    let f = footnote("x", "Gen. <b>1</b>:1", "<p>See <i>also</i></p><p> more</p>");
    assert_eq!(f.line().unwrap(), note_line("Gen. 1:1", "See also more"));
}

#[test]
fn footnote_that_does_not_parse_is_a_markup_error() {
    assert_eq!(footnote("x", "<b>", "fine").line(), Err(AppError::Markup));
    assert_eq!(footnote("x", "fine", "a < b").line(), Err(AppError::Markup));
    let markup = "<body><a class=\"study-note-ref\" data-ref=\"x\"/></body>";
    let c = chapter(markup, vec![footnote("x", "<b>", "fine")]);
    assert_eq!(c.footnotes_text(), Err(AppError::Markup));
}

#[test]
fn unreferenced_footnote_that_does_not_parse_is_not_read() {
    let markup = "<body><a class=\"study-note-ref\" data-ref=\"x\"/></body>";
    let c = chapter(markup, vec![footnote("x", "ok", "fine"), footnote("y", "<b>", "<i>")]);
    assert_eq!(c.footnotes_text().unwrap().lines, vec![note_line("ok", "fine")]);
}

#[test]
fn chapter_that_does_not_parse_has_no_footnote_text() {
    let c = chapter("<body>", vec![footnote("x", "ok", "fine")]);
    assert_eq!(c.refs_in_order(), Err(AppError::Markup));
    assert_eq!(c.footnotes_text(), Err(AppError::Markup));
}

#[test]
fn fragment_is_wrapped_as_a_paragraph() {
    assert_eq!(wrap_fragment("1a"), "<p>1a</p>");
    assert_eq!(wrap_fragment(""), "<p></p>");
}

#[test]
fn content_that_opens_with_a_declaration_is_read_as_it_stands() {
    let markup = "<body><a class='study-note-ref' data-ref='n'/></body>";
    let content = "<!DOCTYPE html><p>See <i>Gen.</i> 1.</p>";
    let c = chapter(markup, vec![footnote("n", "<b>1</b>a", content)]);
    assert_eq!(c.footnotes_text().unwrap().lines, vec![note_line("1a", "See Gen. 1.")]);
}

#[test]
fn label_that_opens_with_a_declaration_is_read_as_it_stands() {
    let prologue = "<?xml version=\"1.0\"?><p>1<b>a</b></p>";
    let f = footnote("n", prologue, "<?xml version='1.0'?><!DOCTYPE p><p>Note</p>");
    assert_eq!(f.line().unwrap(), note_line("1a", "Note"));
}

#[test]
fn fragment_is_parsed_as_it_stands_before_it_is_wrapped() {
    let whole = parse_fragment("<!DOCTYPE html><p>x</p>").unwrap();
    assert_eq!(text_of_tree(&whole), "x");
    assert!(whole.node(1).has_tag("p"));
    assert_eq!(whole.node(1).children, vec![2]);
    let bare = parse_fragment("x <i>y</i>").unwrap();
    assert_eq!(text_of_tree(&bare), "x y");
    assert!(bare.node(1).has_tag("p"));
    assert_eq!(bare.node(1).children, vec![2, 3]);
    let element = parse_fragment("<i>y</i>").unwrap();
    assert!(element.node(1).has_tag("i"));
    assert_eq!(parse_fragment("<!DOCTYPE html>x").err(), Some(AppError::Markup));
    assert_eq!(parse_fragment("x <i>y").err(), Some(AppError::Markup));
}
