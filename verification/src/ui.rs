//! What is drawn: the three lists, the text of the selected chapter and its
//! footnotes, each as plain values for the terminal to show.

use vstd::prelude::*;
use vstd::string::*;

use crate::app::{
    book_titles, chapter_titles, title_views, work_titles, App, AppError, AppResult, AppView,
};
use crate::scroll::clamped_scroll;
use crate::text::{LineView, StyledText};

verus! {

/// How the selected item of a list is set off from the others.
#[derive(Clone, Copy, Debug, PartialEq, Eq, Structural)]
pub struct Highlight {
    pub bold: bool,
    pub white_background: bool,
}

/// The highlight of the selected item of a list: bold in every list, and on
/// a white background in the list of the active column.
pub open spec fn highlight_of(selected: bool) -> Highlight {
    Highlight { bold: true, white_background: selected }
}

/// The highlight of the selected item of a list.
pub fn highlight_style(selected: bool) -> (style: Highlight)
    ensures
        style == highlight_of(selected),
{
    if selected {
        Highlight { bold: true, white_background: true }
    } else {
        Highlight { bold: true, white_background: false }
    }
}

/// One of the three lists as it is drawn: its heading, its items, the item
/// that is selected, and how that item is set off.
#[derive(Clone, Debug, PartialEq, Eq)]
pub struct ListPane {
    pub heading: String,
    pub items: Vec<String>,
    pub selected: usize,
    pub highlight: Highlight,
}

/// The mathematical value of a [`ListPane`].
pub struct ListPaneView {
    pub heading: Seq<char>,
    pub items: Seq<Seq<char>>,
    pub selected: int,
    pub highlight: Highlight,
}

impl View for ListPane {
    type V = ListPaneView;

    open spec fn view(&self) -> ListPaneView {
        ListPaneView {
            heading: self.heading@,
            items: title_views(self.items@),
            selected: self.selected as int,
            highlight: self.highlight,
        }
    }
}

/// A text as it is drawn: its lines, and the row that is drawn first.
#[derive(Clone, Debug, PartialEq, Eq)]
pub struct TextPane {
    pub text: StyledText,
    pub scroll: u16,
}

/// The mathematical value of a [`TextPane`].
pub struct TextPaneView {
    pub text: Seq<LineView>,
    pub scroll: int,
}

impl View for TextPane {
    type V = TextPaneView;

    open spec fn view(&self) -> TextPaneView {
        TextPaneView { text: self.text@, scroll: self.scroll as int }
    }
}

/// The selected chapter as it is drawn: its title, its text and its
/// footnotes under their heading.
#[derive(Clone, Debug, PartialEq, Eq)]
pub struct ChapterPane {
    pub title: String,
    pub text: TextPane,
    pub footnotes_heading: String,
    pub footnotes: TextPane,
}

/// The mathematical value of a [`ChapterPane`].
pub struct ChapterPaneView {
    pub title: Seq<char>,
    pub text: TextPaneView,
    pub footnotes_heading: Seq<char>,
    pub footnotes: TextPaneView,
}

impl View for ChapterPane {
    type V = ChapterPaneView;

    open spec fn view(&self) -> ChapterPaneView {
        ChapterPaneView {
            title: self.title@,
            text: self.text@,
            footnotes_heading: self.footnotes_heading@,
            footnotes: self.footnotes@,
        }
    }
}

/// All that is drawn.
#[derive(Clone, Debug, PartialEq, Eq)]
pub struct Screen {
    pub works: ListPane,
    pub books: ListPane,
    pub chapters: ListPane,
    pub chapter: ChapterPane,
}

/// The mathematical value of a [`Screen`].
pub struct ScreenView {
    pub works: ListPaneView,
    pub books: ListPaneView,
    pub chapters: ListPaneView,
    pub chapter: ChapterPaneView,
}

impl View for Screen {
    type V = ScreenView;

    open spec fn view(&self) -> ScreenView {
        ScreenView {
            works: self.works@,
            books: self.books@,
            chapters: self.chapters@,
            chapter: self.chapter@,
        }
    }
}

/// The list of works in the state `state`.
pub open spec fn works_pane(state: AppView) -> ListPaneView {
    ListPaneView {
        heading: "Work"@,
        items: work_titles(state.corpus),
        selected: state.work,
        highlight: highlight_of(state.column == 0),
    }
}

/// The list of the books of the selected work.
pub open spec fn books_pane(state: AppView) -> ListPaneView {
    ListPaneView {
        heading: "Book"@,
        items: book_titles(state.books()),
        selected: state.book,
        highlight: highlight_of(state.column == 1),
    }
}

/// The list of the chapters of the selected book.
pub open spec fn chapters_pane(state: AppView) -> ListPaneView {
    ListPaneView {
        heading: "CH"@,
        items: chapter_titles(state.chapters()),
        selected: state.chapter,
        highlight: highlight_of(state.column == 2),
    }
}

/// The text of the selected chapter with the row that is drawn first: the
/// text scroll, as far as the text reaches in the viewport that it was last
/// drawn in. There is none where the chapter has no text.
pub open spec fn text_pane(state: AppView) -> Option<TextPaneView> {
    match state.chapter_text() {
        Some(lines) => Some(
            TextPaneView {
                text: lines,
                scroll: clamped_scroll(
                    lines,
                    state.text_rect.width as int,
                    state.text_rect.height as int,
                    state.text_scroll,
                ),
            },
        ),
        None => None,
    }
}

/// The footnotes of the selected chapter with the row that is drawn first:
/// the footnote scroll, as far as the footnotes reach in the viewport that
/// they were last drawn in. There is none where the chapter has no footnote
/// text.
pub open spec fn footnotes_pane(state: AppView) -> Option<TextPaneView> {
    match state.chapter_footnotes_text() {
        Some(lines) => Some(
            TextPaneView {
                text: lines,
                scroll: clamped_scroll(
                    lines,
                    state.footnote_rect.width as int,
                    state.footnote_rect.height as int,
                    state.footnote_scroll,
                ),
            },
        ),
        None => None,
    }
}

/// The selected chapter as it is drawn, where it has a text and a footnote
/// text.
pub open spec fn chapter_pane(state: AppView) -> Option<ChapterPaneView> {
    match (text_pane(state), footnotes_pane(state)) {
        (Some(text), Some(footnotes)) => Some(
            ChapterPaneView {
                title: state.current_chapter().title,
                text,
                footnotes_heading: "Footnotes"@,
                footnotes,
            },
        ),
        _ => None,
    }
}

/// All that is drawn in the state `state`, where the selected chapter can be
/// drawn.
pub open spec fn screen_of(state: AppView) -> Option<ScreenView> {
    match chapter_pane(state) {
        Some(chapter) => Some(
            ScreenView {
                works: works_pane(state),
                books: books_pane(state),
                chapters: chapters_pane(state),
                chapter,
            },
        ),
        None => None,
    }
}

/// The list of works.
pub fn render_works_list(app: &App) -> (pane: ListPane)
    ensures
        pane@ == works_pane(app@),
{
    ListPane {
        heading: "Work".to_owned(),
        items: app.works_titles(),
        selected: app.work_index,
        highlight: highlight_style(app.column_selected == 0),
    }
}

/// The list of the books of the selected work.
pub fn render_books_list(app: &App) -> (pane: ListPane)
    requires
        app@.work_selected(),
    ensures
        pane@ == books_pane(app@),
{
    ListPane {
        heading: "Book".to_owned(),
        items: app.books_titles(),
        selected: app.book_index,
        highlight: highlight_style(app.column_selected == 1),
    }
}

/// The list of the chapters of the selected book.
pub fn render_chapters_list(app: &App) -> (pane: ListPane)
    requires
        app@.book_selected(),
    ensures
        pane@ == chapters_pane(app@),
{
    ListPane {
        heading: "CH".to_owned(),
        items: app.chapters_titles(),
        selected: app.chapter_index,
        highlight: highlight_style(app.column_selected == 2),
    }
}

/// The text of the selected chapter, scrolled to where it is drawn. Fails
/// exactly when the chapter has no text.
pub fn render_chapter_text(app: &App) -> (pane: AppResult<TextPane>)
    requires
        app@.chapter_selected(),
    ensures
        match pane {
            Ok(p) => text_pane(app@) == Some(p@),
            Err(e) => text_pane(app@) is None && e == AppError::Markup,
        },
{
    let text = match app.chapter_text() {
        Ok(text) => text,
        Err(e) => {
            return Err(e);
        },
    };
    let scroll = app.text_offset(&text);
    Ok(TextPane { text, scroll })
}

/// The footnotes of the selected chapter, scrolled to where they are drawn.
/// Fails exactly when the chapter has no footnote text.
pub fn render_footnotes(app: &App) -> (pane: AppResult<TextPane>)
    requires
        app@.chapter_selected(),
    ensures
        match pane {
            Ok(p) => footnotes_pane(app@) == Some(p@),
            Err(e) => footnotes_pane(app@) is None && e == AppError::Markup,
        },
{
    let text = match app.chapter_footnotes_text() {
        Ok(text) => text,
        Err(e) => {
            return Err(e);
        },
    };
    let scroll = app.footnote_offset(&text);
    Ok(TextPane { text, scroll })
}

/// The selected chapter as it is drawn. Fails exactly when the chapter has no
/// text or no footnote text.
pub fn render_chapter(app: &App) -> (pane: AppResult<ChapterPane>)
    requires
        app@.chapter_selected(),
    ensures
        match pane {
            Ok(p) => chapter_pane(app@) == Some(p@),
            Err(e) => chapter_pane(app@) is None && e == AppError::Markup,
        },
{
    let title = app.chapter_title();
    let text = match render_chapter_text(app) {
        Ok(pane) => pane,
        Err(e) => {
            return Err(e);
        },
    };
    let footnotes = match render_footnotes(app) {
        Ok(pane) => pane,
        Err(e) => {
            return Err(e);
        },
    };
    Ok(ChapterPane { title, text, footnotes_heading: "Footnotes".to_owned(), footnotes })
}

/// All that is drawn: the contents of the user interface widgets. Fails
/// exactly when the selected chapter cannot be drawn.
pub fn render(app: &App) -> (screen: AppResult<Screen>)
    requires
        app@.chapter_selected(),
    ensures
        match screen {
            Ok(s) => screen_of(app@) == Some(s@),
            Err(e) => screen_of(app@) is None && e == AppError::Markup,
        },
{
    let works = render_works_list(app);
    let books = render_books_list(app);
    let chapters = render_chapters_list(app);
    match render_chapter(app) {
        Ok(chapter) => Ok(Screen { works, books, chapters, chapter }),
        Err(e) => Err(e),
    }
}

} // verus!
