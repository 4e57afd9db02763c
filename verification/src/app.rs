//! The application state: the corpus, the selected work, book and chapter,
//! the active column, and the two scroll offsets with the viewports they
//! were last drawn in.
//!
//! A move in a column steps the index of that column with wraparound and
//! resets what depends on it: a new work selects its first book, a new book
//! its first chapter, and a new chapter starts at the top of its text and of
//! its footnotes. A change of column resets nothing.

use vstd::prelude::*;
use vstd::string::*;

use crate::chapter::{linked_footnotes, Chapter, ChapterView};
pub use crate::error::{AppError, AppResult};
use crate::layout::Rect;
use crate::markup::markup_tree;
use crate::render::rendered_text;
use crate::scriptures::{book_views, chapter_views, corpus_wf, BookView, Scriptures, WorkView};
use crate::scroll::{clamp_scroll, clamped_scroll};
use crate::text::{LineView, StyledText};

verus! {

/// The number of columns: works, books, chapters.
pub const NUM_COLUMNS: usize = 3;

/// The index after one step in a collection of `len` items: down from the
/// last item leads to the first, up from the first to the last.
pub open spec fn step_index(i: int, len: int, down: bool) -> int {
    if down {
        if i == len - 1 {
            0
        } else {
            i + 1
        }
    } else {
        if i == 0 {
            len - 1
        } else {
            i - 1
        }
    }
}

/// The index after `n` steps in one direction.
pub open spec fn step_index_times(i: int, len: int, down: bool, n: nat) -> int
    decreases n,
{
    if n == 0 {
        i
    } else {
        step_index(step_index_times(i, len, down, (n - 1) as nat), len, down)
    }
}

/// The column to the left of `column`, the last one for the first.
pub open spec fn column_left(column: int) -> int {
    if column == 0 {
        NUM_COLUMNS - 1
    } else {
        column - 1
    }
}

/// The column to the right of `column`, the first one for the last.
pub open spec fn column_right(column: int) -> int {
    if column == NUM_COLUMNS - 1 {
        0
    } else {
        column + 1
    }
}

/// Application.
pub struct App {
    /// Is the application running?
    pub running: bool,
    pub data: Scriptures,
    pub column_selected: usize,
    pub work_index: usize,
    pub book_index: usize,
    pub chapter_index: usize,
    pub text_rect: Rect,
    pub text_scroll: u16,
    pub footnote_rect: Rect,
    pub footnote_scroll: u16,
}

/// The mathematical value of an [`App`].
pub struct AppView {
    pub running: bool,
    pub corpus: Seq<WorkView>,
    pub column: int,
    pub work: int,
    pub book: int,
    pub chapter: int,
    pub text_rect: Rect,
    pub text_scroll: int,
    pub footnote_rect: Rect,
    pub footnote_scroll: int,
}

impl View for App {
    type V = AppView;

    open spec fn view(&self) -> AppView {
        AppView {
            running: self.running,
            corpus: self.data@,
            column: self.column_selected as int,
            work: self.work_index as int,
            book: self.book_index as int,
            chapter: self.chapter_index as int,
            text_rect: self.text_rect,
            text_scroll: self.text_scroll as int,
            footnote_rect: self.footnote_rect,
            footnote_scroll: self.footnote_scroll as int,
        }
    }
}

impl AppView {
    /// The books of the selected work.
    pub open spec fn books(self) -> Seq<BookView> {
        self.corpus[self.work].books
    }

    /// The chapters of the selected book.
    pub open spec fn chapters(self) -> Seq<ChapterView> {
        self.books()[self.book].chapters
    }

    /// The selected chapter.
    pub open spec fn current_chapter(self) -> ChapterView {
        self.chapters()[self.chapter]
    }

    /// The styled text of the selected chapter, where its markup has a
    /// tree.
    pub open spec fn chapter_text(self) -> Option<Seq<LineView>> {
        match markup_tree(self.current_chapter().html_content) {
            Some(nodes) => Some(rendered_text(nodes)),
            None => None,
        }
    }

    /// The footnote text of the selected chapter, where its markup has a
    /// tree and the footnotes that it refers to parse.
    pub open spec fn chapter_footnotes_text(self) -> Option<Seq<LineView>> {
        linked_footnotes(self.current_chapter())
    }

    /// A work is selected.
    pub open spec fn work_selected(self) -> bool {
        0 <= self.work < self.corpus.len()
    }

    /// A work and one of its books are selected.
    pub open spec fn book_selected(self) -> bool {
        self.work_selected() && 0 <= self.book < self.books().len()
    }

    /// A work, one of its books and one of the chapters of that book are
    /// selected.
    pub open spec fn chapter_selected(self) -> bool {
        self.book_selected() && 0 <= self.chapter < self.chapters().len()
    }

    /// The state is one that navigation can start from: every work of the
    /// corpus has a book and every book a chapter, a chapter is selected,
    /// and the active column is one of the three.
    pub open spec fn wf(self) -> bool {
        &&& corpus_wf(self.corpus)
        &&& self.chapter_selected()
        &&& 0 <= self.column < NUM_COLUMNS
    }

    /// The state after a step in the column of works.
    pub open spec fn update_works(self, down: bool) -> AppView {
        AppView {
            work: step_index(self.work, self.corpus.len() as int, down),
            book: 0,
            chapter: 0,
            text_scroll: 0,
            footnote_scroll: 0,
            ..self
        }
    }

    /// The state after a step in the column of books.
    pub open spec fn update_books(self, down: bool) -> AppView {
        AppView {
            book: step_index(self.book, self.books().len() as int, down),
            chapter: 0,
            text_scroll: 0,
            footnote_scroll: 0,
            ..self
        }
    }

    /// The state after a step in the column of chapters.
    pub open spec fn update_chapters(self, down: bool) -> AppView {
        AppView {
            chapter: step_index(self.chapter, self.chapters().len() as int, down),
            text_scroll: 0,
            footnote_scroll: 0,
            ..self
        }
    }

    /// The state after a step in the active column.
    pub open spec fn arrow(self, down: bool) -> AppView {
        if self.column == 0 {
            self.update_works(down)
        } else if self.column == 1 {
            self.update_books(down)
        } else {
            self.update_chapters(down)
        }
    }

    /// The state after a step down in the active column.
    pub open spec fn arrow_down(self) -> AppView {
        self.arrow(true)
    }

    /// The state after a step up in the active column.
    pub open spec fn arrow_up(self) -> AppView {
        self.arrow(false)
    }

    /// The state after `n` steps in one direction in the active column.
    pub open spec fn arrow_times(self, down: bool, n: nat) -> AppView
        decreases n,
    {
        if n == 0 {
            self
        } else {
            self.arrow_times(down, (n - 1) as nat).arrow(down)
        }
    }

    /// The state with the column to the left active.
    pub open spec fn arrow_left(self) -> AppView {
        AppView { column: column_left(self.column), ..self }
    }

    /// The state with the column to the right active.
    pub open spec fn arrow_right(self) -> AppView {
        AppView { column: column_right(self.column), ..self }
    }

    /// The state after the request to quit.
    pub open spec fn quit(self) -> AppView {
        AppView { running: false, ..self }
    }

    /// The index that the active column selects.
    pub open spec fn active_index(self) -> int {
        if self.column == 0 {
            self.work
        } else if self.column == 1 {
            self.book
        } else {
            self.chapter
        }
    }

    /// The number of items that the active column lists.
    pub open spec fn active_len(self) -> int {
        if self.column == 0 {
            self.corpus.len() as int
        } else if self.column == 1 {
            self.books().len() as int
        } else {
            self.chapters().len() as int
        }
    }
}

/// The titles of a sequence of works, in order.
pub open spec fn work_titles(works: Seq<WorkView>) -> Seq<Seq<char>> {
    works.map_values(|w: WorkView| w.title)
}

/// The titles of a sequence of books, in order.
pub open spec fn book_titles(books: Seq<BookView>) -> Seq<Seq<char>> {
    books.map_values(|b: BookView| b.title)
}

/// The titles of a sequence of chapters, in order.
pub open spec fn chapter_titles(chapters: Seq<ChapterView>) -> Seq<Seq<char>> {
    chapters.map_values(|c: ChapterView| c.title)
}

/// The values of a sequence of strings, in order.
pub open spec fn title_views(titles: Seq<String>) -> Seq<Seq<char>> {
    titles.map_values(|t: String| t@)
}

/// The index after one step in a collection of `len` items.
fn stepped(i: usize, len: usize, down: bool) -> (next: usize)
    requires
        i < len,
    ensures
        next == step_index(i as int, len as int, down),
        next < len,
{
    if down {
        if i == len - 1 {
            0
        } else {
            i + 1
        }
    } else {
        if i == 0 {
            len - 1
        } else {
            i - 1
        }
    }
}

/// Whether every work of `data` has a book and every book a chapter.
pub fn corpus_is_wf(data: &Scriptures) -> (holds: bool)
    ensures
        holds == corpus_wf(data@),
{
    let mut w: usize = 0;
    while w < data.works.len()
        invariant
            w <= data.works.len(),
            forall|v: int|
                0 <= v < w ==> {
                    &&& (#[trigger] data@[v]).books.len() > 0
                    &&& forall|b: int|
                        0 <= b < data@[v].books.len() ==> 0 < (#[trigger] data@[v].books[b])
                            .chapters.len()
                },
        decreases data.works.len() - w,
    {
        let work = &data.works[w];
        assert(work@ == data@[w as int]);
        if work.books.len() == 0 {
            return false;
        }
        let mut b: usize = 0;
        while b < work.books.len()
            invariant
                b <= work.books.len(),
                w < data.works.len(),
                work@ == data@[w as int],
                forall|c: int|
                    0 <= c < b ==> (#[trigger] data@[w as int].books[c]).chapters.len() > 0,
            decreases work.books.len() - b,
        {
            assert(work.books@[b as int]@ == data@[w as int].books[b as int]);
            if work.books[b].chapters.len() == 0 {
                return false;
            }
            b += 1;
        }
        w += 1;
    }
    true
}

impl App {
    /// Constructs a new instance of [`App`] over the corpus `data`: running,
    /// with the column of works active, the first work, book and chapter
    /// selected, and both texts at their top.
    pub fn new(data: Scriptures) -> (app: App)
        ensures
            app@ == (AppView {
                running: true,
                corpus: data@,
                column: 0,
                work: 0,
                book: 0,
                chapter: 0,
                text_rect: Rect { x: 0, y: 0, width: 0, height: 0 },
                text_scroll: 0,
                footnote_rect: Rect { x: 0, y: 0, width: 0, height: 0 },
                footnote_scroll: 0,
            }),
            corpus_wf(data@) && data@.len() > 0 ==> app@.wf(),
    {
        App {
            running: true,
            data,
            column_selected: 0,
            work_index: 0,
            book_index: 0,
            chapter_index: 0,
            text_rect: Rect::empty(),
            text_scroll: 0,
            footnote_rect: Rect::empty(),
            footnote_scroll: 0,
        }
    }

    /// Whether navigation can start from this state.
    pub fn is_navigable(&self) -> (holds: bool)
        ensures
            holds == self@.wf(),
    {
        corpus_is_wf(&self.data) && self.column_selected < NUM_COLUMNS && self.has_chapter()
    }

    /// Whether a work, one of its books and a chapter of that book are
    /// selected.
    pub fn has_chapter(&self) -> (holds: bool)
        ensures
            holds == self@.chapter_selected(),
    {
        if self.work_index >= self.data.works.len() {
            return false;
        }
        let work = &self.data.works[self.work_index];
        if self.book_index >= work.books.len() {
            return false;
        }
        let book = &work.books[self.book_index];
        self.chapter_index < book.chapters.len()
    }

    /// Handles the tick event of the terminal.
    pub fn tick(&self) {
    }

    /// Set running to false to quit the application.
    pub fn quit(&mut self)
        ensures
            final(self)@ == old(self)@.quit(),
    {
        self.running = false;
    }

    /// The selected chapter.
    pub fn current_chapter(&self) -> (chapter: &Chapter)
        requires
            self@.chapter_selected(),
        ensures
            chapter@ == self@.current_chapter(),
    {
        let work = &self.data.works[self.work_index];
        let book = &work.books[self.book_index];
        &book.chapters[self.chapter_index]
    }

    /// The title of the selected chapter.
    pub fn chapter_title(&self) -> (title: String)
        requires
            self@.chapter_selected(),
        ensures
            title@ == self@.current_chapter().title,
    {
        let chapter = self.current_chapter();
        chapter.title.clone()
    }

    /// The styled text of the selected chapter. Fails exactly when the
    /// markup of the chapter has no tree.
    pub fn chapter_text(&self) -> (text: AppResult<StyledText>)
        requires
            self@.chapter_selected(),
        ensures
            match text {
                Ok(t) => self@.chapter_text() == Some(t@),
                Err(e) => self@.chapter_text() is None && e == AppError::Markup,
            },
    {
        let chapter = self.current_chapter();
        chapter.text()
    }

    /// The footnote text of the selected chapter. Fails exactly when the
    /// markup of the chapter has no tree, or a footnote that it refers to
    /// does not parse.
    pub fn chapter_footnotes_text(&self) -> (text: AppResult<StyledText>)
        requires
            self@.chapter_selected(),
        ensures
            match text {
                Ok(t) => self@.chapter_footnotes_text() == Some(t@),
                Err(e) => self@.chapter_footnotes_text() is None && e == AppError::Markup,
            },
    {
        let chapter = self.current_chapter();
        chapter.footnotes_text()
    }

    /// The offset at which the text of the selected chapter is drawn: the
    /// text scroll, as far as `text` reaches in the viewport that the text
    /// was last drawn in.
    pub fn text_offset(&self, text: &StyledText) -> (offset: u16)
        ensures
            offset == clamped_scroll(
                text@,
                self@.text_rect.width as int,
                self@.text_rect.height as int,
                self@.text_scroll,
            ),
    {
        clamp_scroll(text, self.text_rect.width, self.text_rect.height, self.text_scroll)
    }

    /// The offset at which the footnotes of the selected chapter are drawn:
    /// the footnote scroll, as far as `footnotes` reach in the viewport that
    /// the footnotes were last drawn in.
    pub fn footnote_offset(&self, footnotes: &StyledText) -> (offset: u16)
        ensures
            offset == clamped_scroll(
                footnotes@,
                self@.footnote_rect.width as int,
                self@.footnote_rect.height as int,
                self@.footnote_scroll,
            ),
    {
        clamp_scroll(
            footnotes,
            self.footnote_rect.width,
            self.footnote_rect.height,
            self.footnote_scroll,
        )
    }

    /// Records the viewports that the text and the footnotes were drawn in.
    /// Selection and scroll offsets stay.
    pub fn set_viewports(&mut self, text_rect: Rect, footnote_rect: Rect)
        ensures
            final(self)@ == (AppView { text_rect, footnote_rect, ..old(self)@ }),
    {
        self.text_rect = text_rect;
        self.footnote_rect = footnote_rect;
    }

    /// The titles of the works, in order.
    pub fn works_titles(&self) -> (titles: Vec<String>)
        ensures
            title_views(titles@) == work_titles(self@.corpus),
    {
        let works = &self.data.works;
        let mut titles: Vec<String> = Vec::new();
        let mut i: usize = 0;
        while i < works.len()
            invariant
                i <= works.len(),
                works == &self.data.works,
                titles@.len() == i,
                forall|j: int| 0 <= j < i ==> (#[trigger] titles@[j])@ == self@.corpus[j].title,
            decreases works.len() - i,
        {
            titles.push(works[i].title.clone());
            i += 1;
        }
        titles
    }

    /// The titles of the books of the selected work, in order.
    pub fn books_titles(&self) -> (titles: Vec<String>)
        requires
            self@.work_selected(),
        ensures
            title_views(titles@) == book_titles(self@.books()),
    {
        let books = &self.data.works[self.work_index].books;
        let mut titles: Vec<String> = Vec::new();
        let mut i: usize = 0;
        while i < books.len()
            invariant
                i <= books.len(),
                book_views(books@) == self@.books(),
                titles@.len() == i,
                forall|j: int| 0 <= j < i ==> (#[trigger] titles@[j])@ == self@.books()[j].title,
            decreases books.len() - i,
        {
            titles.push(books[i].title.clone());
            i += 1;
        }
        titles
    }

    /// The titles of the chapters of the selected book, in order.
    pub fn chapters_titles(&self) -> (titles: Vec<String>)
        requires
            self@.book_selected(),
        ensures
            title_views(titles@) == chapter_titles(self@.chapters()),
    {
        let work = &self.data.works[self.work_index];
        let chapters = &work.books[self.book_index].chapters;
        let mut titles: Vec<String> = Vec::new();
        let mut i: usize = 0;
        while i < chapters.len()
            invariant
                i <= chapters.len(),
                chapter_views(chapters@) == self@.chapters(),
                titles@.len() == i,
                forall|j: int|
                    0 <= j < i ==> (#[trigger] titles@[j])@ == self@.chapters()[j].title,
            decreases chapters.len() - i,
        {
            titles.push(chapters[i].title.clone());
            i += 1;
        }
        titles
    }

    /// Steps down in the active column.
    pub fn arrow_down(&mut self)
        requires
            old(self)@.wf(),
        ensures
            final(self)@ == old(self)@.arrow_down(),
            final(self)@.wf(),
    {
        if self.column_selected == 0 {
            self.update_works(true)
        } else if self.column_selected == 1 {
            self.update_books(true)
        } else {
            self.update_chapters(true)
        }
    }

    /// Steps up in the active column.
    pub fn arrow_up(&mut self)
        requires
            old(self)@.wf(),
        ensures
            final(self)@ == old(self)@.arrow_up(),
            final(self)@.wf(),
    {
        if self.column_selected == 0 {
            self.update_works(false)
        } else if self.column_selected == 1 {
            self.update_books(false)
        } else {
            self.update_chapters(false)
        }
    }

    /// Makes the column to the left active, the last one from the first.
    /// Selection and scroll offsets stay.
    pub fn arrow_left(&mut self)
        requires
            old(self)@.column < NUM_COLUMNS,
        ensures
            final(self)@ == old(self)@.arrow_left(),
            final(self)@.column < NUM_COLUMNS,
    {
        if self.column_selected == 0 {
            self.column_selected = NUM_COLUMNS - 1;
        } else {
            self.column_selected -= 1;
        }
    }

    /// Makes the column to the right active, the first one from the last.
    /// Selection and scroll offsets stay.
    pub fn arrow_right(&mut self)
        requires
            old(self)@.column < NUM_COLUMNS,
        ensures
            final(self)@ == old(self)@.arrow_right(),
            final(self)@.column < NUM_COLUMNS,
    {
        if self.column_selected == NUM_COLUMNS - 1 {
            self.column_selected = 0;
        } else {
            self.column_selected += 1;
        }
    }

    /// Steps to the next or the previous work, selects its first book and
    /// the first chapter of that book, and puts both texts at their top.
    pub fn update_works(&mut self, down: bool)
        requires
            old(self)@.wf(),
        ensures
            final(self)@ == old(self)@.update_works(down),
            final(self)@.wf(),
            final(self)@.book == 0,
            final(self)@.chapter == 0,
            final(self)@.text_scroll == 0,
            final(self)@.footnote_scroll == 0,
    {
        let i = stepped(self.work_index, self.data.works.len(), down);
        self.work_index = i;
        self.book_index = 0;
        self.chapter_index = 0;
        self.text_scroll = 0;
        self.footnote_scroll = 0;
    }

    /// Steps to the next or the previous book of the selected work, selects
    /// its first chapter, and puts both texts at their top.
    pub fn update_books(&mut self, down: bool)
        requires
            old(self)@.wf(),
        ensures
            final(self)@ == old(self)@.update_books(down),
            final(self)@.wf(),
            final(self)@.work == old(self)@.work,
            final(self)@.chapter == 0,
            final(self)@.text_scroll == 0,
            final(self)@.footnote_scroll == 0,
    {
        let work = &self.data.works[self.work_index];
        let i = stepped(self.book_index, work.books.len(), down);
        self.book_index = i;
        self.chapter_index = 0;
        self.text_scroll = 0;
        self.footnote_scroll = 0;
    }

    /// Steps to the next or the previous chapter of the selected book, and
    /// puts both texts at their top.
    pub fn update_chapters(&mut self, down: bool)
        requires
            old(self)@.wf(),
        ensures
            final(self)@ == old(self)@.update_chapters(down),
            final(self)@.wf(),
            final(self)@.work == old(self)@.work,
            final(self)@.book == old(self)@.book,
            final(self)@.text_scroll == 0,
            final(self)@.footnote_scroll == 0,
    {
        let work = &self.data.works[self.work_index];
        let book = &work.books[self.book_index];
        let i = stepped(self.chapter_index, book.chapters.len(), down);
        self.chapter_index = i;
        self.text_scroll = 0;
        self.footnote_scroll = 0;
    }
}

/// A step in the active column leads from a navigable state to a navigable
/// state, and keeps the active column and the number of items that it lists.
pub proof fn lemma_arrow_wf(s: AppView, down: bool)
    requires
        s.wf(),
    ensures
        s.arrow(down).wf(),
        s.arrow(down).column == s.column,
        s.arrow(down).active_len() == s.active_len(),
        s.arrow(down).active_index() == step_index(s.active_index(), s.active_len(), down),
{
}

/// The index after `n` steps in one direction, for `n` up to the number of
/// items: the steps add up, and wrap once at the end of the collection.
pub proof fn lemma_step_index_times(i: int, len: int, down: bool, n: nat)
    requires
        0 <= i < len,
        n <= len,
    ensures
        down ==> step_index_times(i, len, down, n) == if i + n < len {
            i + n
        } else {
            i + n - len
        },
        !down ==> step_index_times(i, len, down, n) == if i - n >= 0 {
            i - n
        } else {
            i - n + len
        },
    decreases n,
{
    if n > 0 {
        lemma_step_index_times(i, len, down, (n - 1) as nat);
    }
}

/// Wraparound closure: as many steps in one direction as the collection
/// has items lead back to the index they started from.
pub proof fn lemma_steps_wrap(i: int, len: int, down: bool)
    requires
        0 <= i < len,
    ensures
        step_index_times(i, len, down, len as nat) == i,
{
    lemma_step_index_times(i, len, down, len as nat);
}

/// Steps in the active column lead from a navigable state to a navigable
/// state. They keep the active column, the selection in the columns to its
/// left and the number of items that it lists, and they move its index as
/// `step_index_times` says.
pub proof fn lemma_arrow_times(s: AppView, down: bool, n: nat)
    requires
        s.wf(),
    ensures
        s.arrow_times(down, n).wf(),
        s.arrow_times(down, n).column == s.column,
        s.arrow_times(down, n).corpus == s.corpus,
        s.column >= 1 ==> s.arrow_times(down, n).work == s.work,
        s.column >= 2 ==> s.arrow_times(down, n).book == s.book,
        s.arrow_times(down, n).active_len() == s.active_len(),
        s.arrow_times(down, n).active_index() == step_index_times(
            s.active_index(),
            s.active_len(),
            down,
            n,
        ),
    decreases n,
{
    if n > 0 {
        lemma_arrow_times(s, down, (n - 1) as nat);
    }
}

/// Wraparound closure of navigation: from a navigable state, as many steps
/// down as the active column lists items lead back to the item they started
/// from, and so do as many steps up.
pub proof fn lemma_arrows_wrap(s: AppView, down: bool)
    requires
        s.wf(),
    ensures
        s.arrow_times(down, s.active_len() as nat).active_index() == s.active_index(),
        s.arrow_times(down, s.active_len() as nat).column == s.column,
        s.column >= 1 ==> s.arrow_times(down, s.active_len() as nat).work == s.work,
        s.column >= 2 ==> s.arrow_times(down, s.active_len() as nat).book == s.book,
{
    lemma_arrow_times(s, down, s.active_len() as nat);
    lemma_steps_wrap(s.active_index(), s.active_len(), down);
}

/// A step to the left and then one to the right, or the other way round,
/// leaves the state as it was.
pub proof fn lemma_left_right_identity(s: AppView)
    requires
        0 <= s.column < NUM_COLUMNS,
    ensures
        s.arrow_left().arrow_right() == s,
        s.arrow_right().arrow_left() == s,
{
}

/// Cascading resets. A step in the column of works selects the first book
/// and the first chapter and puts both scroll offsets at zero; a step in the
/// column of books keeps the work, selects the first chapter and puts both
/// offsets at zero; a step in the column of chapters keeps work and book and
/// puts both offsets at zero. A change of column keeps the selection and
/// both offsets.
pub proof fn lemma_moves_reset(s: AppView, down: bool)
    ensures
        s.update_works(down).book == 0 && s.update_works(down).chapter == 0,
        s.update_works(down).text_scroll == 0 && s.update_works(down).footnote_scroll == 0,
        s.update_books(down).work == s.work && s.update_books(down).chapter == 0,
        s.update_books(down).text_scroll == 0 && s.update_books(down).footnote_scroll == 0,
        s.update_chapters(down).work == s.work && s.update_chapters(down).book == s.book,
        s.update_chapters(down).text_scroll == 0 && s.update_chapters(down).footnote_scroll == 0,
        s.arrow(down).text_scroll == 0 && s.arrow(down).footnote_scroll == 0,
        s.arrow_left() == (AppView { column: s.arrow_left().column, ..s }),
        s.arrow_right() == (AppView { column: s.arrow_right().column, ..s }),
{
}

} // verus!
