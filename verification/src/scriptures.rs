//! The corpus: works, their books, and the chapters of each book.
//!
//! A corpus is built from what the store holds for each work: one row for
//! each chapter, in reading order, with the title of the book that the
//! chapter belongs to. Rows that follow one another under one book title make
//! up one book.

use vstd::prelude::*;
use vstd::string::*;

use crate::chapter::{footnote_table, footnote_views, Chapter, ChapterView, Footnote, FootnoteView};
use crate::error::{AppError, AppResult};
use crate::seqs::{concat_range, lemma_concat_range_same};

verus! {

/// A book: its title and its chapters in reading order.
pub struct Book {
    pub title: String,
    pub chapters: Vec<Chapter>,
}

/// The mathematical value of a [`Book`].
pub struct BookView {
    pub title: Seq<char>,
    pub chapters: Seq<ChapterView>,
}

/// The values of a sequence of chapters, in order.
pub open spec fn chapter_views(chapters: Seq<Chapter>) -> Seq<ChapterView> {
    chapters.map_values(|c: Chapter| c@)
}

impl View for Book {
    type V = BookView;

    open spec fn view(&self) -> BookView {
        BookView { title: self.title@, chapters: chapter_views(self.chapters@) }
    }
}

/// A work: its title and its books in reading order.
pub struct Work {
    pub title: String,
    pub books: Vec<Book>,
}

/// The mathematical value of a [`Work`].
pub struct WorkView {
    pub title: Seq<char>,
    pub books: Seq<BookView>,
}

/// The values of a sequence of books, in order.
pub open spec fn book_views(books: Seq<Book>) -> Seq<BookView> {
    books.map_values(|b: Book| b@)
}

impl View for Work {
    type V = WorkView;

    open spec fn view(&self) -> WorkView {
        WorkView { title: self.title@, books: book_views(self.books@) }
    }
}

/// The values of a sequence of works, in order.
pub open spec fn work_views(works: Seq<Work>) -> Seq<WorkView> {
    works.map_values(|w: Work| w@)
}

/// The whole corpus: its works in reading order.
pub struct Scriptures {
    pub works: Vec<Work>,
}

impl View for Scriptures {
    type V = Seq<WorkView>;

    open spec fn view(&self) -> Seq<WorkView> {
        work_views(self.works@)
    }
}

/// What the store holds for one chapter.
#[derive(Clone, Debug)]
pub struct ChapterRow {
    pub html_content: String,
    pub chapter_title: String,
    pub book_title: String,
    /// The footnotes of the chapter, in the order in which the store gave
    /// them.
    pub footnotes: Vec<Footnote>,
}

/// The mathematical value of a [`ChapterRow`].
pub struct RowView {
    pub html_content: Seq<char>,
    pub chapter_title: Seq<char>,
    pub book_title: Seq<char>,
    pub footnotes: Seq<FootnoteView>,
}

impl View for ChapterRow {
    type V = RowView;

    open spec fn view(&self) -> RowView {
        RowView {
            html_content: self.html_content@,
            chapter_title: self.chapter_title@,
            book_title: self.book_title@,
            footnotes: footnote_views(self.footnotes@),
        }
    }
}

/// The values of a sequence of rows, in order.
pub open spec fn row_views(rows: Seq<ChapterRow>) -> Seq<RowView> {
    rows.map_values(|r: ChapterRow| r@)
}

/// What the store holds for one work: its title and the rows of its
/// chapters in reading order.
#[derive(Clone, Debug)]
pub struct WorkRows {
    pub title: String,
    pub rows: Vec<ChapterRow>,
}

/// The mathematical value of a [`WorkRows`].
pub struct WorkRowsView {
    pub title: Seq<char>,
    pub rows: Seq<RowView>,
}

impl View for WorkRows {
    type V = WorkRowsView;

    open spec fn view(&self) -> WorkRowsView {
        WorkRowsView { title: self.title@, rows: row_views(self.rows@) }
    }
}

/// The values of a sequence of loaded works, in order.
pub open spec fn source_views(sources: Seq<WorkRows>) -> Seq<WorkRowsView> {
    sources.map_values(|s: WorkRows| s@)
}

/// The chapter that a row describes.
pub open spec fn chapter_of(row: RowView) -> ChapterView {
    ChapterView {
        title: row.chapter_title,
        html_content: row.html_content,
        footnotes: footnote_table(row.footnotes, row.footnotes.len() as int),
    }
}

/// The books that the first `n` rows make up. A row whose book title is that
/// of the row before it adds its chapter to the last book; every other row
/// opens a new book.
pub open spec fn grouped(rows: Seq<RowView>, n: int) -> Seq<BookView>
    decreases n,
{
    if n <= 0 {
        Seq::empty()
    } else {
        let before = grouped(rows, n - 1);
        let row = rows[n - 1];
        if n >= 2 && rows[n - 2].book_title == row.book_title {
            before.drop_last().push(
                BookView {
                    title: before.last().title,
                    chapters: before.last().chapters.push(chapter_of(row)),
                },
            )
        } else {
            before.push(BookView { title: row.book_title, chapters: seq![chapter_of(row)] })
        }
    }
}

/// The work that a loaded work makes up.
pub open spec fn work_of(source: WorkRowsView) -> WorkView {
    WorkView { title: source.title, books: grouped(source.rows, source.rows.len() as int) }
}

/// Whether each loaded work came with at least one row.
pub open spec fn all_have_rows(sources: Seq<WorkRowsView>) -> bool {
    forall|i: int| 0 <= i < sources.len() ==> (#[trigger] sources[i]).rows.len() > 0
}

/// The corpus that the loaded works make up.
pub open spec fn corpus_of(sources: Seq<WorkRowsView>) -> Seq<WorkView> {
    sources.map_values(|s: WorkRowsView| work_of(s))
}

/// Every work has a book, and every book has a chapter.
pub open spec fn corpus_wf(works: Seq<WorkView>) -> bool {
    forall|w: int|
        0 <= w < works.len() ==> {
            &&& (#[trigger] works[w]).books.len() > 0
            &&& forall|b: int|
                0 <= b < works[w].books.len() ==> (#[trigger] works[w].books[b]).chapters.len() > 0
        }
}

/// The first `n` rows, where there is one, make up at least one book; every
/// one of the books has a chapter, and the last book has the title of the
/// last row.
pub proof fn lemma_grouped_books(rows: Seq<RowView>, n: int)
    requires
        0 <= n <= rows.len(),
    ensures
        n > 0 ==> grouped(rows, n).len() > 0 && grouped(rows, n).last().title == rows[n
            - 1].book_title,
        forall|b: int|
            0 <= b < grouped(rows, n).len() ==> (#[trigger] grouped(rows, n)[b]).chapters.len() > 0,
    decreases n,
{
    if n > 0 {
        lemma_grouped_books(rows, n - 1);
        let before = grouped(rows, n - 1);
        let now = grouped(rows, n);
        assert forall|b: int| 0 <= b < now.len() implies (#[trigger] now[b]).chapters.len()
            > 0 by {
            if b < now.len() - 1 {
                assert(now[b] == before[b]);
            }
        }
    }
}

/// A corpus made from loaded works that all came with rows has a book in
/// every work and a chapter in every book.
pub proof fn lemma_corpus_of_wf(sources: Seq<WorkRowsView>)
    requires
        all_have_rows(sources),
    ensures
        corpus_wf(corpus_of(sources)),
{
    let works = corpus_of(sources);
    assert forall|w: int| 0 <= w < works.len() implies {
        &&& (#[trigger] works[w]).books.len() > 0
        &&& forall|b: int|
            0 <= b < works[w].books.len() ==> (#[trigger] works[w].books[b]).chapters.len() > 0
    } by {
        lemma_grouped_books(sources[w].rows, sources[w].rows.len() as int);
    }
}

/// The function from the place of a book to its chapters.
pub open spec fn chapters_fn(books: Seq<BookView>) -> spec_fn(int) -> Seq<ChapterView> {
    |b: int| books[b].chapters
}

/// The chapters of all the books, in reading order.
pub open spec fn all_chapters(books: Seq<BookView>) -> Seq<ChapterView> {
    concat_range(0, books.len() as int, chapters_fn(books))
}

/// The chapters that the first `n` rows describe, in order.
pub open spec fn row_chapters(rows: Seq<RowView>, n: int) -> Seq<ChapterView> {
    rows.take(n).map_values(|r: RowView| chapter_of(r))
}

/// Grouping loses no chapter, adds none and keeps their order: the chapters
/// of the books, read through, are the chapters of the rows. Two books that
/// follow one another have different titles.
pub proof fn lemma_grouped_keeps_rows(rows: Seq<RowView>, n: int)
    requires
        0 <= n <= rows.len(),
    ensures
        all_chapters(grouped(rows, n)) == row_chapters(rows, n),
        forall|b: int|
            0 <= b < grouped(rows, n).len() - 1 ==> (#[trigger] grouped(rows, n)[b]).title
                != grouped(rows, n)[b + 1].title,
    decreases n,
{
    if n > 0 {
        lemma_grouped_keeps_rows(rows, n - 1);
        lemma_grouped_books(rows, n - 1);
        let before = grouped(rows, n - 1);
        let now = grouped(rows, n);
        let kept = if n >= 2 && rows[n - 2].book_title == rows[n - 1].book_title {
            before.len() - 1
        } else {
            before.len() as int
        };
        assert(row_chapters(rows, n) =~= row_chapters(rows, n - 1).push(chapter_of(rows[n - 1])));
        assert(forall|i: int|
            0 <= i < kept ==> #[trigger] chapters_fn(now)(i) == chapters_fn(before)(i));
        lemma_concat_range_same(0, kept, chapters_fn(now), chapters_fn(before));
        assert(forall|b: int|
            0 <= b < now.len() - 1 ==> (#[trigger] now[b]).title != now[b + 1].title);
    }
}

/// The books that `rows` make up.
pub fn group_books(rows: &Vec<ChapterRow>) -> (books: Vec<Book>)
    ensures
        book_views(books@) == grouped(row_views(rows@), rows@.len() as int),
{
    let ghost views = row_views(rows@);
    let mut books: Vec<Book> = Vec::new();
    let mut book_title = String::new();
    let mut chapters: Vec<Chapter> = Vec::new();
    let mut i: usize = 0;
    while i < rows.len()
        invariant
            i <= rows.len(),
            views == row_views(rows@),
            i == 0 ==> chapters@.len() == 0 && books@.len() == 0 && book_title@.len() == 0,
            i > 0 ==> chapters@.len() > 0 && book_title@ == views[i - 1].book_title
                && book_views(books@).push(
                BookView { title: book_title@, chapters: chapter_views(chapters@) },
            ) == grouped(views, i as int),
        decreases rows.len() - i,
    {
        let row = &rows[i];
        let same_book = book_title == row.book_title;
        if !same_book {
            if chapters.len() > 0 {
                let mut finished: Vec<Chapter> = Vec::new();
                std::mem::swap(&mut chapters, &mut finished);
                books.push(Book { title: book_title, chapters: finished });
            }
            book_title = row.book_title.clone();
        }
        let ghost open = chapter_views(chapters@);
        chapters.push(
            Chapter::new(row.chapter_title.clone(), row.html_content.clone(), &row.footnotes),
        );
        assert(chapter_views(chapters@) =~= open.push(chapter_of(row@)));
        proof {
            if !same_book || i == 0 {
                assert(chapter_views(chapters@) =~= seq![chapter_of(row@)]);
            }
            if i == 0 {
                assert(grouped(views, 0) =~= Seq::<BookView>::empty());
            }
        }
        i += 1;
    }
    if chapters.len() > 0 {
        books.push(Book { title: book_title, chapters });
    }
    books
}

/// The corpus that loaded works make up, or nothing where one of them came
/// without rows.
pub open spec fn loaded_corpus(sources: Seq<WorkRowsView>) -> Option<Seq<WorkView>> {
    if all_have_rows(sources) {
        Some(corpus_of(sources))
    } else {
        None
    }
}

/// The outcome of building a corpus from the outcome of loading.
pub open spec fn built_corpus(loaded: AppResult<Vec<WorkRows>>) -> Result<Seq<WorkView>, AppError> {
    match loaded {
        Ok(sources) => match loaded_corpus(source_views(sources@)) {
            Some(works) => Ok(works),
            None => Err(AppError::Load),
        },
        Err(e) => Err(e),
    }
}

impl Default for Scriptures {
    /// The corpus without works.
    fn default() -> (empty: Scriptures)
        ensures
            empty@ == Seq::<WorkView>::empty(),
    {
        Scriptures { works: Vec::new() }
    }
}

impl Scriptures {
    /// The corpus for the outcome of loading: the one that the loaded works
    /// make up, and the corpus without works where loading failed or a work
    /// came without rows.
    pub fn new(loaded: AppResult<Vec<WorkRows>>) -> (corpus: Scriptures)
        ensures
            corpus@ == match built_corpus(loaded) {
                Ok(works) => works,
                Err(_) => Seq::empty(),
            },
            corpus_wf(corpus@),
    {
        match Scriptures::new_failable(loaded) {
            Ok(corpus) => corpus,
            Err(_) => Scriptures::default(),
        }
    }

    /// Builds the corpus from the outcome of loading. A failure to load is
    /// handed on; a work that came without rows is a failure to load.
    pub fn new_failable(loaded: AppResult<Vec<WorkRows>>) -> (corpus: AppResult<Scriptures>)
        ensures
            match corpus {
                Ok(c) => built_corpus(loaded) == Ok::<Seq<WorkView>, AppError>(c@) && corpus_wf(c@),
                Err(e) => built_corpus(loaded) == Err::<Seq<WorkView>, AppError>(e),
            },
    {
        let sources = match loaded {
            Ok(sources) => sources,
            Err(e) => {
                return Err(e);
            },
        };
        let ghost views = source_views(sources@);
        let mut works: Vec<Work> = Vec::new();
        let mut i: usize = 0;
        while i < sources.len()
            invariant
                i <= sources.len(),
                loaded == Ok::<Vec<WorkRows>, AppError>(sources),
                views == source_views(sources@),
                work_views(works@) == corpus_of(views.take(i as int)),
                all_have_rows(views.take(i as int)),
            decreases sources.len() - i,
        {
            let source = &sources[i];
            assert(source@ == views[i as int]);
            if source.rows.len() == 0 {
                return Err(AppError::Load);
            }
            let ghost before = work_views(works@);
            works.push(Work { title: source.title.clone(), books: group_books(&source.rows) });
            assert(work_views(works@) =~= before.push(work_of(views[i as int])));
            i += 1;
        }
        assert(views.take(i as int) =~= views);
        proof {
            lemma_corpus_of_wf(views);
        }
        Ok(Scriptures { works })
    }
}

} // verus!
