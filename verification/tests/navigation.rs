use scripture_reader::app::{App, NUM_COLUMNS};
use scripture_reader::layout::Rect;
use scripture_reader::chapter::Footnote;
use scripture_reader::error::AppError;
use scripture_reader::app::corpus_is_wf;
use scripture_reader::scriptures::{group_books, Book, ChapterRow, Scriptures, Work, WorkRows};

fn row(book: &str, chapter: &str) -> ChapterRow {
    ChapterRow {
        html_content: format!("<body><p class=\"verse\">{}</p></body>", chapter),
        chapter_title: chapter.to_string(),
        book_title: book.to_string(),
        footnotes: Vec::new(),
    }
}

fn corpus() -> Scriptures {
    Scriptures::new(Ok(vec![
        WorkRows {
            title: "OT".to_string(),
            rows: vec![row("Genesis", "Gen 1"), row("Genesis", "Gen 2"), row("Genesis", "Gen 3"), row("Exodus", "Ex 1")],
        },
        WorkRows { title: "NT".to_string(), rows: vec![row("Matthew", "Matt 1"), row("Mark", "Mark 1"), row("Mark", "Mark 2")] },
        WorkRows { title: "BoM".to_string(), rows: vec![row("1 Nephi", "1 Ne 1")] },
    ]))
}

fn selection(app: &App) -> (usize, usize, usize) {
    (app.work_index, app.book_index, app.chapter_index)
}

#[test]
fn new_app_selects_the_first_chapter() {
    let app = App::new(corpus());
    assert!(app.running);
    assert_eq!(app.column_selected, 0);
    assert_eq!(selection(&app), (0, 0, 0));
    assert_eq!((app.text_scroll, app.footnote_scroll), (0, 0));
    assert_eq!(app.text_rect, Rect { x: 0, y: 0, width: 0, height: 0 });
    assert_eq!(app.footnote_rect, Rect { x: 0, y: 0, width: 0, height: 0 });
    assert!(app.is_navigable());
    assert_eq!(app.chapter_title(), "Gen 1");
    assert_eq!(NUM_COLUMNS, 3);
}

#[test]
fn app_over_an_empty_corpus_is_not_navigable() {
    let app = App::new(Scriptures::new(Err(AppError::Load)));
    assert!(!app.is_navigable());
    assert_eq!(app.works_titles(), Vec::<String>::new());
}

#[test]
fn titles_follow_the_selection() {
    let mut app = App::new(corpus());
    assert_eq!(app.works_titles(), vec!["OT", "NT", "BoM"]);
    assert_eq!(app.books_titles(), vec!["Genesis", "Exodus"]);
    assert_eq!(app.chapters_titles(), vec!["Gen 1", "Gen 2", "Gen 3"]);
    app.arrow_down();
    assert_eq!(app.books_titles(), vec!["Matthew", "Mark"]);
    assert_eq!(app.chapters_titles(), vec!["Matt 1"]);
    assert_eq!(app.chapter_title(), "Matt 1");
}

#[test]
fn moving_down_as_often_as_there_are_items_returns_to_the_start() {
    let mut app = App::new(corpus());
    for _ in 0..3 {
        app.arrow_down();
    }
    assert_eq!(selection(&app), (0, 0, 0));

    app.arrow_right();
    app.arrow_down();
    assert_eq!(selection(&app), (0, 1, 0));
    app.arrow_down();
    assert_eq!(selection(&app), (0, 0, 0));

    app.arrow_right();
    app.arrow_down();
    assert_eq!(selection(&app), (0, 0, 1));
    app.arrow_down();
    assert_eq!(selection(&app), (0, 0, 2));
    app.arrow_down();
    assert_eq!(selection(&app), (0, 0, 0));
}

#[test]
fn moving_up_as_often_as_there_are_items_returns_to_the_start() {
    let mut app = App::new(corpus());
    app.arrow_up();
    assert_eq!(selection(&app), (2, 0, 0));
    app.arrow_up();
    assert_eq!(selection(&app), (1, 0, 0));
    app.arrow_up();
    assert_eq!(selection(&app), (0, 0, 0));

    app.column_selected = 2;
    app.chapter_index = 1;
    for _ in 0..3 {
        app.arrow_up();
    }
    assert_eq!(selection(&app), (0, 0, 1));
}

#[test]
fn a_single_item_wraps_onto_itself() {
    let mut app = App::new(corpus());
    app.work_index = 2;
    app.column_selected = 1;
    app.arrow_down();
    assert_eq!(selection(&app), (2, 0, 0));
    app.arrow_up();
    assert_eq!(selection(&app), (2, 0, 0));
}

#[test]
fn left_then_right_is_the_identity() {
    for column in 0..3 {
        let mut app = App::new(corpus());
        app.column_selected = column;
        app.arrow_left();
        assert_eq!(app.column_selected, (column + 2) % 3);
        app.arrow_right();
        assert_eq!(app.column_selected, column);
        app.arrow_right();
        assert_eq!(app.column_selected, (column + 1) % 3);
        app.arrow_left();
        assert_eq!(app.column_selected, column);
    }
}

#[test]
fn a_new_work_resets_book_chapter_and_scrolls() {
    let mut app = App::new(corpus());
    app.book_index = 0;
    app.chapter_index = 2;
    app.text_scroll = 7;
    app.footnote_scroll = 3;
    app.update_works(true);
    assert_eq!(selection(&app), (1, 0, 0));
    assert_eq!((app.text_scroll, app.footnote_scroll), (0, 0));
}

#[test]
fn a_new_book_resets_chapter_and_scrolls() {
    let mut app = App::new(corpus());
    app.chapter_index = 2;
    app.text_scroll = 7;
    app.footnote_scroll = 3;
    app.update_books(false);
    assert_eq!(selection(&app), (0, 1, 0));
    assert_eq!((app.text_scroll, app.footnote_scroll), (0, 0));
}

#[test]
fn a_new_chapter_resets_scrolls_only() {
    let mut app = App::new(corpus());
    app.work_index = 1;
    app.book_index = 1;
    app.text_scroll = 7;
    app.footnote_scroll = 3;
    app.update_chapters(true);
    assert_eq!(selection(&app), (1, 1, 1));
    assert_eq!((app.text_scroll, app.footnote_scroll), (0, 0));
}

#[test]
fn a_change_of_column_resets_nothing() {
    let mut app = App::new(corpus());
    app.work_index = 1;
    app.book_index = 1;
    app.chapter_index = 1;
    app.text_scroll = 7;
    app.footnote_scroll = 3;
    app.arrow_right();
    app.arrow_right();
    app.arrow_left();
    assert_eq!(selection(&app), (1, 1, 1));
    assert_eq!((app.text_scroll, app.footnote_scroll), (7, 3));
    assert!(app.running);
}

#[test]
fn quit_stops_the_app_and_keeps_the_rest() {
    let mut app = App::new(corpus());
    app.work_index = 1;
    app.text_scroll = 4;
    app.tick();
    app.quit();
    assert!(!app.running);
    assert_eq!(selection(&app), (1, 0, 0));
    assert_eq!(app.text_scroll, 4);
}

#[test]
fn chapter_text_and_footnotes_come_from_the_selected_chapter() {
    let mut rows = vec![row("Genesis", "Gen 1")];
    rows[0].html_content = "<body><p class=\"verse\">In <a class=\"study-note-ref\" data-ref=\"f\"><sup>a</sup></a></p></body>".to_string();
    rows[0].footnotes = vec![Footnote { id: "f".to_string(), label_html: "1a".to_string(), content_html: "Note".to_string() }];
    let app = App::new(Scriptures::new(Ok(vec![WorkRows { title: "OT".to_string(), rows }])));
    let text = app.chapter_text().unwrap();
    assert_eq!(text.len(), 2);
    assert_eq!(text.lines[0].spans[0].text, "In ");
    assert_eq!(text.lines[0].spans[1].text, "ᵃ");
    let notes = app.chapter_footnotes_text().unwrap();
    assert_eq!(notes.len(), 1);
    assert_eq!(notes.lines[0].spans[0].text, "1a");
    assert!(notes.lines[0].spans[0].bold);
    assert_eq!(notes.lines[0].spans[1].text, "Note");
}

#[test]
fn chapter_with_malformed_markup_reports_a_markup_error() {
    let mut rows = vec![row("Genesis", "Gen 1")];
    rows[0].html_content = "<body>".to_string();
    let app = App::new(Scriptures::new(Ok(vec![WorkRows { title: "OT".to_string(), rows }])));
    assert_eq!(app.chapter_text(), Err(AppError::Markup));
    assert_eq!(app.chapter_footnotes_text(), Err(AppError::Markup));
}

#[test]
fn rows_under_one_book_title_make_one_book() {
    let rows = vec![row("A", "a1"), row("A", "a2"), row("B", "b1"), row("A", "a3")];
    let books = group_books(&rows);
    let shape: Vec<(String, Vec<String>)> = books
        .iter()
        .map(|b| (b.title.clone(), b.chapters.iter().map(|c| c.title.clone()).collect()))
        .collect();
    assert_eq!(
        shape,
        vec![
            ("A".to_string(), vec!["a1".to_string(), "a2".to_string()]),
            ("B".to_string(), vec!["b1".to_string()]),
            ("A".to_string(), vec!["a3".to_string()]),
        ]
    );
    assert_eq!(books[0].chapters[1].html_content, "<body><p class=\"verse\">a2</p></body>");
}

#[test]
fn rows_with_an_empty_book_title_make_a_book_too() {
    let rows = vec![row("", "x1"), row("", "x2"), row("B", "b1")];
    let books = group_books(&rows);
    assert_eq!(books.len(), 2);
    assert_eq!(books[0].title, "");
    assert_eq!(books[0].chapters.len(), 2);
    assert_eq!(books[1].title, "B");
    assert_eq!(group_books(&Vec::new()).len(), 0);
}

#[test]
fn corpus_keeps_works_in_order() {
    let data = corpus();
    assert_eq!(data.works.len(), 3);
    assert_eq!(data.works[0].title, "OT");
    assert_eq!(data.works[0].books.len(), 2);
    assert_eq!(data.works[1].books[1].chapters.len(), 2);
    assert_eq!(data.works[2].books[0].chapters[0].title, "1 Ne 1");
}

#[test]
fn failed_load_is_handed_on_and_degrades_to_an_empty_corpus() {
    assert!(matches!(Scriptures::new_failable(Err(AppError::Load)), Err(AppError::Load)));
    assert!(matches!(Scriptures::new_failable(Err(AppError::Markup)), Err(AppError::Markup)));
    assert_eq!(Scriptures::new(Err(AppError::Load)).works.len(), 0);
    assert_eq!(Scriptures::default().works.len(), 0);
}

#[test]
fn work_without_rows_is_a_load_error() {
    let loaded = vec![
        WorkRows { title: "OT".to_string(), rows: vec![row("Genesis", "Gen 1")] },
        WorkRows { title: "NT".to_string(), rows: Vec::new() },
    ];
    assert!(matches!(Scriptures::new_failable(Ok(loaded.clone())), Err(AppError::Load)));
    assert_eq!(Scriptures::new(Ok(loaded)).works.len(), 0);
    assert_eq!(Scriptures::new_failable(Ok(Vec::new())).ok().unwrap().works.len(), 0);
}

#[test]
fn corpus_with_an_empty_work_or_book_is_not_navigable() {
    assert!(corpus_is_wf(&corpus()));
    assert!(corpus_is_wf(&Scriptures::default()));

    let mut no_books = corpus();
    no_books.works.push(Work { title: "Empty".to_string(), books: Vec::new() });
    assert!(!corpus_is_wf(&no_books));
    assert!(!App::new(no_books).is_navigable());

    let mut no_chapters = corpus();
    no_chapters.works[1].books.push(Book { title: "Empty".to_string(), chapters: Vec::new() });
    assert!(!corpus_is_wf(&no_chapters));
    assert!(!App::new(no_chapters).is_navigable());
}

#[test]
fn selection_outside_the_corpus_is_not_navigable() {
    let mut app = App::new(corpus());
    app.work_index = 3;
    assert!(!app.is_navigable());
    assert!(!app.has_chapter());
    app.work_index = 1;
    app.book_index = 2;
    assert!(!app.has_chapter());
    app.book_index = 1;
    app.chapter_index = 2;
    assert!(!app.has_chapter());
    app.chapter_index = 1;
    assert!(app.has_chapter());
    assert!(app.is_navigable());
    app.column_selected = 3;
    assert!(!app.is_navigable());
    assert!(app.has_chapter());
}
