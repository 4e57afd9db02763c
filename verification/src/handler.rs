//! What a key or a mouse event does to the application state.

use vstd::prelude::*;

use crate::app::{App, AppView, NUM_COLUMNS};
use crate::error::{AppError, AppResult};
use crate::scroll::{scroll_down, scroll_up, scrolled_down, scrolled_up};

verus! {

/// The keys that the reader tells apart.
#[derive(Clone, Copy, Debug, PartialEq, Eq, Structural)]
pub enum KeyCode {
    Esc,
    Char(char),
    Up,
    Down,
    Left,
    Right,
    Other,
}

/// The modifier bits of a key event in which the control key, and no other
/// modifier, is held.
pub const CONTROL: u8 = 2;

/// A key event: the key and the bits of the modifiers held with it.
#[derive(Clone, Copy, Debug, PartialEq, Eq, Structural)]
pub struct KeyEvent {
    pub code: KeyCode,
    pub modifiers: u8,
}

/// The kinds of mouse event that the reader tells apart.
#[derive(Clone, Copy, Debug, PartialEq, Eq, Structural)]
pub enum MouseEventKind {
    ScrollDown,
    ScrollUp,
    Other,
}

/// A mouse event: its kind and the cell under the pointer.
#[derive(Clone, Copy, Debug, PartialEq, Eq, Structural)]
pub struct MouseEvent {
    pub kind: MouseEventKind,
    pub column: u16,
    pub row: u16,
}

/// Whether a key event asks to quit: escape, `q`, or `c` with control alone.
pub open spec fn asks_to_quit(key: KeyEvent) -> bool {
    match key.code {
        KeyCode::Esc => true,
        KeyCode::Char(c) => c == 'q' || ((c == 'c' || c == 'C') && key.modifiers == CONTROL),
        _ => false,
    }
}

/// The state after a key event.
pub open spec fn key_outcome(state: AppView, key: KeyEvent) -> AppView {
    if asks_to_quit(key) {
        state.quit()
    } else {
        match key.code {
            KeyCode::Up => state.arrow_up(),
            KeyCode::Down => state.arrow_down(),
            KeyCode::Left => state.arrow_left(),
            KeyCode::Right => state.arrow_right(),
            _ => state,
        }
    }
}

/// What a key event needs of the state: a step up or down starts from a
/// navigable state, a step to the side from a state with one of the three
/// columns active.
pub open spec fn key_admitted(state: AppView, key: KeyEvent) -> bool {
    match key.code {
        KeyCode::Up | KeyCode::Down => state.wf(),
        KeyCode::Left | KeyCode::Right => 0 <= state.column < NUM_COLUMNS,
        _ => true,
    }
}

/// Whether `app` is in a state that admits the key event.
pub fn key_is_admitted(app: &App, key_event: KeyEvent) -> (holds: bool)
    ensures
        holds == key_admitted(app@, key_event),
{
    match key_event.code {
        KeyCode::Up | KeyCode::Down => app.is_navigable(),
        KeyCode::Left | KeyCode::Right => app.column_selected < NUM_COLUMNS,
        _ => true,
    }
}

/// Handles the key events and updates the state of [`App`].
pub fn handle_key_events(key_event: KeyEvent, app: &mut App) -> (result: AppResult<()>)
    requires
        key_admitted(old(app)@, key_event),
    ensures
        result is Ok,
        final(app)@ == key_outcome(old(app)@, key_event),
        key_admitted(final(app)@, key_event),
{
    match key_event.code {
        KeyCode::Esc => {
            app.quit();
        },
        KeyCode::Char(c) => {
            if c == 'q' {
                app.quit();
            } else if c == 'c' || c == 'C' {
                if key_event.modifiers == CONTROL {
                    app.quit();
                }
            }
        },
        KeyCode::Up => {
            app.arrow_up();
        },
        KeyCode::Down => {
            app.arrow_down();
        },
        KeyCode::Left => {
            app.arrow_left();
        },
        KeyCode::Right => {
            app.arrow_right();
        },
        KeyCode::Other => {},
    }
    Ok(())
}

/// The viewport that a mouse event is routed to.
#[derive(Clone, Copy, Debug, PartialEq, Eq, Structural)]
pub enum Pane {
    Text,
    Footnotes,
}

/// The viewport under the pointer: the text where its rectangle holds the
/// pointer, else the footnotes where theirs does, else none.
pub open spec fn pane_under(state: AppView, mouse: MouseEvent) -> Option<Pane> {
    if state.text_rect.spec_contains(mouse.column, mouse.row) {
        Some(Pane::Text)
    } else if state.footnote_rect.spec_contains(mouse.column, mouse.row) {
        Some(Pane::Footnotes)
    } else {
        None
    }
}

/// The state after a mouse event, or nothing where the text that the event
/// scrolls in cannot be made.
pub open spec fn mouse_outcome(state: AppView, mouse: MouseEvent) -> Option<AppView> {
    match (mouse.kind, pane_under(state, mouse)) {
        (MouseEventKind::ScrollDown, Some(Pane::Text)) => match state.chapter_text() {
            Some(lines) => Some(
                AppView {
                    text_scroll: scrolled_down(
                        lines,
                        state.text_rect.width as int,
                        state.text_rect.height as int,
                        state.text_scroll,
                    ),
                    ..state
                },
            ),
            None => None,
        },
        (MouseEventKind::ScrollDown, Some(Pane::Footnotes)) => match state.chapter_footnotes_text(
        ) {
            Some(lines) => Some(
                AppView {
                    footnote_scroll: scrolled_down(
                        lines,
                        state.footnote_rect.width as int,
                        state.footnote_rect.height as int,
                        state.footnote_scroll,
                    ),
                    ..state
                },
            ),
            None => None,
        },
        (MouseEventKind::ScrollUp, Some(Pane::Text)) => Some(
            AppView { text_scroll: scrolled_up(state.text_scroll), ..state },
        ),
        (MouseEventKind::ScrollUp, Some(Pane::Footnotes)) => Some(
            AppView { footnote_scroll: scrolled_up(state.footnote_scroll), ..state },
        ),
        _ => Some(state),
    }
}

/// An event with the pointer outside both viewports leaves the state as it
/// was, and so does every event that is no scroll.
pub proof fn lemma_event_outside_viewports(state: AppView, mouse: MouseEvent)
    requires
        pane_under(state, mouse) is None || mouse.kind == MouseEventKind::Other,
    ensures
        mouse_outcome(state, mouse) == Some(state),
{
}

/// A scroll up never fails. It moves the offset of the viewport under the
/// pointer alone, by one row, and leaves an offset of zero at zero.
pub proof fn lemma_scroll_up(state: AppView, mouse: MouseEvent)
    requires
        mouse.kind == MouseEventKind::ScrollUp,
    ensures
        mouse_outcome(state, mouse) matches Some(next) && match pane_under(state, mouse) {
            Some(Pane::Text) => next == (AppView {
                text_scroll: scrolled_up(state.text_scroll),
                ..state
            }),
            Some(Pane::Footnotes) => next == (AppView {
                footnote_scroll: scrolled_up(state.footnote_scroll),
                ..state
            }),
            None => next == state,
        },
        scrolled_up(0) == 0,
{
}

/// What a mouse event needs of the state: to scroll down in a viewport, a
/// chapter is selected.
pub open spec fn mouse_admitted(state: AppView, mouse: MouseEvent) -> bool {
    mouse.kind == MouseEventKind::ScrollDown && pane_under(state, mouse) is Some
        ==> state.chapter_selected()
}

/// Whether `app` is in a state that admits the mouse event.
pub fn mouse_is_admitted(app: &App, mouse_event: MouseEvent) -> (holds: bool)
    ensures
        holds == mouse_admitted(app@, mouse_event),
{
    match mouse_event.kind {
        MouseEventKind::ScrollDown => match pane_at(app, mouse_event) {
            Some(_) => app.has_chapter(),
            None => true,
        },
        _ => true,
    }
}

/// The viewport under the pointer.
pub fn pane_at(app: &App, mouse_event: MouseEvent) -> (pane: Option<Pane>)
    ensures
        pane == pane_under(app@, mouse_event),
{
    if app.text_rect.contains(mouse_event.column, mouse_event.row) {
        Some(Pane::Text)
    } else if app.footnote_rect.contains(mouse_event.column, mouse_event.row) {
        Some(Pane::Footnotes)
    } else {
        None
    }
}

/// Handles the mouse events and updates the state of [`App`]. A scroll
/// event moves the offset of the viewport under the pointer by one row,
/// within the bounds of its text; outside both viewports it does nothing.
/// Where the text to scroll in cannot be made, the state stays and the
/// failure is handed on.
pub fn handle_mouse_events(mouse_event: MouseEvent, app: &mut App) -> (result: AppResult<()>)
    requires
        mouse_admitted(old(app)@, mouse_event),
    ensures
        match result {
            Ok(_) => mouse_outcome(old(app)@, mouse_event) == Some(final(app)@),
            Err(e) => mouse_outcome(old(app)@, mouse_event) is None && e == AppError::Markup
                && final(app)@ == old(app)@,
        },
{
    let pane = pane_at(app, mouse_event);
    match mouse_event.kind {
        MouseEventKind::ScrollDown => match pane {
            Some(Pane::Text) => {
                let text = match app.chapter_text() {
                    Ok(text) => text,
                    Err(e) => {
                        return Err(e);
                    },
                };
                let rect = app.text_rect;
                app.text_scroll = scroll_down(&text, rect.width, rect.height, app.text_scroll);
            },
            Some(Pane::Footnotes) => {
                let text = match app.chapter_footnotes_text() {
                    Ok(text) => text,
                    Err(e) => {
                        return Err(e);
                    },
                };
                let rect = app.footnote_rect;
                app.footnote_scroll =
                    scroll_down(&text, rect.width, rect.height, app.footnote_scroll);
            },
            None => {},
        },
        MouseEventKind::ScrollUp => match pane {
            Some(Pane::Text) => {
                app.text_scroll = scroll_up(app.text_scroll);
            },
            Some(Pane::Footnotes) => {
                app.footnote_scroll = scroll_up(app.footnote_scroll);
            },
            None => {},
        },
        MouseEventKind::Other => {},
    }
    Ok(())
}

} // verus!
