//! A reader for scripture texts organised as work, book and chapter.
//!
//! The crate holds the logic of the reader: the markup tree of a chapter, the
//! renderer that turns it into styled lines, the footnote linker, the
//! navigation state with its cascading resets, and the bounds of the two
//! scroll offsets. Drawing, input capture and storage are left to the caller.

pub mod app;
pub mod chapter;
pub mod error;
pub mod handler;
pub mod layout;
pub mod marker;
pub mod markup;
pub mod render;
pub mod scriptures;
pub mod scroll;
pub mod seqs;
pub mod strings;
pub mod text;
pub mod ui;
