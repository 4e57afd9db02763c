//! The failures that the reader reports.

use vstd::prelude::*;

verus! {

/// What can go wrong between loading the corpus and showing a chapter.
#[derive(Clone, Copy, Debug, PartialEq, Eq, Structural)]
pub enum AppError {
    /// The corpus could not be read, or a work came without chapters.
    Load,
    /// The markup of a chapter or of a footnote is not a markup tree.
    Markup,
}

/// Application result type.
pub type AppResult<T> = Result<T, AppError>;

} // verus!
