//! The exercise engine of an interactive language course: cell texts are
//! parsed into labels and quizzable spans, a table of them is given an
//! answer-entry style, and the display mode and the checking of answers are
//! tracked as small state machines.
//!
//! A text is modelled by its UTF-8 bytes throughout.

pub mod cell;
pub mod exercise;
pub mod grid;
pub mod lesson;
pub mod mode;
pub mod options;
pub mod parse;
pub mod runner;
pub mod table;
pub mod text;
pub mod theme;
