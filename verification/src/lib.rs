//! A text field that parses what it holds into a typed value.
//!
//! The field keeps the raw text, the value the text last parsed to, and a flag
//! that tells whether the latest parse failed. A toolkit draws the text box and
//! reports whether the user edited it; everything the field decides from that
//! report is done here and proved against [`model::FieldModel`].

pub mod field;
pub mod model;

pub use field::{ParsedTextField, ParsedTextFieldState, DEFAULT_WIDTH};
pub use model::{FieldModel, TextColor};
