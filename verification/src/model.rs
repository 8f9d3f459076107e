//! The mathematical model of a parsing text field, its transitions, and what
//! holds of them.

use std::fmt::Display;
use vstd::prelude::*;

verus! {

/// The colour in which the text of a field is drawn.
#[derive(Clone, Copy, Debug, PartialEq, Eq, Structural)]
pub enum TextColor {
    /// The latest parse succeeded, or nothing was parsed yet.
    White,
    /// The latest parse failed.
    Red,
}

/// What a field is, as plain mathematical values.
pub struct FieldModel<T> {
    /// The raw text shown to the user.
    pub text: Seq<char>,
    /// The value of the latest parse, if that parse succeeded.
    pub parsed: Option<T>,
    /// Whether the latest parse failed.
    pub last_failed: bool,
    /// The width the text box asks for, in whole points.
    pub desired_width: u32,
    /// The hint shown while the text is empty.
    pub hint_text: Seq<char>,
}

impl<T> FieldModel<T> {
    /// The field after its text was parsed with the given outcome: a value is
    /// stored and clears the flag, an error clears the value and raises the
    /// flag. The text and the presentation stay as they are.
    pub open spec fn after_parse<E>(self, outcome: Result<T, E>) -> Self {
        match outcome {
            Ok(value) => FieldModel { parsed: Some(value), last_failed: false, ..self },
            Err(_) => FieldModel { parsed: None, last_failed: true, ..self },
        }
    }

    /// The field after the user replaced its text, before the new text is parsed.
    pub open spec fn with_text(self, text: Seq<char>) -> Self {
        FieldModel { text, ..self }
    }

    /// The flag is raised exactly when no parsed value is held.
    pub open spec fn consistent(self) -> bool {
        self.last_failed <==> self.parsed is None
    }

    /// Red marks a failed parse; any other field is drawn in white.
    pub open spec fn text_color(self) -> TextColor {
        if self.last_failed {
            TextColor::Red
        } else {
            TextColor::White
        }
    }
}

/// `text` is a string form of `value`, as `to_string` produces it.
pub open spec fn is_string_form<T: Display>(text: Seq<char>, value: T) -> bool {
    exists|s: String| s@ == text && vstd::string::to_string_from_display_ensures::<T>(&value, s)
}

/// `value` is a value that `T::default()` may return.
pub open spec fn is_default<T: Default>(value: T) -> bool {
    call_ensures(T::default, (), value)
}

/// `parse` can be called on every string slice that reads `text`.
pub open spec fn accepts<T, E, F: FnOnce(&str) -> Result<T, E>>(parse: F, text: Seq<char>) -> bool {
    forall|slice: &str| slice@ == text ==> call_requires(parse, (slice,))
}

/// `outcome` is what a call of `parse` on a string slice that reads `text` may
/// return.
pub open spec fn parses_to<T, E, F: FnOnce(&str) -> Result<T, E>>(
    parse: F,
    text: Seq<char>,
    outcome: Result<T, E>,
) -> bool {
    exists|slice: &str| slice@ == text && call_ensures(parse, (slice,), outcome)
}

/// Whatever the outcome of a parse, the field is consistent afterwards.
pub proof fn lemma_parse_makes_consistent<T, E>(field: FieldModel<T>, outcome: Result<T, E>)
    ensures
        field.after_parse(outcome).consistent(),
{
}

/// Only the latest parse counts: a second parse leaves the field as if the
/// first had never happened.
pub proof fn lemma_latest_parse_wins<T, E1, E2>(
    field: FieldModel<T>,
    first: Result<T, E1>,
    second: Result<T, E2>,
)
    ensures
        field.after_parse(first).after_parse(second) == field.after_parse(second),
{
}

/// Editing a field whose text failed to parse into text that parses clears the
/// flag and stores the new value.
pub proof fn lemma_valid_edit_recovers<T, E>(
    field: FieldModel<T>,
    error: E,
    text: Seq<char>,
    value: T,
)
    ensures
        field.after_parse(Err::<T, E>(error)).last_failed,
        field.after_parse(Err::<T, E>(error)).with_text(text).after_parse(Ok::<T, E>(value))
            == (FieldModel { text, parsed: Some(value), last_failed: false, ..field }),
{
}

} // verus!
