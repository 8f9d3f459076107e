//! The state of a parsing text field and the view through which one frame of
//! the user interface reads and updates it.

use crate::model::{accepts, is_default, is_string_form, parses_to, FieldModel, TextColor};
use std::fmt::Display;
use vstd::prelude::*;

verus! {

/// The width a new field asks for, in whole points.
pub const DEFAULT_WIDTH: u32 = 50;

/// The lasting data behind one parsing text field.
///
/// The owner creates it once, hands it to a [`ParsedTextField`] every frame and
/// reads `text`, `parsed` and [`last_failed`](Self::last_failed) afterwards.
pub struct ParsedTextFieldState<T> {
    /// The raw text shown to the user.
    pub text: String,
    /// The value of the latest parse; `None` when that parse failed.
    pub parsed: Option<T>,
    last_failed: bool,
    desired_width: u32,
    hint_text: String,
}

impl<T> View for ParsedTextFieldState<T> {
    type V = FieldModel<T>;

    closed spec fn view(&self) -> FieldModel<T> {
        FieldModel {
            text: self.text@,
            parsed: self.parsed,
            last_failed: self.last_failed,
            desired_width: self.desired_width,
            hint_text: self.hint_text@,
        }
    }
}

impl<T: Default + Display> Default for ParsedTextFieldState<T> {
    /// A field that holds a default value of `T` and shows its string form.
    fn default() -> (state: Self)
        ensures
            state@.parsed matches Some(value) && is_default(value) && is_string_form(
                state@.text,
                value,
            ),
            !state@.last_failed,
            state@.desired_width == DEFAULT_WIDTH,
            state@.hint_text == Seq::<char>::empty(),
            state@.consistent(),
    {
        let value = T::default();
        let text = value.to_string();
        Self {
            text,
            parsed: Some(value),
            last_failed: false,
            desired_width: DEFAULT_WIDTH,
            hint_text: String::new(),
        }
    }
}

impl<T> ParsedTextFieldState<T> {
    /// Sets the width the text box asks for, in whole points.
    pub fn desired_width(self, desired_width: u32) -> (state: Self)
        ensures
            state@ == (FieldModel { desired_width, ..self@ }),
    {
        Self { desired_width, ..self }
    }

    /// Sets the hint shown while the text is empty.
    pub fn hint_text(self, hint_text: String) -> (state: Self)
        ensures
            state@ == (FieldModel { hint_text: hint_text@, ..self@ }),
    {
        Self { hint_text, ..self }
    }

    /// Whether the latest parse of the text failed.
    pub fn last_failed(&self) -> (failed: bool)
        ensures
            failed == self@.last_failed,
    {
        self.last_failed
    }

    /// Records the outcome of parsing the current text.
    ///
    /// A value is stored and clears the failure flag. An error raises the flag
    /// and clears the stored value, so a stale value is never mistaken for what
    /// the text says now.
    pub fn record_parse<E>(&mut self, outcome: Result<T, E>)
        ensures
            final(self)@ == old(self)@.after_parse(outcome),
            outcome matches Ok(value) ==> !final(self)@.last_failed && final(self)@.parsed == Some(
                value,
            ),
            outcome is Err ==> final(self)@.last_failed && final(self)@.parsed is None,
            final(self)@.consistent(),
    {
        match outcome {
            Ok(value) => {
                self.last_failed = false;
                self.parsed = Some(value);
            },
            Err(_) => {
                self.parsed = None;
                self.last_failed = true;
            },
        }
    }
}

/// A view of a field for the length of one frame.
///
/// It borrows the state, tells the toolkit how to draw the text box, lends it
/// the text to edit and, once the toolkit has reported back, parses the text
/// again if it was edited.
pub struct ParsedTextField<'a, T> {
    state: &'a mut ParsedTextFieldState<T>,
}

impl<'a, T> ParsedTextField<'a, T> {
    /// The borrowed state: its value now, and under `final(..)` its value when
    /// the borrow ends.
    pub closed spec fn state(&self) -> &'a mut ParsedTextFieldState<T> {
        self.state
    }

    /// Borrows `state` for one frame.
    pub fn new(state: &'a mut ParsedTextFieldState<T>) -> (field: Self)
        ensures
            *field.state() == *old(state),
            *final(field.state()) == *final(state),
    {
        Self { state }
    }

    /// The colour to draw the text in: red after a failed parse, else white.
    pub fn text_color(&self) -> (color: TextColor)
        ensures
            color == self.state()@.text_color(),
    {
        if self.state.last_failed {
            TextColor::Red
        } else {
            TextColor::White
        }
    }

    /// The width the text box asks for, in whole points.
    pub fn width(&self) -> (width: u32)
        ensures
            width == self.state()@.desired_width,
    {
        self.state.desired_width
    }

    /// The hint to show while the text is empty.
    pub fn hint(&self) -> (hint: &str)
        ensures
            hint@ == self.state()@.hint_text,
    {
        self.state.hint_text.as_str()
    }

    /// Lends the text to the toolkit's text box. Whatever the text box leaves
    /// there becomes the field's text; nothing else changes.
    pub fn text_mut(&mut self) -> (text: &mut String)
        ensures
            text@ == old(self).state()@.text,
            final(self).state()@ == old(self).state()@.with_text(final(text)@),
            *final(final(self).state()) == *final(old(self).state()),
    {
        &mut self.state.text
    }

    /// Ends the frame. If the toolkit reported that the text `changed`, the
    /// text is handed to `parse`, once, and the outcome is recorded; otherwise
    /// the state is left as it is.
    pub fn reparse<E, F: FnOnce(&str) -> Result<T, E>>(self, changed: bool, parse: F)
        requires
            changed ==> accepts(parse, self.state()@.text),
        ensures
            !changed ==> *final(self.state()) == *self.state(),
            changed ==> exists|outcome: Result<T, E>|
                parses_to(parse, self.state()@.text, outcome) && final(self.state())@
                    == self.state()@.after_parse(outcome),
            changed ==> final(self.state())@.consistent(),
    {
        if changed {
            let outcome = parse(self.state.text.as_str());
            self.state.record_parse(outcome);
        }
    }
}

} // verus!
