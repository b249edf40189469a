//! Editable text fields of the dialogs and pages.
use crate::text::{all_digits, is_ascii_digit, is_digit, parse_u32, parse_u32_spec, string_pop, string_push, to_owned_string};
use vstd::prelude::*;

verus! {

/// Which characters a text field takes.
#[derive(Clone, Copy, Debug, Default, PartialEq, Eq, Structural)]
pub enum InputConstraint {
    #[default]
    Any,
    Ascii,
    Numeric,
}

impl InputConstraint {
    pub open spec fn allows(self, c: char) -> bool {
        match self {
            InputConstraint::Any => true,
            InputConstraint::Ascii => (c as u32) < 128,
            InputConstraint::Numeric => is_digit(c),
        }
    }
}

/// The text after typing `c` into a field with constraint `k`.
pub open spec fn after_push(t: Seq<char>, k: InputConstraint, c: char) -> Seq<char> {
    if k.allows(c) {
        t.push(c)
    } else {
        t
    }
}

/// The text after erasing its last character.
pub open spec fn after_backspace(t: Seq<char>) -> Seq<char> {
    if t.len() == 0 {
        t
    } else {
        t.drop_last()
    }
}

/// A single-line text field.
#[derive(Clone, Debug, Default)]
pub struct TextInput {
    value: String,
    constraint: InputConstraint,
}

impl TextInput {
    /// The text the field holds.
    pub closed spec fn text(&self) -> Seq<char> {
        self.value@
    }

    pub closed spec fn constraint_of(&self) -> InputConstraint {
        self.constraint
    }

    /// `next` is this field with its text replaced by `t`.
    pub open spec fn edited(self, next: TextInput, t: Seq<char>) -> bool {
        next.text() == t && next.constraint_of() == self.constraint_of()
    }

    /// An empty field with the given constraint.
    pub open spec fn is_new(self, k: InputConstraint) -> bool {
        self.text() == Seq::<char>::empty() && self.constraint_of() == k
    }

    /// An empty field that takes the characters the constraint allows.
    pub fn new(constraint: InputConstraint) -> (r: TextInput)
        ensures
            r.is_new(constraint),
    {
        TextInput { value: String::new(), constraint }
    }

    /// Whether the field takes the character.
    pub fn accepts(&self, c: char) -> (r: bool)
        ensures
            r == self.constraint_of().allows(c),
    {
        match self.constraint {
            InputConstraint::Any => true,
            InputConstraint::Ascii => (c as u32) < 128,
            InputConstraint::Numeric => is_ascii_digit(c),
        }
    }

    /// Appends the character if the field takes it; otherwise leaves the
    /// field as it is.
    pub fn push(&mut self, c: char)
        ensures
            old(self).edited(
                *final(self),
                after_push(old(self).text(), old(self).constraint_of(), c),
            ),
    {
        if self.accepts(c) {
            string_push(&mut self.value, c);
        }
    }

    /// Removes the last character, if there is one.
    pub fn backspace(&mut self)
        ensures
            old(self).edited(*final(self), after_backspace(old(self).text())),
    {
        let _ = string_pop(&mut self.value);
    }

    /// Empties the field.
    pub fn clear(&mut self)
        ensures
            final(self).constraint_of() == old(self).constraint_of(),
            final(self).text() == Seq::<char>::empty(),
    {
        self.value = String::new();
    }

    /// Replaces the text of the field.
    pub fn set_value(&mut self, value: &str)
        ensures
            final(self).constraint_of() == old(self).constraint_of(),
            final(self).text() == value@,
    {
        self.value = to_owned_string(value);
    }

    pub fn as_str(&self) -> (r: &str)
        ensures
            r@ == self.text(),
    {
        self.value.as_str()
    }

    /// The text read as a `u32`, as std's `str::parse` reads it.
    pub fn value(&self) -> (r: Option<u32>)
        ensures
            r == parse_u32_spec(self.text()),
    {
        parse_u32(self.value.as_str())
    }

    pub fn is_empty(&self) -> (r: bool)
        ensures
            r == (self.text().len() == 0),
    {
        let v = crate::text::chars_of(self.value.as_str());
        v.len() == 0
    }
}

/// Typing a character that the field takes and then erasing it leaves the
/// field as it was.
pub proof fn push_then_backspace_restores(before: TextInput, pushed: TextInput, after: TextInput, c: char)
    requires
        before.constraint_of().allows(c),
        before.edited(pushed, after_push(before.text(), before.constraint_of(), c)),
        pushed.edited(after, after_backspace(pushed.text())),
    ensures
        after.text() == before.text(),
        after.constraint_of() == before.constraint_of(),
{
    assert(before.text().push(c).drop_last() =~= before.text());
}

/// A field that holds decimal digits only.
#[derive(Clone, Debug, Default)]
pub struct NumericInput {
    value: String,
}

impl NumericInput {
    pub closed spec fn text(&self) -> Seq<char> {
        self.value@
    }

    /// Every character of the field is a decimal digit.
    pub open spec fn wf(&self) -> bool {
        all_digits(self.text())
    }

    pub fn new() -> (r: NumericInput)
        ensures
            r.text() == Seq::<char>::empty(),
            r.wf(),
    {
        NumericInput { value: String::new() }
    }

    /// Appends the character if it is a decimal digit.
    pub fn push(&mut self, c: char)
        requires
            old(self).wf(),
        ensures
            final(self).wf(),
            final(self).text() == (if is_digit(c) {
                old(self).text().push(c)
            } else {
                old(self).text()
            }),
    {
        if is_ascii_digit(c) {
            string_push(&mut self.value, c);
        }
    }

    pub fn backspace(&mut self)
        requires
            old(self).wf(),
        ensures
            final(self).wf(),
            final(self).text() == (if old(self).text().len() == 0 {
                old(self).text()
            } else {
                old(self).text().drop_last()
            }),
    {
        let _ = string_pop(&mut self.value);
    }

    pub fn clear(&mut self)
        ensures
            final(self).wf(),
            final(self).text() == Seq::<char>::empty(),
    {
        self.value = String::new();
    }

    pub fn as_str(&self) -> (r: &str)
        ensures
            r@ == self.text(),
    {
        self.value.as_str()
    }

    /// The digits read as a `u32`; `None` when empty or too large.
    pub fn value(&self) -> (r: Option<u32>)
        ensures
            r == parse_u32_spec(self.text()),
    {
        parse_u32(self.value.as_str())
    }

    pub fn is_empty(&self) -> (r: bool)
        ensures
            r == (self.text().len() == 0),
    {
        let v = crate::text::chars_of(self.value.as_str());
        v.len() == 0
    }
}

} // verus!
