//! The application state: a label string and a numeric value.
//!
//! The value is stored in fixed point, `VALUE_UNIT` units per 1.0 of the
//! slider's scale, so that the arithmetic on it can be verified exactly.
//! The slider edits it clamped to `[SLIDER_MIN, SLIDER_MAX]`; the increment
//! button adds a whole unit without any upper clamp.

use vstd::prelude::*;

verus! {

/// Fixed-point scale: this many stored units make 1.0 on the slider.
pub const VALUE_UNIT: i64 = 1000;

/// The value a fresh state starts with: 3.0 on the slider's scale.
pub const DEFAULT_VALUE: i64 = 3000;

/// Lower end of the slider's range: 0.0.
pub const SLIDER_MIN: i64 = 0;

/// Upper end of the slider's range: 10.0.
pub const SLIDER_MAX: i64 = 10000;

/// The mathematical content of a state: the label's characters and the
/// value as an unbounded integer.
pub ghost struct AppView {
    pub label: Seq<char>,
    pub value: int,
}

/// The state a fresh application starts with.
pub open spec fn default_view() -> AppView {
    AppView { label: "OpenDyslexic"@, value: DEFAULT_VALUE as int }
}

/// What the slider makes of a requested value: the nearest point of
/// `[SLIDER_MIN, SLIDER_MAX]`.
pub open spec fn clamp_value(v: int) -> int {
    if v < SLIDER_MIN as int {
        SLIDER_MIN as int
    } else if v > SLIDER_MAX as int {
        SLIDER_MAX as int
    } else {
        v
    }
}

/// The slider never leaves its range, wherever the value stood before.
pub proof fn lemma_slider_clamps(v: int)
    ensures
        SLIDER_MIN as int <= clamp_value(v) <= SLIDER_MAX as int,
{
}

/// The application state: a label and a fixed-point value.
pub struct TemplateApp {
    label: String,
    value: i64,
}

impl View for TemplateApp {
    type V = AppView;

    closed spec fn view(&self) -> AppView {
        AppView { label: self.label@, value: self.value as int }
    }
}

impl Default for TemplateApp {
    /// A fresh state: label "OpenDyslexic", value 3.0.
    fn default() -> (r: Self)
        ensures
            r@ == default_view(),
    {
        TemplateApp { label: "OpenDyslexic".to_owned(), value: DEFAULT_VALUE }
    }
}

impl TemplateApp {
    /// Assemble a state from its two fields.
    pub(crate) fn from_parts(label: String, value: i64) -> (r: Self)
        ensures
            r@.label == label@,
            r@.value == value as int,
    {
        TemplateApp { label, value }
    }

    /// The current label.
    pub fn label(&self) -> (r: &String)
        ensures
            r@ == self@.label,
    {
        &self.label
    }

    /// The current value, in fixed-point units.
    pub fn value(&self) -> (r: i64)
        ensures
            r as int == self@.value,
    {
        self.value
    }

    /// Replace the label with the entered text, exactly as typed.
    pub fn set_label(&mut self, text: String)
        ensures
            final(self)@.label == text@,
            final(self)@.value == old(self)@.value,
    {
        self.label = text;
    }

    /// Move the value where the slider was dragged, clamped to the
    /// slider's range.
    pub fn set_value(&mut self, v: i64)
        ensures
            final(self)@.value == clamp_value(v as int),
            final(self)@.label == old(self)@.label,
    {
        if v < SLIDER_MIN {
            self.value = SLIDER_MIN;
        } else if v > SLIDER_MAX {
            self.value = SLIDER_MAX;
        } else {
            self.value = v;
        }
    }

    /// The increment button: add 1.0 to the value, with no upper clamp.
    pub fn increment(&mut self)
        requires
            old(self)@.value + VALUE_UNIT as int <= i64::MAX as int,
        ensures
            final(self)@.value == old(self)@.value + VALUE_UNIT as int,
            final(self)@.label == old(self)@.label,
    {
        self.value = self.value + VALUE_UNIT;
    }
}

} // verus!
