//! The in-memory record of UI state and its mathematical model.

use crate::theme::Theme;
use vstd::prelude::*;

verus! {

/// The IEEE-754 single-precision bit pattern of one hundred.
///
/// For non-negative single-precision values, numeric order agrees with
/// bit-pattern order, so a non-negative slider position lies between zero
/// and one hundred exactly when its bit pattern is at most this constant.
pub const SLIDER_MAX_BITS: u32 = 0x42C8_0000;

/// Whether `bits` encodes a slider position between zero and one hundred.
pub open spec fn slider_in_range(bits: u32) -> bool {
    bits <= SLIDER_MAX_BITS
}

/// The record of UI state, constructed once at application start and
/// mutated field-by-field, exclusively by the reducer.
///
/// The slider position is a single-precision float in the runtime; the
/// controller never computes with it, only stores it, so it is held here
/// bit-for-bit as its IEEE-754 bit pattern.  The UI runtime converts at
/// the boundary and guarantees that the position stays between zero and
/// one hundred; the controller does not re-clamp.
pub struct ApplicationState {
    /// The selected visual theme.
    pub theme: Theme,
    /// Arbitrary user-entered text.
    pub text_value: String,
    /// The user-entered name.
    pub username: String,
    /// The slider position, as the bit pattern of a single-precision float.
    pub slider_bits: u32,
    /// Whether the checkbox is checked.
    pub checkbox_value: bool,
    /// Whether the toggler is on.
    pub toggler_value: bool,
}

/// The mathematical model of [`ApplicationState`]: the same record over
/// `Seq<char>` in place of `String`.
#[verifier::ext_equal]
pub struct StateView {
    pub theme: Theme,
    pub text_value: Seq<char>,
    pub username: Seq<char>,
    pub slider_bits: u32,
    pub checkbox_value: bool,
    pub toggler_value: bool,
}

impl View for ApplicationState {
    type V = StateView;

    open spec fn view(&self) -> StateView {
        StateView {
            theme: self.theme,
            text_value: self.text_value@,
            username: self.username@,
            slider_bits: self.slider_bits,
            checkbox_value: self.checkbox_value,
            toggler_value: self.toggler_value,
        }
    }
}

impl StateView {
    /// The all-default state: default theme, empty text fields, slider at
    /// zero, checkbox and toggler off.
    pub open spec fn initial() -> StateView {
        StateView {
            theme: Theme::Light,
            text_value: Seq::empty(),
            username: Seq::empty(),
            slider_bits: 0,
            checkbox_value: false,
            toggler_value: false,
        }
    }

    /// The state invariant: the slider position encodes a value between
    /// zero and one hundred.  (That the theme is one of the supported
    /// variants is already forced by the type.)
    pub open spec fn wf(self) -> bool {
        slider_in_range(self.slider_bits)
    }
}

/// Returns the all-default state.  No side effects beyond allocation;
/// never fails.
pub fn initialize() -> (s: ApplicationState)
    ensures
        s@ == StateView::initial(),
        s@.wf(),
{
    let s = ApplicationState {
        theme: Theme::Light,
        text_value: String::new(),
        username: String::new(),
        slider_bits: 0,
        checkbox_value: false,
        toggler_value: false,
    };
    proof {
        assert(s@ =~= StateView::initial());
    }
    s
}

impl Default for ApplicationState {
    /// The all-default state, as [`initialize`] returns it.
    fn default() -> (s: ApplicationState)
        ensures
            s@ == StateView::initial(),
    {
        initialize()
    }
}

impl ApplicationState {
    /// The window title shown by the runtime.
    pub fn title(&self) -> (r: String)
        ensures
            r@ == "Awesome Iced Demo"@,
    {
        String::from_str("Awesome Iced Demo")
    }

    /// The selected theme, read by the runtime after each reduction.
    pub fn current_theme(&self) -> (t: Theme)
        ensures
            t == self@.theme,
    {
        self.theme
    }
}

} // verus!
