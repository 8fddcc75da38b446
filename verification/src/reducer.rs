//! The event taxonomy and the pure reducer that applies an event to the
//! state record.

use crate::state::ApplicationState;
use crate::state::StateView;
use crate::state::slider_in_range;
use crate::theme::Theme;
use vstd::prelude::*;

verus! {

/// One user-observable interaction, constructed by the UI runtime at the
/// moment of interaction and consumed exactly once by the reducer.
///
/// The event set is closed: every variant maps to a defined,
/// always-succeeding mutation, and the reducer has no failure mode.
pub enum Event {
    /// The user picked a theme.
    ThemeChanged(Theme),
    /// The user edited the free-text input.
    TextChanged(String),
    /// The user edited the name input.
    UsernameChanged(String),
    /// The user dragged the slider; the payload is the new position as
    /// the bit pattern of a single-precision float.
    SliderChanged(u32),
    /// The user checked or unchecked the checkbox; the payload is the
    /// new absolute value, not a delta.
    CheckboxToggled(bool),
    /// The user flipped the toggler; the payload is the new absolute value.
    TogglerToggled(bool),
    /// The user pressed the button; explicitly a no-op.
    ButtonPressed,
}

/// The mathematical model of [`Event`], over `Seq<char>` in place of
/// `String`.
pub enum EventView {
    ThemeChanged(Theme),
    TextChanged(Seq<char>),
    UsernameChanged(Seq<char>),
    SliderChanged(u32),
    CheckboxToggled(bool),
    TogglerToggled(bool),
    ButtonPressed,
}

impl View for Event {
    type V = EventView;

    open spec fn view(&self) -> EventView {
        match self {
            Event::ThemeChanged(t) => EventView::ThemeChanged(*t),
            Event::TextChanged(s) => EventView::TextChanged(s@),
            Event::UsernameChanged(s) => EventView::UsernameChanged(s@),
            Event::SliderChanged(v) => EventView::SliderChanged(*v),
            Event::CheckboxToggled(b) => EventView::CheckboxToggled(*b),
            Event::TogglerToggled(b) => EventView::TogglerToggled(*b),
            Event::ButtonPressed => EventView::ButtonPressed,
        }
    }
}

impl EventView {
    /// What the UI runtime guarantees of every event it constructs: a
    /// slider position stays between zero and one hundred.  (That a theme
    /// is one of the supported variants is already forced by the type.)
    pub open spec fn wf(self) -> bool {
        self matches EventView::SliderChanged(v) ==> slider_in_range(v)
    }
}

/// The per-event effect on the state record: each event overwrites
/// exactly one field with its payload, and the button press changes
/// nothing.
pub open spec fn spec_reduce(s: StateView, e: EventView) -> StateView {
    match e {
        EventView::ThemeChanged(t) => StateView { theme: t, ..s },
        EventView::TextChanged(x) => StateView { text_value: x, ..s },
        EventView::UsernameChanged(x) => StateView { username: x, ..s },
        EventView::SliderChanged(v) => StateView { slider_bits: v, ..s },
        EventView::CheckboxToggled(b) => StateView { checkbox_value: b, ..s },
        EventView::TogglerToggled(b) => StateView { toggler_value: b, ..s },
        EventView::ButtonPressed => s,
    }
}

/// Applies `event` to `state` in place.
///
/// A deterministic, total function: the new state is exactly
/// [`spec_reduce`] of the old state and the event, for every event and
/// every state, with no failure mode and no other side effect.
pub fn reduce(state: &mut ApplicationState, event: Event)
    ensures
        final(state)@ == spec_reduce(old(state)@, event@),
{
    match event {
        Event::ThemeChanged(t) => state.theme = t,
        Event::TextChanged(s) => state.text_value = s,
        Event::UsernameChanged(s) => state.username = s,
        Event::SliderChanged(v) => state.slider_bits = v,
        Event::CheckboxToggled(b) => state.checkbox_value = b,
        Event::TogglerToggled(b) => state.toggler_value = b,
        Event::ButtonPressed => (),
    }
    proof {
        assert(state@ =~= spec_reduce(old(state)@, event@));
    }
}

/// The reducer is deterministic: two reductions of identical state and
/// event yield identical resulting states.  Together with the
/// postcondition of [`reduce`], which pins the new state to
/// [`spec_reduce`] of the old one, this makes any two calls of `reduce`
/// on identical inputs agree.
pub proof fn lemma_reduce_deterministic(s: StateView, e: EventView, r1: StateView, r2: StateView)
    requires
        r1 == spec_reduce(s, e),
        r2 == spec_reduce(s, e),
    ensures
        r1 == r2,
{
}

/// The button press is an exact no-op: the resulting state equals the old
/// one, field for field.
pub proof fn lemma_button_pressed_is_noop(s: StateView)
    ensures
        spec_reduce(s, EventView::ButtonPressed) == s,
{
}

/// Picking a theme sets the theme field to the picked value and leaves
/// every other field unchanged.
pub proof fn lemma_theme_changed_sets_only_theme(s: StateView, t: Theme)
    ensures
        ({
            let r = spec_reduce(s, EventView::ThemeChanged(t));
            &&& r.theme == t
            &&& r.text_value == s.text_value
            &&& r.username == s.username
            &&& r.slider_bits == s.slider_bits
            &&& r.checkbox_value == s.checkbox_value
            &&& r.toggler_value == s.toggler_value
        }),
{
}

/// Dragging the slider to a position between zero and one hundred sets
/// the slider field to that position and leaves every other field
/// unchanged.
pub proof fn lemma_slider_changed_sets_only_slider(s: StateView, v: u32)
    requires
        slider_in_range(v),
    ensures
        ({
            let r = spec_reduce(s, EventView::SliderChanged(v));
            &&& r.slider_bits == v
            &&& r.theme == s.theme
            &&& r.text_value == s.text_value
            &&& r.username == s.username
            &&& r.checkbox_value == s.checkbox_value
            &&& r.toggler_value == s.toggler_value
        }),
{
}

/// Checking the checkbox is idempotent: the payload is the new absolute
/// value, not a delta, so applying the same event twice yields that value
/// both times, and the second application changes nothing at all.
pub proof fn lemma_checkbox_toggled_idempotent(s: StateView, b: bool)
    ensures
        ({
            let once = spec_reduce(s, EventView::CheckboxToggled(b));
            let twice = spec_reduce(once, EventView::CheckboxToggled(b));
            &&& once.checkbox_value == b
            &&& twice.checkbox_value == b
            &&& twice == once
        }),
{
    let once = spec_reduce(s, EventView::CheckboxToggled(b));
    let twice = spec_reduce(once, EventView::CheckboxToggled(b));
    assert(twice =~= once);
}

/// Reduction preserves the state invariant: from a well-formed state,
/// any event that the UI runtime can construct leads again to a
/// well-formed state.
pub proof fn lemma_reduce_preserves_wf(s: StateView, e: EventView)
    requires
        s.wf(),
        e.wf(),
    ensures
        spec_reduce(s, e).wf(),
{
}

} // verus!
