//! Application state controller for a single-screen widget showcase.
//!
//! The library owns the in-memory record of UI state and the pure reducer
//! that maps each user-interaction event to a state mutation.  The UI
//! runtime around it (window creation, layout, rendering, and turning raw
//! input into typed events) is an outside collaborator: it calls
//! [`reducer::reduce`] once per interaction and re-renders from the
//! mutated [`state::ApplicationState`].

pub mod reducer;
pub mod state;
pub mod theme;

pub use reducer::Event;
pub use reducer::EventView;
pub use reducer::reduce;
pub use state::ApplicationState;
pub use state::StateView;
pub use state::initialize;
pub use theme::Theme;
