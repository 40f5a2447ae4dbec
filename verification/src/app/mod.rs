//! The state machine: the state, its model, and the reducer that computes
//! the next state and the effects to perform from the state and one action.

pub mod history;
pub mod laws;
pub mod model;
pub mod query;
pub mod reducer;
pub mod screen;
pub mod state;

pub use screen::{InputMode, View};
pub use state::{
    index_view, App, AppView, ConfirmAction, ConfirmActionView, ConnectionStatus, ConnectionStatusView,
    Effect, EffectView, LoadState, LoadStateView, OperationConfirm,
    OperationConfirmView, OperationTarget, OperationTargetView, Overlay, OverlayView,
    SearchQueries, SearchQueriesView,
};
