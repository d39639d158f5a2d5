//! The state store: sole owner of the canonical state, applying one action
//! at a time in arrival order.
use vstd::prelude::*;
use crate::laws::selections_valid;
use crate::reducer::reduce;
use crate::state::{AppView, IcebergView, TanicAction, TanicAppState, TanicUiState};

verus! {

/// Both axes of the state are exiting: nothing changes any more and the
/// store's loop ends.
pub open spec fn is_terminal(s: AppView) -> bool {
    s.iceberg is Exiting && s.ui is Exiting
}

/// Owner of the one mutable copy of the application state.
pub struct AppStateManager {
    state: TanicAppState,
}

impl View for AppStateManager {
    type V = AppView;

    closed spec fn view(&self) -> AppView {
        self.state@
    }
}

impl AppStateManager {
    /// A store holding the starting state: no connection, splash screen.
    pub fn new() -> (r: Self)
        ensures
            r@ == (AppView { iceberg: IcebergView::Initializing, ui: TanicUiState::SplashScreen }),
            selections_valid(r@),
    {
        AppStateManager { state: TanicAppState::initial() }
    }

    /// The current state, to be copied out as a read-only snapshot.
    pub fn get_state(&self) -> (r: &TanicAppState)
        ensures
            r@ == self@,
    {
        &self.state
    }

    /// Whether the store still takes actions.
    pub fn is_running(&self) -> (r: bool)
        ensures
            r == !is_terminal(self@),
    {
        let exiting = match self.state.iceberg {
            crate::state::TanicIcebergState::Exiting => true,
            _ => false,
        };
        let ui_exiting = match self.state.ui {
            TanicUiState::Exiting => true,
            _ => false,
        };
        !(exiting && ui_exiting)
    }

    /// Applies one action, and tells whether the store still takes actions.
    pub fn apply(&mut self, action: TanicAction) -> (running: bool)
        ensures
            final(self)@ == reduce(old(self)@, action),
            running == !is_terminal(final(self)@),
            selections_valid(old(self)@) ==> selections_valid(final(self)@),
    {
        let mut current = TanicAppState::initial();
        std::mem::swap(&mut self.state, &mut current);
        self.state = current.update(action);
        self.is_running()
    }
}

} // verus!
