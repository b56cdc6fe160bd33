use crate::gameplay_state::{GameView, GameplayState, spec_step};
use crate::input::Input;
use crate::menu_state::{MenuState, MenuView, spec_menu_new, spec_menu_step};
use crate::modifier::Modifier;
use vstd::prelude::*;

verus! {

/// The mathematical state of the facade: whichever machine is active.
pub ghost enum StateView {
    MenuState(MenuView),
    GameplayState(GameView),
}

impl StateView {
    /// The active machine's invariant.
    pub open spec fn wf(self) -> bool {
        match self {
            StateView::MenuState(m) => m.wf(),
            StateView::GameplayState(g) => g.wf(),
        }
    }
}

/// One frame of the whole game: the active machine steps, and the
/// facade becomes a gameplay state the moment the menu machine signals
/// the handoff.
pub open spec fn spec_state_step(s: StateView, input: Input) -> StateView {
    match s {
        StateView::GameplayState(g) => StateView::GameplayState(spec_step(g, input)),
        StateView::MenuState(m) => {
            let stepped = spec_menu_step(m, input);
            match stepped.1 {
                Some(g) => StateView::GameplayState(g),
                None => StateView::MenuState(stepped.0),
            }
        },
    }
}

/// Determinism of whole-game replays: stepping equal states with the
/// same input yields equal states, menu frames and gameplay frames
/// alike. Together with `step`'s contract this makes the replay of a
/// fixed input sequence from power-on bit-reproducible.
pub proof fn lemma_state_step_deterministic(s1: StateView, s2: StateView, input: Input)
    requires
        s1 == s2,
    ensures
        spec_state_step(s1, input) == spec_state_step(s2, input),
{
}

/// A general state of the game: a two-variant wrapper that forwards one
/// [`step`](State::step) call per frame to whichever machine is
/// currently active, transparently replacing itself when the menu
/// machine hands off to gameplay.
#[derive(Clone, Debug)]
pub enum State {
    MenuState(MenuState),
    GameplayState(GameplayState),
}

impl View for State {
    type V = StateView;

    open spec fn view(&self) -> StateView {
        match self {
            State::MenuState(m) => StateView::MenuState(m@),
            State::GameplayState(g) => StateView::GameplayState(g@),
        }
    }
}

impl State {
    /// The active machine's invariant, with its generator table.
    pub open spec fn wf(self) -> bool {
        match self {
            State::MenuState(m) => m.wf(),
            State::GameplayState(g) => g.wf(),
        }
    }

    /// Creates a state at power-on with the unmodified configuration.
    ///
    /// Equivalent to [`Self::new_with_modifier`] with
    /// [`Modifier::empty`].
    pub fn new() -> (r: Self)
        ensures
            r.wf(),
            r@ == StateView::MenuState(spec_menu_new(Modifier::spec_empty())),
    {
        State::MenuState(MenuState::new())
    }

    /// Creates a state at power-on, playing under the given
    /// configuration.
    pub fn new_with_modifier(modifier: Modifier) -> (r: Self)
        ensures
            r.wf(),
            r@ == StateView::MenuState(spec_menu_new(modifier)),
    {
        State::MenuState(MenuState::new_with_modifier(modifier))
    }

    /// Steps to the next state: one call is one simulated frame.
    pub fn step(&mut self, input: Input)
        requires
            old(self).wf(),
        ensures
            final(self).wf(),
            final(self)@ == spec_state_step(old(self)@, input),
    {
        let handoff = match self {
            State::GameplayState(gameplay_state) => {
                gameplay_state.step(input);
                None
            },
            State::MenuState(menu_state) => menu_state.step(input),
        };
        if let Some(gameplay_state) = handoff {
            *self = State::GameplayState(gameplay_state);
        }
    }
}

impl Default for State {
    fn default() -> (r: Self)
        ensures
            r.wf(),
            r@ == StateView::MenuState(spec_menu_new(Modifier::spec_empty())),
    {
        State::MenuState(MenuState::new_with_modifier(Modifier::empty()))
    }
}

} // verus!
