//! A small runner: its states and the actions that move it between them.

use vstd::prelude::*;

verus! {

/// The kinds of state of the runner.
#[derive(Clone, Copy, Debug, PartialEq, Eq, Structural)]
pub enum RunStateType {
    A,
    B,
    C,
}

impl RunStateType {
    /// The place of the kind among the kinds.
    pub fn index(&self) -> (r: usize)
        ensures
            r == match self {
                RunStateType::A => 0usize,
                RunStateType::B => 1usize,
                RunStateType::C => 2usize,
            },
    {
        match self {
            RunStateType::A => 0,
            RunStateType::B => 1,
            RunStateType::C => 2,
        }
    }
}

/// A state of the runner.
#[derive(Clone, Copy, Debug, PartialEq, Eq, Structural)]
pub struct RunState {
    pub run_state: RunStateType,
}

/// What an action does to the state: nothing, or a move to another state.
#[derive(Clone, Copy, Debug, PartialEq, Eq, Structural)]
pub enum StateAction {
    Nothing,
    To(RunState),
}

/// An action of the runner.
#[derive(Clone, Copy, Debug, PartialEq, Eq, Structural)]
pub struct RunnerAction {
    pub state_action: StateAction,
}

impl RunnerAction {
    pub fn create(state_action: StateAction) -> (r: Self)
        ensures
            r.state_action == state_action,
    {
        Self { state_action }
    }

    pub fn new(state_action: StateAction) -> (r: Self)
        ensures
            r.state_action == state_action,
    {
        Self { state_action }
    }
}

impl RunState {
    pub fn new(run_state: RunStateType) -> (r: Self)
        ensures
            r.run_state == run_state,
    {
        Self { run_state }
    }

    /// The state after an action: the state that the action names, or this
    /// one where it names none.
    pub fn state_act(&self, action: RunnerAction) -> (next: RunState)
        ensures
            next == match action.state_action {
                StateAction::Nothing => *self,
                StateAction::To(to) => to,
            },
    {
        match action.state_action {
            StateAction::Nothing => *self,
            StateAction::To(next) => next,
        }
    }

    /// The place of the kind of this state among the kinds.
    pub fn index(&self) -> (r: usize)
        ensures
            r == match self.run_state {
                RunStateType::A => 0usize,
                RunStateType::B => 1usize,
                RunStateType::C => 2usize,
            },
    {
        self.run_state.index()
    }
}

} // verus!
