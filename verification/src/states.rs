//! The stack of states that an application is in.
//!
//! Examples of states are the main menu, the game itself, or the pause
//! menu that is pushed on top of the game. The state on top runs until it
//! asks for a transition.

use vstd::prelude::*;

verus! {

/// A transition requested by a state.
pub enum StateTransition<S> {
    /// Stay on this state.
    Continue,
    /// End this state and pop it from the stack.
    End,
    /// Pop this state and replace it with this new state.
    Replace(S),
    /// Keep this state, but pause it and push the state on top of the stack.
    Push(S),
    /// Quit the application completely.
    Quit,
}

/// The stack after the state on top of `states` has asked for
/// `transition`.
pub open spec fn stack_after<S>(states: Seq<S>, transition: StateTransition<S>) -> Seq<S> {
    match transition {
        StateTransition::Continue | StateTransition::Quit => states,
        StateTransition::End => states.drop_last(),
        StateTransition::Replace(state) => states.drop_last().push(state),
        StateTransition::Push(state) => states.push(state),
    }
}

/// Whether the state on top of `states` can have asked for `transition`
/// when it stopped running: a state that stays does not stop, and only a
/// state that is there can end or be replaced.
pub open spec fn can_follow<S>(states: Seq<S>, transition: StateTransition<S>) -> bool {
    match transition {
        StateTransition::Continue => false,
        StateTransition::End | StateTransition::Replace(_) => states.len() > 0,
        StateTransition::Push(_) | StateTransition::Quit => true,
    }
}

/// Carries out the transition that the state on top asked for when it
/// stopped running. The answer says whether the application goes on.
pub fn apply_transition<S>(states: &mut Vec<S>, transition: StateTransition<S>) -> (go_on: bool)
    requires
        can_follow(old(states)@, transition),
    ensures
        final(states)@ == stack_after(old(states)@, transition),
        go_on == !(transition is Quit),
{
    match transition {
        StateTransition::Continue => true,
        StateTransition::End => {
            let _previous = states.pop();
            true
        },
        StateTransition::Replace(state) => {
            let _previous = states.pop();
            states.push(state);
            true
        },
        StateTransition::Push(state) => {
            states.push(state);
            true
        },
        StateTransition::Quit => false,
    }
}

} // verus!
