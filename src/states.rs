//! What an agent knows at one point of a run: a description, the actions it
//! may choose from, and the action chosen with what it observed.

use vstd::prelude::*;
use crate::actions::{ActionBase, Observation};

verus! {

pub struct State {
    pub description: String,
    pub available_actions: Vec<ActionBase>,
    /// The position of the chosen action among the available ones.
    pub selected_action: Option<usize>,
    pub observation: Option<Observation>,
}

impl State {
    /// A state in which no action has been chosen yet.
    pub fn new(description: String, available_actions: Vec<ActionBase>) -> (r: State)
        ensures
            r.description == description,
            r.available_actions == available_actions,
            r.selected_action is None,
            r.observation is None,
    {
        State { description, available_actions, selected_action: None, observation: None }
    }
}

} // verus!
