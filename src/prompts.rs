//! The prompt templates of an agent, resolved before the agent is built.

use vstd::prelude::*;

verus! {

/// Templates for planning: the first plan, and the updates on later steps.
#[derive(Clone, Debug)]
pub struct Planning {
    pub initial_facts: String,
    pub initial_plan: String,
    pub update_facts_pre_messages: String,
    pub update_facts_post_messages: String,
    pub update_plan_pre_messages: String,
    pub update_plan_post_messages: String,
}

/// Templates for handing a task to a managed agent and for its report.
#[derive(Clone, Debug)]
pub struct ManagedAgent {
    pub task: String,
    pub report: String,
}

/// Templates around the final answer.
#[derive(Clone, Debug)]
pub struct FinalAnswer {
    pub pre_messages: String,
    pub post_messages: String,
}

/// All templates of an agent.
#[derive(Clone, Debug)]
pub struct Prompt {
    pub system_prompt: String,
    pub planning: Planning,
    pub managed_agent: ManagedAgent,
    pub final_answer: FinalAnswer,
}

} // verus!
