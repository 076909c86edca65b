use agentic::actions::{ActionBase, Parameter};
use agentic::agents::{generation_messages, Agent, Outcome, Phase};
use agentic::memory::{Step, ToolCall};
use agentic::prompts::{FinalAnswer, ManagedAgent, Planning, Prompt};
use agentic::records::Role;

fn prompt() -> Prompt {
    Prompt {
        system_prompt: "You are helpful.".to_string(),
        planning: Planning {
            initial_facts: "facts".to_string(),
            initial_plan: "Plan for {task} using:\n{tools}{managed_agents}".to_string(),
            update_facts_pre_messages: "".to_string(),
            update_facts_post_messages: "".to_string(),
            update_plan_pre_messages: "Update the plan.".to_string(),
            update_plan_post_messages: "Task again: {task}".to_string(),
        },
        managed_agent: ManagedAgent { task: "".to_string(), report: "".to_string() },
        final_answer: FinalAnswer { pre_messages: "".to_string(), post_messages: "".to_string() },
    }
}

fn echo_action() -> ActionBase {
    ActionBase {
        name: "Echo".to_string(),
        description: "Repeats".to_string(),
        parameters: vec![Parameter {
            name: "text".to_string(),
            dtype: "String".to_string(),
            description: "what".to_string(),
        }],
        output_type: "String".to_string(),
    }
}

#[test]
fn end_to_end_single_step() {
    let agent = Agent::new(1, prompt(), vec![], true);
    let mut run = agent.start("What is 2+2?".to_string(), vec![]);
    let mut out = String::new();
    let replies = ["PLAN", "4"];
    let mut calls = 0;
    let mut now: i32 = 0;
    while let Some(_messages) = run.begin_call(&agent, now) {
        out.push_str(&run.receive(replies[calls]));
        now += 1;
        run.end_call(now);
        calls += 1;
    }
    assert_eq!(out, "PLAN4");
    assert_eq!(run.phase, Phase::Finished(Outcome::MaxStepsReached));
    assert_eq!(run.memory.system_prompt.system_prompt, "You are helpful.");
    assert_eq!(run.memory.steps.len(), 3);
    assert!(matches!(&run.memory.steps[0], Step::Task(t) if t.task == "What is 2+2?"));
    assert!(matches!(&run.memory.steps[1], Step::Planning(p) if p.plan == "PLAN"));
    assert!(matches!(&run.memory.steps[2], Step::Action(a) if a.model_output.as_deref() == Some("4") && a.step_number == 1));
}

#[test]
fn interrupt_after_first_step_stops_before_second() {
    let agent = Agent::new(3, prompt(), vec![], false);
    let mut run = agent.start("task".to_string(), vec![]);
    assert!(run.begin_call(&agent, 0).is_some());
    run.receive("plan one");
    run.end_call(1);
    assert!(run.begin_call(&agent, 1).is_some());
    run.receive("answer one");
    run.interrupt();
    run.end_call(2);
    assert_eq!(run.phase, Phase::Finished(Outcome::Cancelled));
    assert!(run.begin_call(&agent, 3).is_none());
    assert_eq!(run.memory.steps.len(), 3);
    assert!(!run.memory.steps.iter().any(|s| matches!(s, Step::Action(a) if a.step_number == 2)));
}

#[test]
fn interrupt_at_step_boundary_cancels_before_planning() {
    let agent = Agent::new(3, prompt(), vec![], false);
    let mut run = agent.start("task".to_string(), vec![]);
    for chunk in ["p", "g"] {
        run.begin_call(&agent, 0).unwrap();
        run.receive(chunk);
        run.end_call(1);
    }
    assert_eq!(run.phase, Phase::Planning);
    assert_eq!(run.step_number, 2);
    run.interrupt();
    assert!(run.begin_call(&agent, 2).is_none());
    assert_eq!(run.phase, Phase::Finished(Outcome::Cancelled));
    assert_eq!(run.memory.steps.len(), 3);
}

#[test]
fn zero_steps_finish_at_once() {
    let agent = Agent::new(0, prompt(), vec![], false);
    let mut run = agent.start("task".to_string(), vec!["img".to_string()]);
    assert_eq!(run.phase, Phase::Finished(Outcome::MaxStepsReached));
    assert!(run.begin_call(&agent, 0).is_none());
    assert!(matches!(&run.memory.steps[0], Step::Task(t) if t.task_images == Some(vec!["img".to_string()])));
}

#[test]
fn planning_prompts_fill_templates() {
    let agent = Agent::new(2, prompt(), vec![echo_action()], true);
    let mut run = agent.start("sum".to_string(), vec![]);
    let first = run.begin_call(&agent, 0).unwrap();
    assert_eq!(first.len(), 1);
    assert_eq!(first[0].role, Role::User);
    assert_eq!(
        first[0].content,
        "Plan for sum using:\n- Echo: Repeats\n\tTakes inputs: [text: { type: String, description: what }]\n\tReturns an output of type: String"
    );
    run.receive("first plan");
    run.end_call(1);
    let generation = run.begin_call(&agent, 1).unwrap();
    assert_eq!(generation[0].role, Role::System);
    assert_eq!(
        generation[0].content,
        "Here are the facts I know and the plan of action that I will follow to solve the task:\n```\nfirst plan\n```"
    );
    assert_eq!(generation[1].content, "sum");
    run.receive("G1");
    run.end_call(2);
    let second = run.begin_call(&agent, 2).unwrap();
    assert_eq!(second[0].role, Role::System);
    assert_eq!(second[0].content, "Update the plan.");
    assert_eq!(second.last().unwrap().content, "Task again: sum");
    assert_eq!(second[1].content, "New task:\nsum");
}

#[test]
fn generation_messages_wrap_plan() {
    let ms = generation_messages("X", "T");
    assert_eq!(ms.len(), 2);
    assert_eq!(ms[1].role, Role::User);
    assert_eq!(ms[1].content, "T");
}

#[test]
fn failed_call_yields_empty_chunk_and_continues() {
    let agent = Agent::new(1, prompt(), vec![], true);
    let mut run = agent.start("task".to_string(), vec![]);
    run.begin_call(&agent, 0).unwrap();
    assert_eq!(run.call_failed(1), "");
    assert_eq!(run.phase, Phase::Generating);
    assert!(matches!(&run.memory.steps[1], Step::Planning(p) if p.plan.is_empty()));
}

#[test]
fn tool_calls_resolve_and_record_outcomes() {
    let agent = Agent::new(1, prompt(), vec![echo_action()], true);
    let known = ToolCall {
        id: "1".to_string(),
        name: "Echo".to_string(),
        arguments: vec![("text".to_string(), "hello".to_string()), ("other".to_string(), "x".to_string())],
    };
    let unknown = ToolCall { id: "2".to_string(), name: "Nope".to_string(), arguments: vec![] };
    let (index, inputs) = agent.resolve(&known).unwrap();
    assert_eq!(index, 0);
    assert_eq!(inputs.len(), 1);
    assert_eq!(inputs[0].1.value, "hello");
    let err = agent.resolve(&unknown).unwrap_err();
    assert_eq!(err, "Unknown action: Nope");

    let mut run = agent.start("task".to_string(), vec![]);
    run.begin_call(&agent, 0).unwrap();
    run.end_call(1);
    run.begin_call(&agent, 1).unwrap();
    run.receive("calling");
    run.end_call_with_tools(2, vec![known, unknown], vec![Ok("hello".to_string()), Err(err)]);
    match &run.memory.steps[2] {
        Step::Action(a) => {
            assert_eq!(a.tool_calls.as_ref().map(|c| c.len()), Some(2));
            assert_eq!(a.observations.as_deref(), Some("hello"));
            assert_eq!(a.error.as_deref(), Some("Unknown action: Nope"));
            assert_eq!(a.model_output.as_deref(), Some("calling"));
        }
        _ => panic!("expected an action step"),
    }
}

#[test]
fn template_substitution_is_literal_and_repeated() {
    let mut p = prompt();
    p.planning.initial_plan = "{task}|{task}|{tools}|{missing}|{managed_agents}".to_string();
    let agent = Agent::new(1, p, vec![], true);
    let mut run = agent.start("T".to_string(), vec![]);
    let ms = run.begin_call(&agent, 0).unwrap();
    assert_eq!(ms[0].content, "T|T||{missing}|");
}

#[test]
fn duplicate_action_names_are_a_configuration_fault() {
    let err = Agent::try_new(1, prompt(), vec![echo_action(), echo_action()], true);
    match err {
        Err(agentic::agents::ConfigurationError::DuplicateActionName(n)) => assert_eq!(n, "Echo"),
        Ok(_) => panic!("duplicate names accepted"),
    }
    let mut other = echo_action();
    other.name = "Other".to_string();
    let ok = Agent::try_new(2, prompt(), vec![echo_action(), other], false).ok().unwrap();
    assert_eq!(ok.max_steps, 2);
    assert_eq!(ok.available_actions.len(), 2);
}

#[test]
fn state_starts_without_a_choice() {
    let s = agentic::states::State::new("start".to_string(), vec![echo_action()]);
    assert_eq!(s.description, "start");
    assert_eq!(s.available_actions.len(), 1);
    assert!(s.selected_action.is_none());
    assert!(s.observation.is_none());
}
