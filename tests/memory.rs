use agentic::memory::{
    ActionStep, AgentMemory, CallbackRegistry, FinalAnswerStep, PlanningStep, Step, StepKind,
    SystemPromptStep, TaskStep, Timing, TokenUsage, ToolCall,
};
use agentic::records::{FieldValue, Message, Role};

fn action(step_number: usize, code: Option<&str>) -> ActionStep {
    ActionStep {
        step_number,
        timing: Timing { start_time: 1, end_time: 4 },
        model_input_messages: Some(vec![Message { role: Role::User, content: "hi".to_string() }]),
        tool_calls: None,
        error: None,
        model_output_message: None,
        model_output: None,
        code_action: code.map(|c| c.to_string()),
        observations: None,
        observations_images: None,
        action_output: None,
        token_usage: None,
        is_final_answer: false,
    }
}

fn planning(plan: &str) -> PlanningStep {
    PlanningStep {
        model_input_messages: vec![Message { role: Role::User, content: "plan please".to_string() }],
        model_output_message: None,
        plan: plan.to_string(),
        timing: Timing { start_time: 0, end_time: 2 },
        token_usage: Some(TokenUsage { prompt_tokens: 3, completion_tokens: 4, total_tokens: 7 }),
    }
}

fn task(text: &str) -> TaskStep {
    TaskStep { task: text.to_string(), task_images: None }
}

fn keys(r: &Vec<(String, FieldValue)>) -> Vec<String> {
    r.iter().map(|e| e.0.clone()).collect()
}

#[test]
fn full_code_joins_code_actions_in_order() {
    let mut m = AgentMemory::new("sys".to_string());
    m.append(Step::Task(task("t")));
    m.append(Step::Action(action(1, Some("a"))));
    m.append(Step::Planning(planning("p")));
    m.append(Step::Action(action(2, None)));
    m.append(Step::Action(action(3, Some("b"))));
    assert_eq!(m.return_full_code(), "a\n\nb");
}

#[test]
fn full_code_of_log_without_code_is_empty() {
    let mut m = AgentMemory::new("sys".to_string());
    assert_eq!(m.return_full_code(), "");
    m.append(Step::Task(task("t")));
    assert_eq!(m.return_full_code(), "");
}

#[test]
fn full_steps_of_empty_memory_is_empty() {
    let m = AgentMemory::new("sys".to_string());
    assert!(m.get_full_steps().is_empty());
    assert!(m.get_succinct_steps().is_empty());
}

#[test]
fn full_steps_has_one_record_per_step() {
    let mut m = AgentMemory::new("sys".to_string());
    m.append(Step::Task(task("t")));
    m.append(Step::Planning(planning("p")));
    m.append(Step::Action(action(1, None)));
    assert_eq!(m.get_full_steps().len(), 3);
    assert_eq!(m.get_succinct_steps().len(), 3);
}

#[test]
fn succinct_steps_drop_input_messages() {
    let mut m = AgentMemory::new("sys".to_string());
    m.append(Step::Task(task("t")));
    m.append(Step::Planning(planning("p")));
    m.append(Step::Action(action(1, None)));
    let full = m.get_full_steps();
    let succinct = m.get_succinct_steps();
    for r in &succinct {
        assert!(!keys(r).contains(&"model_input_messages".to_string()));
    }
    assert!(keys(&full[1]).contains(&"model_input_messages".to_string()));
    assert!(keys(&full[2]).contains(&"model_input_messages".to_string()));
    assert_eq!(keys(&full[2]).len(), 13);
    assert_eq!(keys(&succinct[2]).len(), 12);
    assert_eq!(keys(&full[0]), vec!["task".to_string(), "task_images".to_string()]);
}

#[test]
fn action_record_fields() {
    let r = action(5, Some("x = 1")).to_record();
    assert_eq!(r[0].0, "step_number");
    assert!(matches!(r[0].1, FieldValue::Number(5)));
    match &r[1].1 {
        FieldValue::Object(fs) => {
            assert!(matches!(fs[2].1, FieldValue::Number(3)));
            assert_eq!(fs[2].0, "duration");
        }
        _ => panic!("timing is not an object"),
    }
    assert_eq!(r[7].0, "code_action");
    assert!(matches!(&r[7].1, FieldValue::Text(t) if t == "x = 1"));
    assert!(matches!(r[4].1, FieldValue::Null));
    assert!(matches!(r[12].1, FieldValue::Bool(false)));
}

#[test]
fn planning_record_holds_usage() {
    let r = planning("p").to_record();
    assert_eq!(r[4].0, "token_usage");
    match &r[4].1 {
        FieldValue::Object(fs) => assert!(matches!(fs[2].1, FieldValue::Number(7))),
        _ => panic!("usage is not an object"),
    }
}

#[test]
fn timing_duration_and_validity() {
    let t = Timing { start_time: 10, end_time: 25 };
    assert_eq!(t.duration(), 15);
    assert!(t.is_valid());
    let bad = Timing { start_time: 25, end_time: 10 };
    assert_eq!(bad.duration(), -15);
    assert!(!bad.is_valid());
    let wide = Timing { start_time: i32::MIN, end_time: i32::MAX };
    assert_eq!(wide.duration(), u32::MAX as i64);
}

#[test]
fn token_usage_consistency() {
    assert!(TokenUsage { prompt_tokens: 3, completion_tokens: 4, total_tokens: 7 }.is_consistent());
    assert!(!TokenUsage { prompt_tokens: 3, completion_tokens: 4, total_tokens: 8 }.is_consistent());
}

#[test]
fn tool_call_json_quotes_text() {
    let c = ToolCall {
        id: "c1".to_string(),
        name: "Search".to_string(),
        arguments: vec![("query".to_string(), "say \"hi\"".to_string())],
    };
    assert_eq!(
        c.to_json(),
        "{\"id\":\"c1\",\"type\":\"function\",\"function\":{\"name\":\"Search\",\"arguments\":{\"query\":\"say \\\"hi\\\"\"}}}"
    );
}

#[test]
fn action_messages_in_order() {
    let mut s = action(1, None);
    s.model_output = Some("out".to_string());
    s.tool_calls = Some(vec![ToolCall { id: "c7".to_string(), name: "N".to_string(), arguments: vec![] }]);
    s.observations_images = Some(vec!["img.png".to_string()]);
    s.observations = Some("seen".to_string());
    s.error = Some("boom".to_string());
    let ms = s.to_messages(false);
    assert_eq!(ms.len(), 5);
    assert_eq!(ms[0].role, Role::Assistant);
    assert_eq!(ms[0].content, "out");
    assert_eq!(ms[1].role, Role::Tool);
    assert_eq!(ms[1].content, "Calling tools:\n{\"id\":\"c7\",\"type\":\"function\",\"function\":{\"name\":\"N\",\"arguments\":{}}}");
    assert_eq!(ms[2].content, "Observation image: img.png");
    assert_eq!(ms[3].content, "Observations:\nseen");
    assert!(ms[4].content.starts_with("Call id: c7\nError occurred: boom\nNow let's retry"));
    let summary = s.to_messages(true);
    assert_eq!(summary.len(), 4);
    assert_eq!(summary[0].role, Role::Tool);
}

#[test]
fn error_without_tool_calls_names_no_call() {
    let mut s = action(1, None);
    s.error = Some("boom".to_string());
    let ms = s.to_messages(true);
    assert_eq!(ms.len(), 1);
    assert!(ms[0].content.starts_with("Call id: None\n"));
}

#[test]
fn summary_mode_suppresses_verbose_steps() {
    assert!(planning("p").to_messages(true).is_empty());
    let full = planning("p").to_messages(false);
    assert_eq!(full[0].content, "p");
    assert_eq!(full[1].content, "Now proceed and carry out this plan.");
    assert!(SystemPromptStep { system_prompt: "s".to_string() }.to_messages(true).is_empty());
    assert!(FinalAnswerStep { output: "o".to_string() }.to_messages(true).is_empty());
    let t = TaskStep { task: "do".to_string(), task_images: Some(vec!["a.png".to_string()]) };
    let tm = t.to_messages(true);
    assert_eq!(tm.len(), 2);
    assert_eq!(tm[0].content, "New task:\ndo");
    assert_eq!(tm[1].content, "Task image: a.png");
}

#[test]
fn replay_renders_whole_log_in_order() {
    let mut m = AgentMemory::new("sys".to_string());
    m.append(Step::Task(task("t")));
    m.append(Step::Planning(planning("p")));
    let ms = m.replay();
    let contents: Vec<String> = ms.iter().map(|x| x.content.clone()).collect();
    assert_eq!(contents, vec!["sys", "New task:\nt", "p", "Now proceed and carry out this plan."]);
}

#[test]
fn reset_keeps_system_prompt() {
    let mut m = AgentMemory::new("sys".to_string());
    m.append(Step::Task(task("t")));
    m.reset();
    assert!(m.steps.is_empty());
    assert_eq!(m.system_prompt.system_prompt, "sys");
}

#[test]
fn callbacks_selected_by_kind_in_registration_order() {
    let mut reg: CallbackRegistry<&str> = CallbackRegistry::new();
    reg.register(StepKind::Action, "first");
    reg.register(StepKind::Planning, "plan");
    reg.register(StepKind::Action, "second");
    let step = Step::Action(action(1, None));
    let picked: Vec<&str> = reg.callbacks_for(step.kind()).iter().map(|i| *reg.get(*i)).collect();
    assert_eq!(picked, vec!["first", "second"]);
    assert!(reg.callbacks_for(StepKind::Task).is_empty());
}
