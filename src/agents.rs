//! The planning and generation loop, as a state machine. Whoever drives a
//! run performs the model calls it asks for and hands back the text chunks;
//! the run records every step in its memory.

use vstd::prelude::*;
use crate::actions::{
    action_text, entry_views, matched_inputs, parameter_views, ActionBase, ActionInput,
    ActionInputView,
};
use crate::memory::{
    log_messages, message_of, system_prompt_messages, ActionStep, AgentMemory, PlanningStep, Step,
    TaskStep, Timing, ToolCall,
};
use crate::prompts::Prompt;
use crate::records::{copy_messages, message_views, Message, MessageView, Role};
use crate::text::{join_texts, joined, replace_all, replaced};

verus! {

/// The descriptions of the actions, in registration order, one per line.
pub open spec fn tools_text_of(actions: Seq<ActionBase>) -> Seq<char> {
    joined(actions.map_values(|a: ActionBase| action_text(a)), "\n"@)
}

/// The first planning prompt: the template with the task, the tools, and no
/// managed agents filled in.
pub open spec fn initial_plan_text(p: Prompt, task: Seq<char>, tools: Seq<char>) -> Seq<char> {
    replaced(
        replaced(replaced(p.planning.initial_plan@, "{task}"@, task), "{tools}"@, tools),
        "{managed_agents}"@,
        Seq::empty(),
    )
}

/// The messages that ask for a plan. The first step fills in the initial
/// template; later steps wrap the history so far between the update templates.
pub open spec fn planning_prompt(
    p: Prompt,
    task: Seq<char>,
    tools: Seq<char>,
    is_initial: bool,
    history: Seq<MessageView>,
) -> Seq<MessageView> {
    if is_initial {
        seq![message_of(Role::User, initial_plan_text(p, task, tools))]
    } else {
        seq![message_of(Role::System, p.planning.update_plan_pre_messages@)] + history + seq![
            message_of(Role::User, replaced(p.planning.update_plan_post_messages@, "{task}"@, task)),
        ]
    }
}

/// The history that later planning prompts fold in: the log in summary mode.
pub open spec fn history_of(m: AgentMemory) -> Seq<MessageView> {
    system_prompt_messages(m.system_prompt, true) + log_messages(m.steps@, true)
}

pub open spec fn plan_preamble(plan: Seq<char>) -> Seq<char> {
    "Here are the facts I know and the plan of action that I will follow to solve the task:\n```\n"@
        + plan + "\n```"@
}

/// The messages that ask for a step's output: the plan as system message, the
/// task as user message.
pub open spec fn generation_prompt(plan: Seq<char>, task: Seq<char>) -> Seq<MessageView> {
    seq![message_of(Role::System, plan_preamble(plan)), message_of(Role::User, task)]
}

/// The messages that ask for a step's output.
pub fn generation_messages(plan: &str, task: &str) -> (r: Vec<Message>)
    ensures
        message_views(r@) == generation_prompt(plan@, task@),
{
    let mut system = String::from_str(
        "Here are the facts I know and the plan of action that I will follow to solve the task:\n```\n",
    );
    system.append(plan);
    system.append("\n```");
    let mut r: Vec<Message> = Vec::new();
    r.push(Message::new(Role::System, system));
    r.push(Message::new(Role::User, String::from_str(task)));
    assert(message_views(r@) =~= generation_prompt(plan@, task@));
    r
}

/// An agent: its limits, templates and registered actions.
pub struct Agent {
    pub max_steps: usize,
    pub prompt: Prompt,
    pub available_actions: Vec<ActionBase>,
    pub stream_outputs: bool,
    pub planning_interval: Option<usize>,
}

/// The registered actions have pairwise distinct names.
pub open spec fn names_unique(actions: Seq<ActionBase>) -> bool {
    forall|i: int, j: int| 0 <= i < j < actions.len() ==> actions[i].name@ != actions[j].name@
}

/// A fault in an agent's configuration, found before any run starts.
#[derive(Clone, Debug)]
pub enum ConfigurationError {
    /// Two registered actions carry this name.
    DuplicateActionName(String),
}

/// How a run ended.
#[derive(Clone, Copy, Debug, PartialEq, Eq, Structural)]
pub enum Outcome {
    MaxStepsReached,
    Cancelled,
}

/// Where a run stands.
#[derive(Clone, Copy, Debug, PartialEq, Eq, Structural)]
pub enum Phase {
    Planning,
    Generating,
    Finished(Outcome),
}

/// One run of an agent on a task.
pub struct Run {
    pub task: String,
    pub max_steps: usize,
    /// The step under way, counted from one.
    pub step_number: usize,
    pub phase: Phase,
    /// Set from outside; the run stops at the next step boundary.
    pub interrupted: bool,
    /// The plan of the step under way.
    pub plan: String,
    /// The text of the model call under way, so far.
    pub output: String,
    /// The messages of the model call under way.
    pub call_messages: Vec<Message>,
    /// When the model call under way began.
    pub call_start: i32,
    pub memory: AgentMemory,
}

impl Run {
    /// A step under way is numbered from one and within the limit.
    pub open spec fn wf(&self) -> bool {
        &&& self.step_number >= 1
        &&& !(self.phase is Finished) ==> self.step_number <= self.max_steps
    }
}

/// `after` is `before` with a model call begun at `now` on `messages`.
pub open spec fn call_begun(before: Run, after: Run, messages: Seq<MessageView>, now: i32) -> bool {
    &&& message_views(after.call_messages@) == messages
    &&& after.call_start == now
    &&& after.output@ == Seq::<char>::empty()
    &&& after.task == before.task
    &&& after.max_steps == before.max_steps
    &&& after.step_number == before.step_number
    &&& after.phase == before.phase
    &&& after.interrupted == before.interrupted
    &&& after.plan == before.plan
    &&& after.memory == before.memory
}

/// `after` is `before` with nothing changed but the phase.
pub open spec fn only_phase_changed(before: Run, after: Run) -> bool {
    &&& after.task == before.task
    &&& after.max_steps == before.max_steps
    &&& after.step_number == before.step_number
    &&& after.interrupted == before.interrupted
    &&& after.plan == before.plan
    &&& after.output == before.output
    &&& after.call_messages == before.call_messages
    &&& after.call_start == before.call_start
    &&& after.memory == before.memory
}

/// The planning step that a call ending at `now` records.
pub open spec fn is_recorded_plan(s: Step, before: Run, now: i32) -> bool {
    s matches Step::Planning(p) && {
        &&& p.plan@ == before.output@
        &&& message_views(p.model_input_messages@) == message_views(before.call_messages@)
        &&& p.model_output_message matches Some(m) && m@ == message_of(Role::Assistant, before.output@)
        &&& p.timing == Timing { start_time: before.call_start, end_time: now }
        &&& p.token_usage is None
    }
}

/// The texts of the successful outcomes, in order.
pub open spec fn observation_texts(os: Seq<Result<String, String>>) -> Seq<Seq<char>>
    decreases os.len(),
{
    if os.len() == 0 {
        Seq::empty()
    } else {
        let before = observation_texts(os.drop_last());
        match os.last() {
            Ok(t) => before.push(t@),
            Err(_) => before,
        }
    }
}

/// The texts of the failed outcomes, in order.
pub open spec fn error_texts(os: Seq<Result<String, String>>) -> Seq<Seq<char>>
    decreases os.len(),
{
    if os.len() == 0 {
        Seq::empty()
    } else {
        let before = error_texts(os.drop_last());
        match os.last() {
            Ok(_) => before,
            Err(e) => before.push(e@),
        }
    }
}

/// Nothing for no texts; otherwise the texts, one per line.
pub open spec fn lines_or_none(xs: Seq<Seq<char>>) -> Option<Seq<char>> {
    if xs.len() == 0 {
        None
    } else {
        Some(joined(xs, "\n"@))
    }
}

pub open spec fn text_of(o: Option<String>) -> Option<Seq<char>> {
    match o {
        Some(t) => Some(t@),
        None => None,
    }
}

/// The action step that a generation ending at `now` records, with the tool
/// calls it made and the outcome of each.
pub open spec fn is_recorded_action(
    s: Step,
    before: Run,
    now: i32,
    calls: Seq<ToolCall>,
    outcomes: Seq<Result<String, String>>,
) -> bool {
    s matches Step::Action(a) && {
        &&& a.step_number == before.step_number
        &&& a.timing == Timing { start_time: before.call_start, end_time: now }
        &&& a.model_input_messages matches Some(ms) && message_views(ms@) == message_views(before.call_messages@)
        &&& a.model_output matches Some(o) && o@ == before.output@
        &&& a.model_output_message matches Some(m) && m@ == message_of(Role::Assistant, before.output@)
        &&& (if calls.len() == 0 { a.tool_calls is None } else { a.tool_calls matches Some(cs) && cs@ == calls })
        &&& text_of(a.error) == lines_or_none(error_texts(outcomes))
        &&& a.code_action is None
        &&& text_of(a.observations) == lines_or_none(observation_texts(outcomes))
        &&& a.observations_images is None
        &&& a.action_output is None
        &&& a.token_usage is None
        &&& !a.is_final_answer
    }
}

/// `after` is `before` once the model call under way ended at `now`; a
/// generation made the tool calls `calls`, whose outcomes came back in order.
pub open spec fn call_ended_with(
    before: Run,
    after: Run,
    now: i32,
    calls: Seq<ToolCall>,
    outcomes: Seq<Result<String, String>>,
) -> bool {
    match before.phase {
        Phase::Planning => {
            &&& after.phase == Phase::Generating
            &&& after.plan@ == before.output@
            &&& after.output@ == Seq::<char>::empty()
            &&& after.step_number == before.step_number
            &&& after.memory.system_prompt == before.memory.system_prompt
            &&& after.memory.steps@.len() == before.memory.steps@.len() + 1
            &&& after.memory.steps@.drop_last() == before.memory.steps@
            &&& is_recorded_plan(after.memory.steps@.last(), before, now)
            &&& after.task == before.task
            &&& after.max_steps == before.max_steps
            &&& after.interrupted == before.interrupted
        },
        Phase::Generating => {
            &&& after.phase == (if before.interrupted {
                Phase::Finished(Outcome::Cancelled)
            } else if before.step_number >= before.max_steps {
                Phase::Finished(Outcome::MaxStepsReached)
            } else {
                Phase::Planning
            })
            &&& after.step_number == (if after.phase == Phase::Planning {
                before.step_number + 1
            } else {
                before.step_number as int
            })
            &&& after.output@ == Seq::<char>::empty()
            &&& after.memory.system_prompt == before.memory.system_prompt
            &&& after.memory.steps@.len() == before.memory.steps@.len() + 1
            &&& after.memory.steps@.drop_last() == before.memory.steps@
            &&& is_recorded_action(after.memory.steps@.last(), before, now, calls, outcomes)
            &&& after.task == before.task
            &&& after.max_steps == before.max_steps
            &&& after.interrupted == before.interrupted
        },
        Phase::Finished(_) => after == before,
    }
}

/// `after` is `before` once the model call under way ended at `now`, without
/// tool calls.
pub open spec fn call_ended(before: Run, after: Run, now: i32) -> bool {
    call_ended_with(before, after, now, Seq::empty(), Seq::empty())
}

/// The position of the first registered action with the given name.
pub open spec fn action_index(actions: Seq<ActionBase>, name: Seq<char>) -> Option<int>
    decreases actions.len(),
{
    if actions.len() == 0 {
        None
    } else if actions[0].name@ == name {
        Some(0)
    } else {
        match action_index(actions.drop_first(), name) {
            Some(i) => Some(i + 1),
            None => None,
        }
    }
}

/// The arguments of a tool call as action inputs of type `String`.
pub open spec fn argument_inputs(args: Seq<(String, String)>) -> Seq<ActionInputView> {
    args.map_values(|a: (String, String)| ActionInputView { key: a.0@, value: a.1@, dtype: "String"@ })
}

pub open spec fn unknown_action_text(name: Seq<char>) -> Seq<char> {
    "Unknown action: "@ + name
}

/// The texts of the successful outcomes when `successes`, else of the failed
/// ones; nothing when there are none.
fn lines_of(outcomes: &Vec<Result<String, String>>, successes: bool) -> (r: Option<String>)
    ensures
        text_of(r) == lines_or_none(if successes { observation_texts(outcomes@) } else { error_texts(outcomes@) }),
{
    let mut texts: Vec<String> = Vec::new();
    let mut k: usize = 0;
    while k < outcomes.len()
        invariant
            k <= outcomes.len(),
            crate::text::text_views(texts@) == (if successes {
                observation_texts(outcomes@.take(k as int))
            } else {
                error_texts(outcomes@.take(k as int))
            }),
        decreases outcomes.len() - k,
    {
        assert(outcomes@.take(k as int + 1).drop_last() =~= outcomes@.take(k as int));
        match &outcomes[k] {
            Ok(t) => if successes {
                let ghost prev = texts@;
                texts.push(t.clone());
                assert(crate::text::text_views(texts@) =~= crate::text::text_views(prev).push(t@));
            },
            Err(e) => if !successes {
                let ghost prev = texts@;
                texts.push(e.clone());
                assert(crate::text::text_views(texts@) =~= crate::text::text_views(prev).push(e@));
            },
        }
        k = k + 1;
    }
    assert(outcomes@.take(outcomes.len() as int) =~= outcomes@);
    if texts.len() == 0 {
        None
    } else {
        Some(join_texts(&texts, "\n"))
    }
}

impl Agent {
    pub fn new(max_steps: usize, prompt: Prompt, available_actions: Vec<ActionBase>, stream_outputs: bool) -> (r: Agent)
        ensures
            r.max_steps == max_steps,
            r.prompt == prompt,
            r.available_actions == available_actions,
            r.stream_outputs == stream_outputs,
            r.planning_interval is None,
    {
        Agent { max_steps, prompt, available_actions, stream_outputs, planning_interval: None }
    }

    /// An agent as `new` builds it, provided the registered actions have
    /// distinct names; otherwise the error names one that is registered twice.
    pub fn try_new(
        max_steps: usize,
        prompt: Prompt,
        available_actions: Vec<ActionBase>,
        stream_outputs: bool,
    ) -> (r: Result<Agent, ConfigurationError>)
        ensures
            match r {
                Ok(a) => {
                    &&& names_unique(available_actions@)
                    &&& a.max_steps == max_steps
                    &&& a.prompt == prompt
                    &&& a.available_actions == available_actions
                    &&& a.stream_outputs == stream_outputs
                    &&& a.planning_interval is None
                },
                Err(ConfigurationError::DuplicateActionName(n)) => exists|i: int, j: int|
                    0 <= i < j < available_actions@.len() && available_actions@[i].name@ == n@
                        && available_actions@[j].name@ == n@,
            },
    {
        let mut j: usize = 0;
        while j < available_actions.len()
            invariant
                j <= available_actions.len(),
                names_unique(available_actions@.take(j as int)),
            decreases available_actions.len() - j,
        {
            let mut i: usize = 0;
            while i < j
                invariant
                    i <= j < available_actions.len(),
                    forall|k: int| 0 <= k < i ==> available_actions@[k].name@ != available_actions@[j as int].name@,
                decreases j - i,
            {
                if available_actions[i].name == available_actions[j].name {
                    return Err(ConfigurationError::DuplicateActionName(available_actions[j].name.clone()));
                }
                i = i + 1;
            }
            let ghost t = available_actions@.take(j as int + 1);
            assert forall|a: int, b: int| #![trigger t[a], t[b]] 0 <= a < b < j + 1 implies t[a].name@ != t[b].name@ by {
                if b < j {
                    assert(available_actions@.take(j as int)[a] == available_actions@[a]);
                    assert(available_actions@.take(j as int)[b] == available_actions@[b]);
                }
            }
            j = j + 1;
        }
        assert(available_actions@.take(available_actions.len() as int) =~= available_actions@);
        Ok(Agent::new(max_steps, prompt, available_actions, stream_outputs))
    }

    /// The descriptions of the registered actions, one per line.
    pub fn tools_text(&self) -> (r: String)
        ensures
            r@ == tools_text_of(self.available_actions@),
    {
        let mut texts: Vec<String> = Vec::new();
        let mut k: usize = 0;
        while k < self.available_actions.len()
            invariant
                k <= self.available_actions.len(),
                texts@.len() == k,
                forall|i: int| 0 <= i < k ==> #[trigger] texts@[i]@ == action_text(self.available_actions@[i]),
            decreases self.available_actions.len() - k,
        {
            texts.push(self.available_actions[k].as_str());
            k = k + 1;
        }
        assert(crate::text::text_views(texts@) =~= self.available_actions@.map_values(|a: ActionBase| action_text(a)));
        join_texts(&texts, "\n")
    }

    /// The messages that ask for the plan of a step.
    pub fn plan_messages(&self, task: &str, is_initial: bool, memory: &AgentMemory) -> (r: Vec<Message>)
        ensures
            message_views(r@) == planning_prompt(
                self.prompt,
                task@,
                tools_text_of(self.available_actions@),
                is_initial,
                history_of(*memory),
            ),
    {
        proof {
            reveal_strlit("{task}");
            reveal_strlit("{tools}");
            reveal_strlit("{managed_agents}");
            reveal_strlit("");
        }
        let mut r: Vec<Message> = Vec::new();
        if is_initial {
            let tools = self.tools_text();
            let with_task = replace_all(self.prompt.planning.initial_plan.as_str(), "{task}", task);
            let with_tools = replace_all(with_task.as_str(), "{tools}", tools.as_str());
            let content = replace_all(with_tools.as_str(), "{managed_agents}", "");
            assert(""@ =~= Seq::<char>::empty());
            r.push(Message::new(Role::User, content));
            assert(message_views(r@) =~= seq![message_of(Role::User, initial_plan_text(self.prompt, task@, tools@))]);
        } else {
            r.push(Message::new(Role::System, self.prompt.planning.update_plan_pre_messages.clone()));
            let history = memory.write_to_messages(true);
            let ghost before = r@;
            let mut j: usize = 0;
            while j < history.len()
                invariant
                    j <= history.len(),
                    message_views(r@) == message_views(before) + message_views(history@).take(j as int),
                decreases history.len() - j,
            {
                let ghost prev = r@;
                r.push(history[j].duplicate());
                assert(message_views(r@) =~= message_views(prev).push(history@[j as int]@));
                assert(message_views(history@).take(j as int + 1) =~= message_views(history@).take(j as int).push(history@[j as int]@));
                j = j + 1;
            }
            assert(message_views(history@).take(history.len() as int) =~= message_views(history@));
            let post = replace_all(self.prompt.planning.update_plan_post_messages.as_str(), "{task}", task);
            let ghost mid = r@;
            r.push(Message::new(Role::User, post));
            assert(message_views(r@) =~= message_views(mid).push(message_of(Role::User, post@)));
            assert(history_of(*memory) == message_views(history@));
            assert(message_views(before) =~= seq![message_of(Role::System, self.prompt.planning.update_plan_pre_messages@)]);
        }
        assert(message_views(r@) =~= planning_prompt(
            self.prompt,
            task@,
            tools_text_of(self.available_actions@),
            is_initial,
            history_of(*memory),
        ));
        r
    }

    /// The registered action that a tool call names, with the inputs it
    /// accepts from the call's arguments; an error text when no action has
    /// that name.
    pub fn resolve(&self, call: &ToolCall) -> (r: Result<(usize, Vec<(String, ActionInput)>), String>)
        ensures
            match action_index(self.available_actions@, call.name@) {
                Some(i) => r matches Ok(found) && found.0 == i && entry_views(found.1@) == matched_inputs(
                    parameter_views(self.available_actions@[i].parameters@),
                    argument_inputs(call.arguments@),
                ),
                None => r matches Err(e) && e@ == unknown_action_text(call.name@),
            },
    {
        let ghost acts = self.available_actions@;
        let mut j: usize = 0;
        assert(acts.skip(0) =~= acts);
        while j < self.available_actions.len()
            invariant
                j <= self.available_actions.len(),
                acts == self.available_actions@,
                action_index(acts, call.name@) == (match action_index(acts.skip(j as int), call.name@) {
                    Some(i) => Some(i + j),
                    None => None,
                }),
            decreases self.available_actions.len() - j,
        {
            assert(acts.skip(j as int)[0] == acts[j as int]);
            if self.available_actions[j].name == call.name {
                let mut inputs: Vec<ActionInput> = Vec::new();
                let mut k: usize = 0;
                while k < call.arguments.len()
                    invariant
                        k <= call.arguments.len(),
                        inputs@.len() == k,
                        forall|i: int| 0 <= i < k ==> #[trigger] inputs@[i]@ == argument_inputs(call.arguments@)[i],
                    decreases call.arguments.len() - k,
                {
                    let a = &call.arguments[k];
                    inputs.push(ActionInput {
                        key: a.0.clone(),
                        value: a.1.clone(),
                        dtype: String::from_str("String"),
                    });
                    k = k + 1;
                }
                assert(crate::actions::input_views(inputs@) =~= argument_inputs(call.arguments@));
                let entries = self.available_actions[j].prepare_inputs(&inputs);
                return Ok((j, entries));
            }
            assert(acts.skip(j as int).drop_first() =~= acts.skip(j as int + 1));
            j = j + 1;
        }
        let mut e = String::from_str("Unknown action: ");
        e.append(call.name.as_str());
        Err(e)
    }

    /// A run on `task`: its memory holds the system prompt and the task, and
    /// it plans the first step, unless no step is allowed at all.
    pub fn start(&self, task: String, images: Vec<String>) -> (r: Run)
        ensures
            r.wf(),
            r.task == task,
            r.max_steps == self.max_steps,
            r.step_number == 1,
            r.phase == (if self.max_steps >= 1 { Phase::Planning } else { Phase::Finished(Outcome::MaxStepsReached) }),
            !r.interrupted,
            r.memory.system_prompt.system_prompt == self.prompt.system_prompt,
            r.memory.steps@.len() == 1,
            r.memory.steps@[0] matches Step::Task(t) && t.task == task
                && t.task_images == (if images@.len() == 0 { None } else { Some(images) }),
    {
        let mut memory = AgentMemory::new(self.prompt.system_prompt.clone());
        let task_images = if images.len() == 0 { None } else { Some(images) };
        memory.append(Step::Task(TaskStep { task: task.clone(), task_images }));
        let phase = if self.max_steps >= 1 { Phase::Planning } else { Phase::Finished(Outcome::MaxStepsReached) };
        Run {
            task,
            max_steps: self.max_steps,
            step_number: 1,
            phase,
            interrupted: false,
            plan: String::new(),
            output: String::new(),
            call_messages: Vec::new(),
            call_start: 0,
            memory,
        }
    }
}

impl Run {
    pub fn is_finished(&self) -> (r: bool)
        ensures
            r == (self.phase is Finished),
    {
        match self.phase {
            Phase::Finished(_) => true,
            _ => false,
        }
    }

    /// Asks the run to stop at the next step boundary.
    pub fn interrupt(&mut self)
        ensures
            final(self).interrupted,
            final(self).phase == old(self).phase,
            final(self).step_number == old(self).step_number,
            final(self).max_steps == old(self).max_steps,
            final(self).memory == old(self).memory,
            final(self).output == old(self).output,
            final(self).plan == old(self).plan,
            final(self).task == old(self).task,
            final(self).call_messages == old(self).call_messages,
            final(self).call_start == old(self).call_start,
    {
        self.interrupted = true;
    }

    /// The messages of the next model call, begun at `now`. A run that was
    /// interrupted before a step's planning began ends there, cancelled; a
    /// finished run asks for nothing.
    pub fn begin_call(&mut self, agent: &Agent, now: i32) -> (r: Option<Vec<Message>>)
        requires
            old(self).wf(),
        ensures
            final(self).wf(),
            match old(self).phase {
                Phase::Planning => if old(self).interrupted {
                    &&& r is None
                    &&& final(self).phase == Phase::Finished(Outcome::Cancelled)
                    &&& only_phase_changed(*old(self), *final(self))
                } else {
                    &&& r matches Some(ms) && message_views(ms@) == planning_prompt(
                        agent.prompt,
                        old(self).task@,
                        tools_text_of(agent.available_actions@),
                        old(self).step_number == 1,
                        history_of(old(self).memory),
                    )
                    &&& call_begun(*old(self), *final(self), message_views(r->0@), now)
                },
                Phase::Generating => {
                    &&& r matches Some(ms) && message_views(ms@) == generation_prompt(old(self).plan@, old(self).task@)
                    &&& call_begun(*old(self), *final(self), message_views(r->0@), now)
                },
                Phase::Finished(_) => r is None && *final(self) == *old(self),
            },
    {
        match self.phase {
            Phase::Planning => {
                if self.interrupted {
                    self.phase = Phase::Finished(Outcome::Cancelled);
                    None
                } else {
                    let ms = agent.plan_messages(self.task.as_str(), self.step_number == 1, &self.memory);
                    self.call_messages = copy_messages(&ms);
                    self.call_start = now;
                    self.output = String::new();
                    Some(ms)
                }
            },
            Phase::Generating => {
                let ms = generation_messages(self.plan.as_str(), self.task.as_str());
                self.call_messages = copy_messages(&ms);
                self.call_start = now;
                self.output = String::new();
                Some(ms)
            },
            Phase::Finished(_) => None,
        }
    }

    /// Takes the next chunk of the call under way and hands it back for the
    /// caller's output, unchanged and in order.
    pub fn receive(&mut self, chunk: &str) -> (r: String)
        ensures
            r@ == chunk@,
            old(self).phase is Finished ==> *final(self) == *old(self),
            !(old(self).phase is Finished) ==> final(self).output@ == old(self).output@ + chunk@,
            final(self).task == old(self).task,
            final(self).max_steps == old(self).max_steps,
            final(self).step_number == old(self).step_number,
            final(self).phase == old(self).phase,
            final(self).interrupted == old(self).interrupted,
            final(self).plan == old(self).plan,
            final(self).call_messages == old(self).call_messages,
            final(self).call_start == old(self).call_start,
            final(self).memory == old(self).memory,
    {
        match self.phase {
            Phase::Finished(_) => {},
            _ => self.output.append(chunk),
        }
        String::from_str(chunk)
    }

    /// Ends the call under way at `now` and records it: a plan moves the run
    /// on to generation; a generation completes the step, and the run either
    /// plans the next step or finishes.
    pub fn end_call(&mut self, now: i32)
        requires
            old(self).wf(),
        ensures
            final(self).wf(),
            call_ended(*old(self), *final(self), now),
    {
        self.end_call_with_tools(now, Vec::new(), Vec::new());
    }

    /// Ends the call under way at `now` like `end_call`; a generation's step
    /// also records the tool calls it made and, one per call in order, their
    /// outcomes: the observations, one per line, and the errors, one per line.
    pub fn end_call_with_tools(&mut self, now: i32, calls: Vec<ToolCall>, outcomes: Vec<Result<String, String>>)
        requires
            old(self).wf(),
        ensures
            final(self).wf(),
            call_ended_with(*old(self), *final(self), now, calls@, outcomes@),
    {
        let ghost before = *self;
        match self.phase {
            Phase::Planning => {
                let text = self.output.clone();
                let step = PlanningStep {
                    model_input_messages: copy_messages(&self.call_messages),
                    model_output_message: Some(Message::new(Role::Assistant, text.clone())),
                    plan: text.clone(),
                    timing: Timing { start_time: self.call_start, end_time: now },
                    token_usage: None,
                };
                self.memory.append(Step::Planning(step));
                assert(self.memory.steps@.drop_last() =~= before.memory.steps@);
                self.plan = text;
                self.output = String::new();
                self.phase = Phase::Generating;
            },
            Phase::Generating => {
                let text = self.output.clone();
                let step = ActionStep {
                    step_number: self.step_number,
                    timing: Timing { start_time: self.call_start, end_time: now },
                    model_input_messages: Some(copy_messages(&self.call_messages)),
                    tool_calls: if calls.len() == 0 { None } else { Some(calls) },
                    error: lines_of(&outcomes, false),
                    model_output_message: Some(Message::new(Role::Assistant, text.clone())),
                    model_output: Some(text),
                    code_action: None,
                    observations: lines_of(&outcomes, true),
                    observations_images: None,
                    action_output: None,
                    token_usage: None,
                    is_final_answer: false,
                };
                self.memory.append(Step::Action(step));
                assert(self.memory.steps@.drop_last() =~= before.memory.steps@);
                self.output = String::new();
                if self.interrupted {
                    self.phase = Phase::Finished(Outcome::Cancelled);
                } else if self.step_number >= self.max_steps {
                    self.phase = Phase::Finished(Outcome::MaxStepsReached);
                } else {
                    self.step_number = self.step_number + 1;
                    self.phase = Phase::Planning;
                }
            },
            Phase::Finished(_) => {},
        }
    }

    /// A failed model call: it yields an empty chunk and ends at `now` like
    /// any other call.
    pub fn call_failed(&mut self, now: i32) -> (r: String)
        requires
            old(self).wf(),
        ensures
            r@ == Seq::<char>::empty(),
            final(self).wf(),
            call_ended(*old(self), *final(self), now),
    {
        self.end_call(now);
        String::new()
    }
}

} // verus!
