//! The step log: typed steps, their records and prompt messages, the memory
//! that holds them in order, and the registry of observers of new steps.

use vstd::prelude::*;
use crate::records::{
    is_message, is_message_list, is_number, is_opt_text, is_opt_text_list, is_text, keys_of,
    message_field, message_list_field, message_views, opt_text_field, opt_text_list_field,
    text_field, FieldValue, Message, MessageView, Role,
};
use crate::text::{joined, join_texts};

verus! {

/// The JSON string literal for a text: quoted, with the characters JSON
/// requires escaped.
pub uninterp spec fn json_string_of(s: Seq<char>) -> Seq<char>;

/// Relies on `serde_json::to_string` on a string slice, which serialises it as
/// a JSON string literal; the result depends on the characters alone.
#[verifier::external_body]
fn json_string(s: &str) -> (r: String)
    ensures
        r@ == json_string_of(s@),
{
    serde_json::to_string(s).unwrap_or_default()
}

/// A model-requested invocation of a named action with named text arguments.
#[derive(Clone, Debug)]
pub struct ToolCall {
    pub id: String,
    pub name: String,
    pub arguments: Vec<(String, String)>,
}

pub open spec fn argument_json(a: (String, String)) -> Seq<char> {
    json_string_of(a.0@) + ":"@ + json_string_of(a.1@)
}

/// The call as a JSON object: its id, the type `function`, and the function's
/// name and arguments.
pub open spec fn tool_call_json(c: ToolCall) -> Seq<char> {
    "{\"id\":"@ + json_string_of(c.id@) + ",\"type\":\"function\",\"function\":{\"name\":"@
        + json_string_of(c.name@) + ",\"arguments\":{"@
        + joined(c.arguments@.map_values(|a: (String, String)| argument_json(a)), ","@) + "}}}"@
}

/// The record of a tool call: `id`, `type`, and `function` holding `name` and
/// `arguments`.
pub open spec fn is_tool_call_record(v: FieldValue, c: ToolCall) -> bool {
    match v {
        FieldValue::Object(fs) => {
            &&& keys_of(fs@) == seq!["id"@, "type"@, "function"@]
            &&& is_text(fs@[0].1, c.id@)
            &&& is_text(fs@[1].1, "function"@)
            &&& match fs@[2].1 {
                FieldValue::Object(gs) => {
                    &&& keys_of(gs@) == seq!["name"@, "arguments"@]
                    &&& is_text(gs@[0].1, c.name@)
                    &&& match gs@[1].1 {
                        FieldValue::Object(args) => {
                            &&& keys_of(args@) == c.arguments@.map_values(|a: (String, String)| a.0@)
                            &&& forall|i: int| 0 <= i < args@.len() ==> is_text(#[trigger] args@[i].1, c.arguments@[i].1@)
                        },
                        _ => false,
                    }
                },
                _ => false,
            }
        },
        _ => false,
    }
}

pub open spec fn is_tool_call_list(v: FieldValue, cs: Option<Vec<ToolCall>>) -> bool {
    match cs {
        None => v is Null,
        Some(cs) => match v {
            FieldValue::List(items) => items@.len() == cs@.len() && forall|i: int|
                0 <= i < cs@.len() ==> is_tool_call_record(#[trigger] items@[i], cs@[i]),
            _ => false,
        },
    }
}

impl ToolCall {
    /// The call as a record.
    pub fn to_record(&self) -> (r: FieldValue)
        ensures
            is_tool_call_record(r, *self),
    {
        let mut args: Vec<(String, FieldValue)> = Vec::new();
        let mut k: usize = 0;
        while k < self.arguments.len()
            invariant
                k <= self.arguments.len(),
                args@.len() == k,
                forall|i: int| 0 <= i < k ==> #[trigger] args@[i].0@ == self.arguments@[i].0@,
                forall|i: int| 0 <= i < k ==> is_text(#[trigger] args@[i].1, self.arguments@[i].1@),
            decreases self.arguments.len() - k,
        {
            let a = &self.arguments[k];
            args.push((a.0.clone(), text_field(&a.1)));
            k = k + 1;
        }
        assert(keys_of(args@) =~= self.arguments@.map_values(|a: (String, String)| a.0@));
        let mut function: Vec<(String, FieldValue)> = Vec::new();
        function.push((String::from_str("name"), text_field(&self.name)));
        function.push((String::from_str("arguments"), FieldValue::Object(args)));
        assert(keys_of(function@) =~= seq!["name"@, "arguments"@]);
        let mut fs: Vec<(String, FieldValue)> = Vec::new();
        fs.push((String::from_str("id"), text_field(&self.id)));
        fs.push((String::from_str("type"), FieldValue::Text(String::from_str("function"))));
        fs.push((String::from_str("function"), FieldValue::Object(function)));
        assert(keys_of(fs@) =~= seq!["id"@, "type"@, "function"@]);
        FieldValue::Object(fs)
    }

    /// The call as JSON text.
    pub fn to_json(&self) -> (r: String)
        ensures
            r@ == tool_call_json(*self),
    {
        let ghost pieces = self.arguments@.map_values(|a: (String, String)| argument_json(a));
        let mut texts: Vec<String> = Vec::new();
        let mut k: usize = 0;
        while k < self.arguments.len()
            invariant
                k <= self.arguments.len(),
                pieces == self.arguments@.map_values(|a: (String, String)| argument_json(a)),
                texts@.len() == k,
                forall|i: int| 0 <= i < k ==> #[trigger] texts@[i]@ == pieces[i],
            decreases self.arguments.len() - k,
        {
            let a = &self.arguments[k];
            let mut t = json_string(a.0.as_str());
            t.append(":");
            let v = json_string(a.1.as_str());
            t.append(v.as_str());
            texts.push(t);
            k = k + 1;
        }
        assert(crate::text::text_views(texts@) =~= pieces);
        let listed = join_texts(&texts, ",");
        let mut r = String::from_str("{\"id\":");
        let id = json_string(self.id.as_str());
        r.append(id.as_str());
        r.append(",\"type\":\"function\",\"function\":{\"name\":");
        let name = json_string(self.name.as_str());
        r.append(name.as_str());
        r.append(",\"arguments\":{");
        r.append(listed.as_str());
        r.append("}}}");
        r
    }
}

/// Start and end of a piece of work, as samples of a monotonic clock.
#[derive(Clone, Copy, Debug, PartialEq, Eq, Structural)]
pub struct Timing {
    pub start_time: i32,
    pub end_time: i32,
}

impl Timing {
    /// `end_time - start_time`, exact.
    pub fn duration(&self) -> (r: i64)
        ensures
            r == self.end_time - self.start_time,
    {
        self.end_time as i64 - self.start_time as i64
    }

    /// A timing is valid when it does not end before it starts, that is when
    /// its duration is not negative.
    pub fn is_valid(&self) -> (r: bool)
        ensures
            r == (self.end_time >= self.start_time),
            !r <==> self.end_time - self.start_time < 0,
    {
        self.duration() >= 0
    }
}

/// The record of a timing: `start_time`, `end_time`, `duration`.
pub open spec fn is_timing_record(v: FieldValue, t: Timing) -> bool {
    match v {
        FieldValue::Object(fs) => {
            &&& keys_of(fs@) == seq!["start_time"@, "end_time"@, "duration"@]
            &&& is_number(fs@[0].1, t.start_time as int)
            &&& is_number(fs@[1].1, t.end_time as int)
            &&& is_number(fs@[2].1, t.end_time - t.start_time)
        },
        _ => false,
    }
}

impl Timing {
    pub fn to_record(&self) -> (r: FieldValue)
        ensures
            is_timing_record(r, *self),
    {
        let mut fs: Vec<(String, FieldValue)> = Vec::new();
        fs.push((String::from_str("start_time"), FieldValue::Number(self.start_time as i128)));
        fs.push((String::from_str("end_time"), FieldValue::Number(self.end_time as i128)));
        fs.push((String::from_str("duration"), FieldValue::Number(self.duration() as i128)));
        assert(keys_of(fs@) =~= seq!["start_time"@, "end_time"@, "duration"@]);
        FieldValue::Object(fs)
    }
}

/// Token counts of one model call.
#[derive(Clone, Copy, Debug, PartialEq, Eq, Structural)]
pub struct TokenUsage {
    pub prompt_tokens: usize,
    pub completion_tokens: usize,
    pub total_tokens: usize,
}

impl TokenUsage {
    /// The total is the sum of the other two counts.
    pub fn is_consistent(&self) -> (r: bool)
        ensures
            r == (self.total_tokens == self.prompt_tokens + self.completion_tokens),
    {
        self.prompt_tokens as u128 + self.completion_tokens as u128 == self.total_tokens as u128
    }
}

/// `Null` without usage; otherwise `prompt_tokens`, `completion_tokens`,
/// `total_tokens`.
pub open spec fn is_usage_record(v: FieldValue, u: Option<TokenUsage>) -> bool {
    match u {
        None => v is Null,
        Some(u) => match v {
            FieldValue::Object(fs) => {
                &&& keys_of(fs@) == seq!["prompt_tokens"@, "completion_tokens"@, "total_tokens"@]
                &&& is_number(fs@[0].1, u.prompt_tokens as int)
                &&& is_number(fs@[1].1, u.completion_tokens as int)
                &&& is_number(fs@[2].1, u.total_tokens as int)
            },
            _ => false,
        },
    }
}

fn usage_field(u: &Option<TokenUsage>) -> (r: FieldValue)
    ensures
        is_usage_record(r, *u),
{
    match u {
        None => FieldValue::Null,
        Some(u) => {
            let mut fs: Vec<(String, FieldValue)> = Vec::new();
            fs.push((String::from_str("prompt_tokens"), FieldValue::Number(u.prompt_tokens as i128)));
            fs.push((String::from_str("completion_tokens"), FieldValue::Number(u.completion_tokens as i128)));
            fs.push((String::from_str("total_tokens"), FieldValue::Number(u.total_tokens as i128)));
            assert(keys_of(fs@) =~= seq!["prompt_tokens"@, "completion_tokens"@, "total_tokens"@]);
            FieldValue::Object(fs)
        },
    }
}

pub open spec fn message_of(role: Role, content: Seq<char>) -> MessageView {
    MessageView { role, content }
}

pub open spec fn is_opt_message(v: FieldValue, m: Option<Message>) -> bool {
    match m {
        None => v is Null,
        Some(m) => is_message(v, m@),
    }
}

pub open spec fn is_opt_message_list(v: FieldValue, ms: Option<Vec<Message>>) -> bool {
    match ms {
        None => v is Null,
        Some(ms) => is_message_list(v, message_views(ms@)),
    }
}

fn opt_message_field(m: &Option<Message>) -> (r: FieldValue)
    ensures
        is_opt_message(r, *m),
{
    match m {
        Some(m) => message_field(m),
        None => FieldValue::Null,
    }
}

fn opt_message_list_field(ms: &Option<Vec<Message>>) -> (r: FieldValue)
    ensures
        is_opt_message_list(r, *ms),
{
    match ms {
        Some(ms) => message_list_field(ms),
        None => FieldValue::Null,
    }
}

/// One message per item: `prefix` followed by the item, all with `role`.
pub open spec fn prefixed_messages(role: Role, prefix: Seq<char>, items: Seq<String>) -> Seq<MessageView> {
    items.map_values(|i: String| message_of(role, prefix + i@))
}

pub open spec fn opt_prefixed_messages(role: Role, prefix: Seq<char>, items: Option<Vec<String>>) -> Seq<MessageView> {
    match items {
        Some(xs) => prefixed_messages(role, prefix, xs@),
        None => Seq::empty(),
    }
}

fn push_prefixed(out: &mut Vec<Message>, role: Role, prefix: &str, items: &Vec<String>)
    ensures
        message_views(final(out)@) == message_views(old(out)@) + prefixed_messages(role, prefix@, items@),
{
    let ghost start = message_views(out@);
    let mut k: usize = 0;
    while k < items.len()
        invariant
            k <= items.len(),
            message_views(out@) == start + prefixed_messages(role, prefix@, items@).take(k as int),
        decreases items.len() - k,
    {
        let mut c = String::from_str(prefix);
        c.append(items[k].as_str());
        let ghost before = out@;
        out.push(Message::new(role, c));
        assert(message_views(out@) =~= message_views(before).push(message_of(role, prefix@ + items@[k as int]@)));
        assert(prefixed_messages(role, prefix@, items@).take(k as int + 1) =~= prefixed_messages(role, prefix@, items@).take(k as int).push(message_of(role, prefix@ + items@[k as int]@)));
        k = k + 1;
    }
    assert(prefixed_messages(role, prefix@, items@).take(items.len() as int) =~= prefixed_messages(role, prefix@, items@));
}

fn push_message(out: &mut Vec<Message>, role: Role, content: String)
    ensures
        message_views(final(out)@) == message_views(old(out)@).push(message_of(role, content@)),
{
    out.push(Message::new(role, content));
    assert(message_views(out@) =~= message_views(old(out)@).push(message_of(role, content@)));
}

/// The task given to the loop, with any images that came with it.
#[derive(Clone, Debug)]
pub struct TaskStep {
    pub task: String,
    pub task_images: Option<Vec<String>>,
}

/// The system prompt of a run.
#[derive(Clone, Debug)]
pub struct SystemPromptStep {
    pub system_prompt: String,
}

/// The final output of a run.
#[derive(Clone, Debug)]
pub struct FinalAnswerStep {
    pub output: String,
}

/// A plan, the messages that produced it, and the cost of producing it.
#[derive(Clone, Debug)]
pub struct PlanningStep {
    pub model_input_messages: Vec<Message>,
    pub model_output_message: Option<Message>,
    pub plan: String,
    pub timing: Timing,
    pub token_usage: Option<TokenUsage>,
}

/// One generation of the loop, with the tool calls it made and what came back.
#[derive(Clone, Debug)]
pub struct ActionStep {
    pub step_number: usize,
    pub timing: Timing,
    pub model_input_messages: Option<Vec<Message>>,
    pub tool_calls: Option<Vec<ToolCall>>,
    pub error: Option<String>,
    pub model_output_message: Option<Message>,
    pub model_output: Option<String>,
    pub code_action: Option<String>,
    pub observations: Option<String>,
    pub observations_images: Option<Vec<String>>,
    /// The structured output of the action, as JSON text.
    pub action_output: Option<String>,
    pub token_usage: Option<TokenUsage>,
    pub is_final_answer: bool,
}

pub open spec fn task_record_keys() -> Seq<Seq<char>> {
    seq!["task"@, "task_images"@]
}

pub open spec fn is_task_record(r: Seq<(String, FieldValue)>, s: TaskStep) -> bool {
    &&& keys_of(r) == task_record_keys()
    &&& is_text(r[0].1, s.task@)
    &&& is_opt_text_list(r[1].1, s.task_images)
}

pub open spec fn task_messages(s: TaskStep) -> Seq<MessageView> {
    seq![message_of(Role::User, "New task:\n"@ + s.task@)]
        + opt_prefixed_messages(Role::User, "Task image: "@, s.task_images)
}

impl TaskStep {
    pub fn to_record(&self) -> (r: Vec<(String, FieldValue)>)
        ensures
            is_task_record(r@, *self),
    {
        let mut r: Vec<(String, FieldValue)> = Vec::new();
        r.push((String::from_str("task"), text_field(&self.task)));
        r.push((String::from_str("task_images"), opt_text_list_field(&self.task_images)));
        assert(keys_of(r@) =~= task_record_keys());
        r
    }

    /// The task, then one message per image; the same in summary mode.
    pub fn to_messages(&self, summary_mode: bool) -> (r: Vec<Message>)
        ensures
            message_views(r@) == task_messages(*self),
    {
        let mut r: Vec<Message> = Vec::new();
        let mut c = String::from_str("New task:\n");
        c.append(self.task.as_str());
        push_message(&mut r, Role::User, c);
        match &self.task_images {
            Some(images) => push_prefixed(&mut r, Role::User, "Task image: ", images),
            None => {},
        }
        assert(message_views(r@) =~= task_messages(*self));
        r
    }
}

pub open spec fn system_prompt_record_keys() -> Seq<Seq<char>> {
    seq!["system_prompt"@]
}

pub open spec fn is_system_prompt_record(r: Seq<(String, FieldValue)>, s: SystemPromptStep) -> bool {
    &&& keys_of(r) == system_prompt_record_keys()
    &&& is_text(r[0].1, s.system_prompt@)
}

pub open spec fn system_prompt_messages(s: SystemPromptStep, summary_mode: bool) -> Seq<MessageView> {
    if summary_mode {
        Seq::empty()
    } else {
        seq![message_of(Role::User, s.system_prompt@)]
    }
}

impl SystemPromptStep {
    pub fn to_record(&self) -> (r: Vec<(String, FieldValue)>)
        ensures
            is_system_prompt_record(r@, *self),
    {
        let mut r: Vec<(String, FieldValue)> = Vec::new();
        r.push((String::from_str("system_prompt"), text_field(&self.system_prompt)));
        assert(keys_of(r@) =~= system_prompt_record_keys());
        r
    }

    /// The prompt as one message; nothing in summary mode.
    pub fn to_messages(&self, summary_mode: bool) -> (r: Vec<Message>)
        ensures
            message_views(r@) == system_prompt_messages(*self, summary_mode),
    {
        let mut r: Vec<Message> = Vec::new();
        if !summary_mode {
            push_message(&mut r, Role::User, self.system_prompt.clone());
        }
        assert(message_views(r@) =~= system_prompt_messages(*self, summary_mode));
        r
    }
}

pub open spec fn final_answer_record_keys() -> Seq<Seq<char>> {
    seq!["output"@]
}

pub open spec fn is_final_answer_record(r: Seq<(String, FieldValue)>, s: FinalAnswerStep) -> bool {
    &&& keys_of(r) == final_answer_record_keys()
    &&& is_text(r[0].1, s.output@)
}

pub open spec fn final_answer_messages(s: FinalAnswerStep, summary_mode: bool) -> Seq<MessageView> {
    if summary_mode {
        Seq::empty()
    } else {
        seq![message_of(Role::User, s.output@)]
    }
}

impl FinalAnswerStep {
    pub fn to_record(&self) -> (r: Vec<(String, FieldValue)>)
        ensures
            is_final_answer_record(r@, *self),
    {
        let mut r: Vec<(String, FieldValue)> = Vec::new();
        r.push((String::from_str("output"), text_field(&self.output)));
        assert(keys_of(r@) =~= final_answer_record_keys());
        r
    }

    /// The answer as one message; nothing in summary mode.
    pub fn to_messages(&self, summary_mode: bool) -> (r: Vec<Message>)
        ensures
            message_views(r@) == final_answer_messages(*self, summary_mode),
    {
        let mut r: Vec<Message> = Vec::new();
        if !summary_mode {
            push_message(&mut r, Role::User, self.output.clone());
        }
        assert(message_views(r@) =~= final_answer_messages(*self, summary_mode));
        r
    }
}

/// The field names of a planning record; the input messages only in a full one.
pub open spec fn planning_record_keys(with_inputs: bool) -> Seq<Seq<char>> {
    if with_inputs {
        seq!["model_input_messages"@, "model_output_message"@, "plan"@, "timing"@, "token_usage"@]
    } else {
        seq!["model_output_message"@, "plan"@, "timing"@, "token_usage"@]
    }
}

pub open spec fn is_planning_record(r: Seq<(String, FieldValue)>, s: PlanningStep, with_inputs: bool) -> bool {
    let o: int = if with_inputs { 1 } else { 0 };
    &&& keys_of(r) == planning_record_keys(with_inputs)
    &&& with_inputs ==> is_message_list(r[0].1, message_views(s.model_input_messages@))
    &&& is_opt_message(r[o].1, s.model_output_message)
    &&& is_text(r[1 + o].1, s.plan@)
    &&& is_timing_record(r[2 + o].1, s.timing)
    &&& is_usage_record(r[3 + o].1, s.token_usage)
}

pub open spec fn planning_messages(s: PlanningStep, summary_mode: bool) -> Seq<MessageView> {
    if summary_mode {
        Seq::empty()
    } else {
        seq![
            message_of(Role::Assistant, s.plan@),
            message_of(Role::User, "Now proceed and carry out this plan."@),
        ]
    }
}

impl PlanningStep {
    /// The record, with the input messages only when `with_inputs` holds.
    pub fn record(&self, with_inputs: bool) -> (r: Vec<(String, FieldValue)>)
        ensures
            is_planning_record(r@, *self, with_inputs),
    {
        let mut r: Vec<(String, FieldValue)> = Vec::new();
        if with_inputs {
            r.push((String::from_str("model_input_messages"), message_list_field(&self.model_input_messages)));
        }
        r.push((String::from_str("model_output_message"), opt_message_field(&self.model_output_message)));
        r.push((String::from_str("plan"), text_field(&self.plan)));
        r.push((String::from_str("timing"), self.timing.to_record()));
        r.push((String::from_str("token_usage"), usage_field(&self.token_usage)));
        assert(keys_of(r@) =~= planning_record_keys(with_inputs));
        r
    }

    /// The full record.
    pub fn to_record(&self) -> (r: Vec<(String, FieldValue)>)
        ensures
            is_planning_record(r@, *self, true),
    {
        self.record(true)
    }

    /// The plan and the instruction to carry it out; nothing in summary mode.
    pub fn to_messages(&self, summary_mode: bool) -> (r: Vec<Message>)
        ensures
            message_views(r@) == planning_messages(*self, summary_mode),
    {
        let mut r: Vec<Message> = Vec::new();
        if !summary_mode {
            push_message(&mut r, Role::Assistant, self.plan.clone());
            push_message(&mut r, Role::User, String::from_str("Now proceed and carry out this plan."));
        }
        assert(message_views(r@) =~= planning_messages(*self, summary_mode));
        r
    }
}

/// The field names of an action record; the input messages only in a full one.
pub open spec fn action_record_keys(with_inputs: bool) -> Seq<Seq<char>> {
    if with_inputs {
        seq![
            "step_number"@, "timing"@, "model_input_messages"@, "tool_calls"@, "error"@,
            "model_output_message"@, "model_output"@, "code_action"@, "observations"@,
            "observations_images"@, "action_output"@, "token_usage"@, "is_final_answer"@,
        ]
    } else {
        seq![
            "step_number"@, "timing"@, "tool_calls"@, "error"@,
            "model_output_message"@, "model_output"@, "code_action"@, "observations"@,
            "observations_images"@, "action_output"@, "token_usage"@, "is_final_answer"@,
        ]
    }
}

pub open spec fn is_action_record(r: Seq<(String, FieldValue)>, s: ActionStep, with_inputs: bool) -> bool {
    let o: int = if with_inputs { 1 } else { 0 };
    &&& keys_of(r) == action_record_keys(with_inputs)
    &&& is_number(r[0].1, s.step_number as int)
    &&& is_timing_record(r[1].1, s.timing)
    &&& with_inputs ==> is_opt_message_list(r[2].1, s.model_input_messages)
    &&& is_tool_call_list(r[2 + o].1, s.tool_calls)
    &&& is_opt_text(r[3 + o].1, s.error)
    &&& is_opt_message(r[4 + o].1, s.model_output_message)
    &&& is_opt_text(r[5 + o].1, s.model_output)
    &&& is_opt_text(r[6 + o].1, s.code_action)
    &&& is_opt_text(r[7 + o].1, s.observations)
    &&& is_opt_text_list(r[8 + o].1, s.observations_images)
    &&& is_opt_text(r[9 + o].1, s.action_output)
    &&& is_usage_record(r[10 + o].1, s.token_usage)
    &&& r[11 + o].1 matches FieldValue::Bool(b) && b == s.is_final_answer
}

/// The id of the first tool call, or `None` when there is none.
pub open spec fn first_call_id(cs: Option<Vec<ToolCall>>) -> Seq<char> {
    match cs {
        Some(cs) => if cs@.len() > 0 { cs@[0].id@ } else { "None"@ },
        None => "None"@,
    }
}

/// What a recorded error asks of the model on the next turn.
pub open spec fn error_notice(call_id: Seq<char>, e: Seq<char>) -> Seq<char> {
    "Call id: "@ + call_id + "\n"@ + "Error occurred: "@ + e
        + "\nNow let's retry: take care not to repeat previous errors! If you have retried several times, try a completely different approach.\n"@
}

pub open spec fn tool_call_messages(cs: Option<Vec<ToolCall>>) -> Seq<MessageView> {
    match cs {
        Some(cs) => cs@.map_values(|c: ToolCall| message_of(Role::Tool, "Calling tools:\n"@ + tool_call_json(c))),
        None => Seq::empty(),
    }
}

/// The model's output unless in summary mode, then one message per tool call,
/// per observation image, the observations, and the error.
pub open spec fn action_messages(s: ActionStep, summary_mode: bool) -> Seq<MessageView> {
    (match s.model_output {
        Some(o) => if summary_mode { Seq::empty() } else { seq![message_of(Role::Assistant, o@)] },
        None => Seq::empty(),
    })
    + tool_call_messages(s.tool_calls)
    + opt_prefixed_messages(Role::User, "Observation image: "@, s.observations_images)
    + (match s.observations {
        Some(o) => seq![message_of(Role::Tool, "Observations:\n"@ + o@)],
        None => Seq::empty(),
    })
    + (match s.error {
        Some(e) => seq![message_of(Role::Tool, error_notice(first_call_id(s.tool_calls), e@))],
        None => Seq::empty(),
    })
}

fn tool_call_list_field(cs: &Option<Vec<ToolCall>>) -> (r: FieldValue)
    ensures
        is_tool_call_list(r, *cs),
{
    match cs {
        None => FieldValue::Null,
        Some(cs) => {
            let mut items: Vec<FieldValue> = Vec::new();
            let mut k: usize = 0;
            while k < cs.len()
                invariant
                    k <= cs.len(),
                    items@.len() == k,
                    forall|i: int| 0 <= i < k ==> is_tool_call_record(#[trigger] items@[i], cs@[i]),
                decreases cs.len() - k,
            {
                items.push(cs[k].to_record());
                k = k + 1;
            }
            FieldValue::List(items)
        },
    }
}

fn push_tool_calls(out: &mut Vec<Message>, cs: &Vec<ToolCall>)
    ensures
        message_views(final(out)@) == message_views(old(out)@) + tool_call_messages(Some(*cs)),
{
    let ghost start = message_views(out@);
    let ghost all = tool_call_messages(Some(*cs));
    let mut k: usize = 0;
    while k < cs.len()
        invariant
            k <= cs.len(),
            all == tool_call_messages(Some(*cs)),
            message_views(out@) == start + all.take(k as int),
        decreases cs.len() - k,
    {
        let mut c = String::from_str("Calling tools:\n");
        let j = cs[k].to_json();
        c.append(j.as_str());
        push_message(out, Role::Tool, c);
        assert(all.take(k as int + 1) =~= all.take(k as int).push(all[k as int]));
        k = k + 1;
    }
    assert(all.take(cs.len() as int) =~= all);
}

impl ActionStep {
    /// The record, with the input messages only when `with_inputs` holds.
    pub fn record(&self, with_inputs: bool) -> (r: Vec<(String, FieldValue)>)
        ensures
            is_action_record(r@, *self, with_inputs),
    {
        let mut r: Vec<(String, FieldValue)> = Vec::new();
        r.push((String::from_str("step_number"), FieldValue::Number(self.step_number as i128)));
        r.push((String::from_str("timing"), self.timing.to_record()));
        if with_inputs {
            r.push((String::from_str("model_input_messages"), opt_message_list_field(&self.model_input_messages)));
        }
        r.push((String::from_str("tool_calls"), tool_call_list_field(&self.tool_calls)));
        r.push((String::from_str("error"), opt_text_field(&self.error)));
        r.push((String::from_str("model_output_message"), opt_message_field(&self.model_output_message)));
        r.push((String::from_str("model_output"), opt_text_field(&self.model_output)));
        r.push((String::from_str("code_action"), opt_text_field(&self.code_action)));
        r.push((String::from_str("observations"), opt_text_field(&self.observations)));
        r.push((String::from_str("observations_images"), opt_text_list_field(&self.observations_images)));
        r.push((String::from_str("action_output"), opt_text_field(&self.action_output)));
        r.push((String::from_str("token_usage"), usage_field(&self.token_usage)));
        r.push((String::from_str("is_final_answer"), FieldValue::Bool(self.is_final_answer)));
        assert(keys_of(r@) =~= action_record_keys(with_inputs));
        r
    }

    /// The full record.
    pub fn to_record(&self) -> (r: Vec<(String, FieldValue)>)
        ensures
            is_action_record(r@, *self, true),
    {
        self.record(true)
    }

    pub fn to_messages(&self, summary_mode: bool) -> (r: Vec<Message>)
        ensures
            message_views(r@) == action_messages(*self, summary_mode),
    {
        let mut r: Vec<Message> = Vec::new();
        match &self.model_output {
            Some(o) => {
                if !summary_mode {
                    push_message(&mut r, Role::Assistant, o.clone());
                }
            },
            None => {},
        }
        match &self.tool_calls {
            Some(cs) => push_tool_calls(&mut r, cs),
            None => {},
        }
        match &self.observations_images {
            Some(images) => push_prefixed(&mut r, Role::User, "Observation image: ", images),
            None => {},
        }
        match &self.observations {
            Some(o) => {
                let mut c = String::from_str("Observations:\n");
                c.append(o.as_str());
                push_message(&mut r, Role::Tool, c);
            },
            None => {},
        }
        match &self.error {
            Some(e) => {
                let mut c = String::from_str("Call id: ");
                let none = String::from_str("None");
                let id: &String = match &self.tool_calls {
                    Some(cs) => if cs.len() > 0 { &cs[0].id } else { &none },
                    None => &none,
                };
                c.append(id.as_str());
                c.append("\n");
                c.append("Error occurred: ");
                c.append(e.as_str());
                c.append("\nNow let's retry: take care not to repeat previous errors! If you have retried several times, try a completely different approach.\n");
                push_message(&mut r, Role::Tool, c);
            },
            None => {},
        }
        assert(message_views(r@) =~= action_messages(*self, summary_mode));
        r
    }
}

/// The kind of a step, by which observers register.
#[derive(Clone, Copy, Debug, PartialEq, Eq, Structural)]
pub enum StepKind {
    SystemPrompt,
    Task,
    Planning,
    Action,
    FinalAnswer,
}

/// One recorded unit of a run's history.
#[derive(Clone, Debug)]
pub enum Step {
    SystemPrompt(SystemPromptStep),
    Task(TaskStep),
    Planning(PlanningStep),
    Action(ActionStep),
    FinalAnswer(FinalAnswerStep),
}

pub open spec fn kind_of(s: Step) -> StepKind {
    match s {
        Step::SystemPrompt(_) => StepKind::SystemPrompt,
        Step::Task(_) => StepKind::Task,
        Step::Planning(_) => StepKind::Planning,
        Step::Action(_) => StepKind::Action,
        Step::FinalAnswer(_) => StepKind::FinalAnswer,
    }
}

/// The step's record; `with_inputs` keeps the input messages of the kinds that
/// have them.
pub open spec fn is_step_record(r: Seq<(String, FieldValue)>, s: Step, with_inputs: bool) -> bool {
    match s {
        Step::SystemPrompt(p) => is_system_prompt_record(r, p),
        Step::Task(t) => is_task_record(r, t),
        Step::Planning(p) => is_planning_record(r, p, with_inputs),
        Step::Action(a) => is_action_record(r, a, with_inputs),
        Step::FinalAnswer(f) => is_final_answer_record(r, f),
    }
}

pub open spec fn step_messages(s: Step, summary_mode: bool) -> Seq<MessageView> {
    match s {
        Step::SystemPrompt(p) => system_prompt_messages(p, summary_mode),
        Step::Task(t) => task_messages(t),
        Step::Planning(p) => planning_messages(p, summary_mode),
        Step::Action(a) => action_messages(a, summary_mode),
        Step::FinalAnswer(f) => final_answer_messages(f, summary_mode),
    }
}

impl Step {
    pub fn kind(&self) -> (r: StepKind)
        ensures
            r == kind_of(*self),
    {
        match self {
            Step::SystemPrompt(_) => StepKind::SystemPrompt,
            Step::Task(_) => StepKind::Task,
            Step::Planning(_) => StepKind::Planning,
            Step::Action(_) => StepKind::Action,
            Step::FinalAnswer(_) => StepKind::FinalAnswer,
        }
    }

    pub fn record(&self, with_inputs: bool) -> (r: Vec<(String, FieldValue)>)
        ensures
            is_step_record(r@, *self, with_inputs),
    {
        match self {
            Step::SystemPrompt(p) => p.to_record(),
            Step::Task(t) => t.to_record(),
            Step::Planning(p) => p.record(with_inputs),
            Step::Action(a) => a.record(with_inputs),
            Step::FinalAnswer(f) => f.to_record(),
        }
    }

    pub fn to_messages(&self, summary_mode: bool) -> (r: Vec<Message>)
        ensures
            message_views(r@) == step_messages(*self, summary_mode),
    {
        match self {
            Step::SystemPrompt(p) => p.to_messages(summary_mode),
            Step::Task(t) => t.to_messages(summary_mode),
            Step::Planning(p) => p.to_messages(summary_mode),
            Step::Action(a) => a.to_messages(summary_mode),
            Step::FinalAnswer(f) => f.to_messages(summary_mode),
        }
    }
}

/// The `code_action` of each action step that has one, in log order.
pub open spec fn code_actions(steps: Seq<Step>) -> Seq<Seq<char>>
    decreases steps.len(),
{
    if steps.len() == 0 {
        Seq::empty()
    } else {
        let before = code_actions(steps.drop_last());
        match steps.last() {
            Step::Action(a) => match a.code_action {
                Some(c) => before.push(c@),
                None => before,
            },
            _ => before,
        }
    }
}

/// One record per step, in log order.
pub open spec fn records_of(rs: Seq<Vec<(String, FieldValue)>>, steps: Seq<Step>, with_inputs: bool) -> bool {
    &&& rs.len() == steps.len()
    &&& forall|i: int| 0 <= i < steps.len() ==> is_step_record(#[trigger] rs[i]@, steps[i], with_inputs)
}

/// The messages of each step, in log order.
pub open spec fn log_messages(steps: Seq<Step>, summary_mode: bool) -> Seq<MessageView>
    decreases steps.len(),
{
    if steps.len() == 0 {
        Seq::empty()
    } else {
        log_messages(steps.drop_last(), summary_mode) + step_messages(steps.last(), summary_mode)
    }
}

/// The history of a run: its system prompt and its steps in the order they
/// were appended.
#[derive(Clone, Debug)]
pub struct AgentMemory {
    pub system_prompt: SystemPromptStep,
    pub steps: Vec<Step>,
}

impl AgentMemory {
    /// An empty log under the given system prompt.
    pub fn new(system_prompt: String) -> (r: AgentMemory)
        ensures
            r.system_prompt.system_prompt == system_prompt,
            r.steps@.len() == 0,
    {
        AgentMemory { system_prompt: SystemPromptStep { system_prompt }, steps: Vec::new() }
    }

    /// Clears the steps and keeps the system prompt.
    pub fn reset(&mut self)
        ensures
            final(self).system_prompt == old(self).system_prompt,
            final(self).steps@.len() == 0,
    {
        self.steps = Vec::new();
    }

    /// Adds `step` at the tail.
    pub fn append(&mut self, step: Step)
        ensures
            final(self).system_prompt == old(self).system_prompt,
            final(self).steps@ == old(self).steps@.push(step),
    {
        self.steps.push(step);
    }

    fn records(&self, with_inputs: bool) -> (r: Vec<Vec<(String, FieldValue)>>)
        ensures
            records_of(r@, self.steps@, with_inputs),
    {
        let mut r: Vec<Vec<(String, FieldValue)>> = Vec::new();
        let mut k: usize = 0;
        while k < self.steps.len()
            invariant
                k <= self.steps.len(),
                r@.len() == k,
                forall|i: int| 0 <= i < k ==> is_step_record(#[trigger] r@[i]@, self.steps@[i], with_inputs),
            decreases self.steps.len() - k,
        {
            r.push(self.steps[k].record(with_inputs));
            k = k + 1;
        }
        r
    }

    /// Each step's record without its input messages, in log order.
    pub fn get_succinct_steps(&self) -> (r: Vec<Vec<(String, FieldValue)>>)
        ensures
            records_of(r@, self.steps@, false),
    {
        self.records(false)
    }

    /// Each step's full record, in log order.
    pub fn get_full_steps(&self) -> (r: Vec<Vec<(String, FieldValue)>>)
        ensures
            r@.len() == self.steps@.len(),
            records_of(r@, self.steps@, true),
    {
        self.records(true)
    }

    /// The system prompt's messages, then each step's, in log order.
    pub fn write_to_messages(&self, summary_mode: bool) -> (r: Vec<Message>)
        ensures
            message_views(r@) == system_prompt_messages(self.system_prompt, summary_mode)
                + log_messages(self.steps@, summary_mode),
    {
        let mut r = self.system_prompt.to_messages(summary_mode);
        let ghost start = message_views(r@);
        let mut k: usize = 0;
        while k < self.steps.len()
            invariant
                k <= self.steps.len(),
                message_views(r@) == start + log_messages(self.steps@.take(k as int), summary_mode),
            decreases self.steps.len() - k,
        {
            let ms = self.steps[k].to_messages(summary_mode);
            let ghost before = r@;
            let mut j: usize = 0;
            while j < ms.len()
                invariant
                    j <= ms.len(),
                    message_views(r@) == message_views(before) + message_views(ms@).take(j as int),
                decreases ms.len() - j,
            {
                let ghost prev = r@;
                r.push(ms[j].duplicate());
                assert(message_views(r@) =~= message_views(prev).push(ms@[j as int]@));
                assert(message_views(ms@).take(j as int + 1) =~= message_views(ms@).take(j as int).push(ms@[j as int]@));
                assert(message_views(r@) =~= message_views(before) + message_views(ms@).take(j as int + 1));
                j = j + 1;
            }
            assert(message_views(ms@).take(ms.len() as int) =~= message_views(ms@));
            assert(self.steps@.take(k as int + 1).drop_last() =~= self.steps@.take(k as int));
            assert(message_views(r@) =~= start + log_messages(self.steps@.take(k as int + 1), summary_mode));
            k = k + 1;
        }
        assert(self.steps@.take(self.steps.len() as int) =~= self.steps@);
        r
    }

    /// The whole log as messages, nothing suppressed.
    pub fn replay(&self) -> (r: Vec<Message>)
        ensures
            message_views(r@) == system_prompt_messages(self.system_prompt, false)
                + log_messages(self.steps@, false),
    {
        self.write_to_messages(false)
    }

    /// The `code_action` of every action step that has one, in log order,
    /// separated by a blank line.
    pub fn return_full_code(&self) -> (r: String)
        ensures
            r@ == joined(code_actions(self.steps@), "\n\n"@),
    {
        let mut codes: Vec<String> = Vec::new();
        let mut k: usize = 0;
        while k < self.steps.len()
            invariant
                k <= self.steps.len(),
                crate::text::text_views(codes@) == code_actions(self.steps@.take(k as int)),
            decreases self.steps.len() - k,
        {
            assert(self.steps@.take(k as int + 1).drop_last() =~= self.steps@.take(k as int));
            match &self.steps[k] {
                Step::Action(a) => match &a.code_action {
                    Some(c) => {
                        codes.push(c.clone());
                        assert(crate::text::text_views(codes@) =~= code_actions(self.steps@.take(k as int)).push(c@));
                    },
                    None => {},
                },
                _ => {},
            }
            k = k + 1;
        }
        assert(self.steps@.take(self.steps.len() as int) =~= self.steps@);
        join_texts(&codes, "\n\n")
    }
}

/// Succinct records never carry a `model_input_messages` field; full records
/// of the kinds that have input messages always do.
pub proof fn lemma_succinct_records_drop_inputs(
    steps: Seq<Step>,
    succinct: Seq<Vec<(String, FieldValue)>>,
    full: Seq<Vec<(String, FieldValue)>>,
)
    requires
        records_of(succinct, steps, false),
        records_of(full, steps, true),
    ensures
        forall|i: int| 0 <= i < steps.len() ==> !keys_of(#[trigger] succinct[i]@).contains("model_input_messages"@),
        forall|i: int|
            0 <= i < steps.len() && (steps[i] is Planning || steps[i] is Action) ==> keys_of(#[trigger] full[i]@).contains(
                "model_input_messages"@,
            ),
{
    lemma_input_key_distinct();
    assert forall|i: int| 0 <= i < steps.len() implies !keys_of(#[trigger] succinct[i]@).contains("model_input_messages"@) by {
        assert(is_step_record(succinct[i]@, steps[i], false));
    }
    assert forall|i: int|
        0 <= i < steps.len() && (steps[i] is Planning || steps[i] is Action) implies keys_of(#[trigger] full[i]@).contains(
            "model_input_messages"@,
        ) by {
        assert(is_step_record(full[i]@, steps[i], true));
        match steps[i] {
            Step::Planning(_) => assert(keys_of(full[i]@)[0] == "model_input_messages"@),
            Step::Action(_) => assert(keys_of(full[i]@)[2] == "model_input_messages"@),
            _ => {},
        }
    }
}

proof fn lemma_input_key_distinct()
    ensures
        !task_record_keys().contains("model_input_messages"@),
        !system_prompt_record_keys().contains("model_input_messages"@),
        !final_answer_record_keys().contains("model_input_messages"@),
        !planning_record_keys(false).contains("model_input_messages"@),
        !action_record_keys(false).contains("model_input_messages"@),
{
    reveal_strlit("model_input_messages");
    reveal_strlit("task");
    reveal_strlit("task_images");
    reveal_strlit("system_prompt");
    reveal_strlit("output");
    reveal_strlit("model_output_message");
    reveal_strlit("plan");
    reveal_strlit("timing");
    reveal_strlit("token_usage");
    reveal_strlit("step_number");
    reveal_strlit("tool_calls");
    reveal_strlit("error");
    reveal_strlit("model_output");
    reveal_strlit("code_action");
    reveal_strlit("observations");
    reveal_strlit("observations_images");
    reveal_strlit("action_output");
    reveal_strlit("is_final_answer");
    let m = "model_input_messages"@;
    assert("model_output_message"@[6] != m[6]);
    assert("task"@.len() != m.len());
    assert("task_images"@.len() != m.len());
    assert("output"@.len() != m.len());
    assert(task_record_keys()[0] != m);
    assert(task_record_keys()[1] != m);
    assert(!task_record_keys().contains(m));
    assert(!system_prompt_record_keys().contains(m));
    assert(!final_answer_record_keys().contains(m));
    assert(!planning_record_keys(false).contains(m));
    assert(!action_record_keys(false).contains(m));
}

/// The positions, in registration order, of the entries registered for `kind`.
pub open spec fn registered_for<C>(es: Seq<(StepKind, C)>, kind: StepKind) -> Seq<int>
    decreases es.len(),
{
    if es.len() == 0 {
        Seq::empty()
    } else {
        let before = registered_for(es.drop_last(), kind);
        if es.last().0 == kind {
            before.push(es.len() - 1)
        } else {
            before
        }
    }
}

/// Observers of new steps, each registered for one kind of step.
pub struct CallbackRegistry<C> {
    pub entries: Vec<(StepKind, C)>,
}

impl<C> CallbackRegistry<C> {
    pub fn new() -> (r: Self)
        ensures
            r.entries@.len() == 0,
    {
        CallbackRegistry { entries: Vec::new() }
    }

    /// Adds `callback` after those already registered.
    pub fn register(&mut self, kind: StepKind, callback: C)
        ensures
            final(self).entries@ == old(self).entries@.push((kind, callback)),
    {
        self.entries.push((kind, callback));
    }

    /// The positions of the callbacks to invoke for a step of `kind`, in
    /// registration order.
    pub fn callbacks_for(&self, kind: StepKind) -> (r: Vec<usize>)
        ensures
            r@.map_values(|i: usize| i as int) == registered_for(self.entries@, kind),
    {
        let mut r: Vec<usize> = Vec::new();
        let mut k: usize = 0;
        while k < self.entries.len()
            invariant
                k <= self.entries.len(),
                r@.map_values(|i: usize| i as int) == registered_for(self.entries@.take(k as int), kind),
            decreases self.entries.len() - k,
        {
            assert(self.entries@.take(k as int + 1).drop_last() =~= self.entries@.take(k as int));
            if self.entries[k].0 == kind {
                let ghost before = r@;
                r.push(k);
                assert(r@.map_values(|i: usize| i as int) =~= before.map_values(|i: usize| i as int).push(k as int));
            }
            k = k + 1;
        }
        assert(self.entries@.take(self.entries.len() as int) =~= self.entries@);
        r
    }

    /// The callback at a position that `callbacks_for` returned.
    pub fn get(&self, i: usize) -> (r: &C)
        requires
            i < self.entries@.len(),
        ensures
            *r == self.entries@[i as int].1,
    {
        &self.entries[i].1
    }
}

} // verus!
