//! Role-tagged messages and the structured values that step records hold.

use vstd::prelude::*;

verus! {

/// Who a message in a model prompt speaks for.
#[derive(Clone, Copy, Debug, PartialEq, Eq, Structural)]
pub enum Role {
    System,
    User,
    Assistant,
    Tool,
}

pub open spec fn role_name(r: Role) -> Seq<char> {
    match r {
        Role::System => "system"@,
        Role::User => "user"@,
        Role::Assistant => "assistant"@,
        Role::Tool => "tool"@,
    }
}

impl Role {
    /// The role's wire name.
    pub fn name(&self) -> (r: &'static str)
        ensures
            r@ == role_name(*self),
    {
        match self {
            Role::System => "system",
            Role::User => "user",
            Role::Assistant => "assistant",
            Role::Tool => "tool",
        }
    }
}

/// One role-tagged text message of a model prompt.
#[derive(Clone, Debug)]
pub struct Message {
    pub role: Role,
    pub content: String,
}

pub struct MessageView {
    pub role: Role,
    pub content: Seq<char>,
}

impl View for Message {
    type V = MessageView;

    open spec fn view(&self) -> MessageView {
        MessageView { role: self.role, content: self.content@ }
    }
}

pub open spec fn message_views(ms: Seq<Message>) -> Seq<MessageView> {
    ms.map_values(|m: Message| m@)
}

impl Message {
    pub fn new(role: Role, content: String) -> (r: Message)
        ensures
            r.role == role,
            r.content == content,
    {
        Message { role, content }
    }

    /// A field-by-field copy.
    pub fn duplicate(&self) -> (r: Message)
        ensures
            r@ == self@,
    {
        Message { role: self.role, content: self.content.clone() }
    }
}

/// A copy of `ms`, message by message.
pub fn copy_messages(ms: &Vec<Message>) -> (r: Vec<Message>)
    ensures
        message_views(r@) == message_views(ms@),
{
    let mut r: Vec<Message> = Vec::new();
    let mut k: usize = 0;
    while k < ms.len()
        invariant
            k <= ms.len(),
            r@.len() == k,
            forall|i: int| 0 <= i < k ==> #[trigger] r@[i]@ == ms@[i]@,
        decreases ms.len() - k,
    {
        r.push(ms[k].duplicate());
        k = k + 1;
    }
    assert(message_views(r@) =~= message_views(ms@));
    r
}

/// A structured value of a step record, shaped like JSON.
#[derive(Debug)]
pub enum FieldValue {
    Null,
    Bool(bool),
    Number(i128),
    Text(String),
    List(Vec<FieldValue>),
    Object(Vec<(String, FieldValue)>),
}

/// The field names of a record, in order.
pub open spec fn keys_of(r: Seq<(String, FieldValue)>) -> Seq<Seq<char>> {
    r.map_values(|e: (String, FieldValue)| e.0@)
}

pub open spec fn is_text(v: FieldValue, s: Seq<char>) -> bool {
    v matches FieldValue::Text(t) && t@ == s
}

pub open spec fn is_number(v: FieldValue, n: int) -> bool {
    v matches FieldValue::Number(m) && m == n
}

/// `Null` for an absent text, the text otherwise.
pub open spec fn is_opt_text(v: FieldValue, o: Option<String>) -> bool {
    match o {
        None => v is Null,
        Some(t) => is_text(v, t@),
    }
}

/// A list of the texts, in order.
pub open spec fn is_text_list(v: FieldValue, xs: Seq<String>) -> bool {
    match v {
        FieldValue::List(items) => items@.len() == xs.len() && forall|i: int|
            0 <= i < xs.len() ==> is_text(#[trigger] items@[i], xs[i]@),
        _ => false,
    }
}

pub open spec fn is_opt_text_list(v: FieldValue, o: Option<Vec<String>>) -> bool {
    match o {
        None => v is Null,
        Some(xs) => is_text_list(v, xs@),
    }
}

/// A record with exactly the fields `role` and `content`.
pub open spec fn is_message(v: FieldValue, m: MessageView) -> bool {
    match v {
        FieldValue::Object(fs) => {
            &&& keys_of(fs@) == seq!["role"@, "content"@]
            &&& is_text(fs@[0].1, role_name(m.role))
            &&& is_text(fs@[1].1, m.content)
        },
        _ => false,
    }
}

pub open spec fn is_message_list(v: FieldValue, ms: Seq<MessageView>) -> bool {
    match v {
        FieldValue::List(items) => items@.len() == ms.len() && forall|i: int|
            0 <= i < ms.len() ==> is_message(#[trigger] items@[i], ms[i]),
        _ => false,
    }
}

pub fn text_field(s: &String) -> (r: FieldValue)
    ensures
        is_text(r, s@),
{
    FieldValue::Text(s.clone())
}

pub fn opt_text_field(o: &Option<String>) -> (r: FieldValue)
    ensures
        is_opt_text(r, *o),
{
    match o {
        Some(t) => FieldValue::Text(t.clone()),
        None => FieldValue::Null,
    }
}

pub fn text_list_field(xs: &Vec<String>) -> (r: FieldValue)
    ensures
        is_text_list(r, xs@),
{
    let mut items: Vec<FieldValue> = Vec::new();
    let mut k: usize = 0;
    while k < xs.len()
        invariant
            k <= xs.len(),
            items@.len() == k,
            forall|i: int| 0 <= i < k ==> is_text(#[trigger] items@[i], xs@[i]@),
        decreases xs.len() - k,
    {
        items.push(text_field(&xs[k]));
        k = k + 1;
    }
    FieldValue::List(items)
}

pub fn opt_text_list_field(o: &Option<Vec<String>>) -> (r: FieldValue)
    ensures
        is_opt_text_list(r, *o),
{
    match o {
        Some(xs) => text_list_field(xs),
        None => FieldValue::Null,
    }
}

pub fn message_field(m: &Message) -> (r: FieldValue)
    ensures
        is_message(r, m@),
{
    let mut fs: Vec<(String, FieldValue)> = Vec::new();
    fs.push((String::from_str("role"), FieldValue::Text(String::from_str(m.role.name()))));
    fs.push((String::from_str("content"), text_field(&m.content)));
    assert(keys_of(fs@) =~= seq!["role"@, "content"@]);
    FieldValue::Object(fs)
}

pub fn message_list_field(ms: &Vec<Message>) -> (r: FieldValue)
    ensures
        is_message_list(r, message_views(ms@)),
{
    let mut items: Vec<FieldValue> = Vec::new();
    let mut k: usize = 0;
    while k < ms.len()
        invariant
            k <= ms.len(),
            items@.len() == k,
            forall|i: int| 0 <= i < k ==> is_message(#[trigger] items@[i], ms@[i]@),
        decreases ms.len() - k,
    {
        items.push(message_field(&ms[k]));
        k = k + 1;
    }
    FieldValue::List(items)
}

} // verus!
