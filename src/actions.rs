//! Declared actions, their parameter schema, and the matching of
//! caller-supplied inputs against that schema.

use vstd::prelude::*;
use crate::text::{
    decimal, decimal_text, eq_ignoring_ascii_case, join_texts, joined, same_ignoring_ascii_case,
};

verus! {

/// One declared parameter of an action.
#[derive(Clone, Debug)]
pub struct Parameter {
    pub name: String,
    pub dtype: String,
    pub description: String,
}

pub struct ParameterView {
    pub name: Seq<char>,
    pub dtype: Seq<char>,
    pub description: Seq<char>,
}

impl View for Parameter {
    type V = ParameterView;

    open spec fn view(&self) -> ParameterView {
        ParameterView { name: self.name@, dtype: self.dtype@, description: self.description@ }
    }
}

/// A caller-supplied candidate value for a parameter.
#[derive(Clone, Debug)]
pub struct ActionInput {
    pub key: String,
    pub value: String,
    pub dtype: String,
}

pub struct ActionInputView {
    pub key: Seq<char>,
    pub value: Seq<char>,
    pub dtype: Seq<char>,
}

impl View for ActionInput {
    type V = ActionInputView;

    open spec fn view(&self) -> ActionInputView {
        ActionInputView { key: self.key@, value: self.value@, dtype: self.dtype@ }
    }
}

impl ActionInput {
    /// A field-by-field copy.
    pub fn duplicate(&self) -> (r: ActionInput)
        ensures
            r@ == self@,
    {
        ActionInput { key: self.key.clone(), value: self.value.clone(), dtype: self.dtype.clone() }
    }
}

pub open spec fn parameter_views(ps: Seq<Parameter>) -> Seq<ParameterView> {
    ps.map_values(|p: Parameter| p@)
}

pub open spec fn input_views(xs: Seq<ActionInput>) -> Seq<ActionInputView> {
    xs.map_values(|x: ActionInput| x@)
}

/// The input names the parameter and carries its type, the type compared
/// without regard to ASCII case.
pub open spec fn accepts(p: ParameterView, x: ActionInputView) -> bool {
    p.name == x.key && eq_ignoring_ascii_case(p.dtype, x.dtype)
}

/// The first input, in supplied order, that the parameter accepts.
pub open spec fn first_accepted(p: ParameterView, xs: Seq<ActionInputView>) -> Option<ActionInputView>
    decreases xs.len(),
{
    if xs.len() == 0 {
        None
    } else if accepts(p, xs[0]) {
        Some(xs[0])
    } else {
        first_accepted(p, xs.drop_first())
    }
}

/// For each declared parameter in order, its name paired with the first input
/// it accepts; parameters that accept no input contribute nothing.
pub open spec fn matched_inputs(ps: Seq<ParameterView>, xs: Seq<ActionInputView>) -> Seq<(Seq<char>, ActionInputView)>
    decreases ps.len(),
{
    if ps.len() == 0 {
        Seq::empty()
    } else {
        let before = matched_inputs(ps.drop_last(), xs);
        match first_accepted(ps.last(), xs) {
            Some(x) => before.push((ps.last().name, x)),
            None => before,
        }
    }
}

/// The first input that a parameter accepts is one that it accepts, and none
/// before it is; when there is none, it accepts no input at all.
pub proof fn lemma_first_accepted(p: ParameterView, xs: Seq<ActionInputView>)
    ensures
        match first_accepted(p, xs) {
            Some(x) => exists|j: int|
                0 <= j < xs.len() && xs[j] == x && accepts(p, x) && forall|k: int|
                    0 <= k < j ==> !accepts(p, #[trigger] xs[k]),
            None => forall|k: int| 0 <= k < xs.len() ==> !accepts(p, #[trigger] xs[k]),
        },
    decreases xs.len(),
{
    if xs.len() > 0 {
        let rest = xs.drop_first();
        lemma_first_accepted(p, rest);
        if accepts(p, xs[0]) {
            assert(xs[0] == xs[0] && accepts(p, xs[0]));
        } else {
            match first_accepted(p, rest) {
                Some(x) => {
                    let j = choose|j: int|
                        0 <= j < rest.len() && rest[j] == x && accepts(p, x) && forall|k: int|
                            0 <= k < j ==> !accepts(p, #[trigger] rest[k]);
                    assert forall|k: int| 0 <= k < j + 1 implies !accepts(p, #[trigger] xs[k]) by {
                        if k > 0 {
                            assert(xs[k] == rest[k - 1]);
                        }
                    }
                    assert(xs[j + 1] == x);
                },
                None => {
                    assert forall|k: int| 0 <= k < xs.len() implies !accepts(p, #[trigger] xs[k]) by {
                        if k > 0 {
                            assert(xs[k] == rest[k - 1]);
                        }
                    }
                },
            }
        }
    }
}

/// Matching inputs against a schema yields, in declaration order, one entry
/// for each declared parameter that accepts some input and for no other: the
/// parameter's name with the first supplied input it accepts. The returned
/// positions say which parameter each entry belongs to.
pub proof fn lemma_matched_inputs(ps: Seq<ParameterView>, xs: Seq<ActionInputView>) -> (pos: Seq<int>)
    ensures
        pos.len() == matched_inputs(ps, xs).len(),
        forall|e: int| 0 <= e < pos.len() ==> {
            &&& 0 <= #[trigger] pos[e] < ps.len()
            &&& first_accepted(ps[pos[e]], xs) is Some
            &&& matched_inputs(ps, xs)[e] == (ps[pos[e]].name, first_accepted(ps[pos[e]], xs)->0)
        },
        forall|e1: int, e2: int| 0 <= e1 < e2 < pos.len() ==> pos[e1] < pos[e2],
        forall|q: int| 0 <= q < ps.len() && (first_accepted(ps[q], xs) is Some) ==> pos.contains(q),
    decreases ps.len(),
{
    if ps.len() == 0 {
        Seq::<int>::empty()
    } else {
        let init = ps.drop_last();
        let prev = lemma_matched_inputs(init, xs);
        let last = ps.len() - 1;
        assert forall|i: int| 0 <= i < init.len() implies init[i] == ps[i] by {}
        match first_accepted(ps.last(), xs) {
            Some(x) => {
                let pos = prev.push(last);
                assert forall|q: int| 0 <= q < ps.len() && (first_accepted(ps[q], xs) is Some) implies pos.contains(q) by {
                    if q == last {
                        assert(pos[pos.len() - 1] == q);
                    } else {
                        assert(init[q] == ps[q]);
                        assert(first_accepted(init[q], xs) is Some);
                        assert(prev.contains(q));
                        let e = choose|e: int| 0 <= e < prev.len() && prev[e] == q;
                        assert(pos[e] == q);
                    }
                }
                pos
            },
            None => {
                assert forall|q: int| 0 <= q < ps.len() && (first_accepted(ps[q], xs) is Some) implies prev.contains(q) by {
                    assert(q != last);
                    assert(init[q] == ps[q]);
                }
                prev
            },
        }
    }
}

pub open spec fn entry_views(es: Seq<(String, ActionInput)>) -> Seq<(Seq<char>, ActionInputView)> {
    es.map_values(|e: (String, ActionInput)| (e.0@, e.1@))
}

/// Matches `inputs` against the declared `params`: for each parameter, in
/// declaration order, the first input whose key equals its name and whose type
/// equals its type without regard to ASCII case. Inputs that no parameter
/// accepts are dropped.
pub fn prepare_inputs(params: &Vec<Parameter>, inputs: &Vec<ActionInput>) -> (r: Vec<(String, ActionInput)>)
    ensures
        entry_views(r@) == matched_inputs(parameter_views(params@), input_views(inputs@)),
{
    let ghost ps = parameter_views(params@);
    let ghost xs = input_views(inputs@);
    let mut r: Vec<(String, ActionInput)> = Vec::new();
    let mut k: usize = 0;
    while k < params.len()
        invariant
            k <= params.len(),
            ps == parameter_views(params@),
            xs == input_views(inputs@),
            entry_views(r@) == matched_inputs(ps.take(k as int), xs),
        decreases params.len() - k,
    {
        let p = &params[k];
        let mut j: usize = 0;
        let mut found: Option<usize> = None;
        assert(xs.skip(0) =~= xs);
        while j < inputs.len()
            invariant_except_break
                found.is_none(),
            invariant
                j <= inputs.len(),
                xs == input_views(inputs@),
                k < params.len(),
                ps == parameter_views(params@),
                p@ == ps[k as int],
                first_accepted(p@, xs) == first_accepted(p@, xs.skip(j as int)),
            ensures
                match found {
                    Some(i) => i < inputs.len() && first_accepted(p@, xs) == Some(xs[i as int]),
                    None => first_accepted(p@, xs) is None,
                },
            decreases inputs.len() - j,
        {
            let x = &inputs[j];
            assert(xs.skip(j as int)[0] == x@);
            if p.name == x.key && same_ignoring_ascii_case(p.dtype.as_str(), x.dtype.as_str()) {
                found = Some(j);
                assert(xs[j as int] == x@);
                break;
            }
            assert(xs.skip(j as int).drop_first() =~= xs.skip(j as int + 1));
            j = j + 1;
        }
        proof {
            assert(ps.take(k as int + 1).drop_last() =~= ps.take(k as int));
            assert(ps.take(k as int + 1).last() == p@);
        }
        match found {
            Some(i) => {
                let e = (p.name.clone(), inputs[i].duplicate());
                r.push(e);
                assert(entry_views(r@) =~= matched_inputs(ps.take(k as int), xs).push((p@.name, inputs@[i as int]@)));
            }
            None => {}
        }
        k = k + 1;
    }
    assert(ps.take(params.len() as int) =~= ps);
    r
}

/// `name: { type: dtype, description: description }`.
pub open spec fn parameter_text(p: ParameterView) -> Seq<char> {
    p.name + ": { type: "@ + p.dtype + ", description: "@ + p.description + " }"@
}

impl Parameter {
    /// The parameter as it appears in an action's description.
    pub fn to_text(&self) -> (r: String)
        ensures
            r@ == parameter_text(self@),
    {
        let mut r = self.name.clone();
        r.append(": { type: ");
        r.append(self.dtype.as_str());
        r.append(", description: ");
        r.append(self.description.as_str());
        r.append(" }");
        r
    }
}

/// What every action declares: its name, what it does, its parameters in
/// significant order, and the type of its output.
#[derive(Clone, Debug)]
pub struct ActionBase {
    pub name: String,
    pub description: String,
    pub parameters: Vec<Parameter>,
    pub output_type: String,
}

pub open spec fn parameter_texts(ps: Seq<ParameterView>) -> Seq<Seq<char>> {
    ps.map_values(|p: ParameterView| parameter_text(p))
}

/// The description of an action that planning prompts list among the tools.
pub open spec fn action_text(a: ActionBase) -> Seq<char> {
    "- "@ + a.name@ + ": "@ + a.description@ + "\n\tTakes inputs: ["@
        + joined(parameter_texts(parameter_views(a.parameters@)), ", "@)
        + "]\n\tReturns an output of type: "@ + a.output_type@
}

/// The result of invoking an action.
#[derive(Clone, Debug)]
pub struct Observation {
    pub result: String,
}

/// An action failed while running: the action's name and the cause.
#[derive(Clone, Debug)]
pub struct ActionInvocationError {
    pub action: String,
    pub cause: String,
}

impl ActionBase {
    /// The declared parameter schema, in declaration order.
    pub fn get_parameters(&self) -> (r: &Vec<Parameter>)
        ensures
            r == &self.parameters,
    {
        &self.parameters
    }

    /// The inputs this action accepts, as `prepare_inputs` matches them.
    pub fn prepare_inputs(&self, inputs: &Vec<ActionInput>) -> (r: Vec<(String, ActionInput)>)
        ensures
            entry_views(r@) == matched_inputs(parameter_views(self.parameters@), input_views(inputs@)),
    {
        prepare_inputs(&self.parameters, inputs)
    }

    /// Name, description, parameters and output type, on three lines.
    pub fn as_str(&self) -> (r: String)
        ensures
            r@ == action_text(*self),
    {
        let mut texts: Vec<String> = Vec::new();
        let mut k: usize = 0;
        while k < self.parameters.len()
            invariant
                k <= self.parameters.len(),
                texts@.len() == k,
                forall|i: int| 0 <= i < k ==> #[trigger] texts@[i]@ == parameter_text(self.parameters@[i]@),
            decreases self.parameters.len() - k,
        {
            let t = self.parameters[k].to_text();
            texts.push(t);
            k = k + 1;
        }
        let listed = join_texts(&texts, ", ");
        assert(crate::text::text_views(texts@) =~= parameter_texts(parameter_views(self.parameters@)));
        let mut r = String::new();
        r.append("- ");
        r.append(self.name.as_str());
        r.append(": ");
        r.append(self.description.as_str());
        r.append("\n\tTakes inputs: [");
        r.append(listed.as_str());
        r.append("]\n\tReturns an output of type: ");
        r.append(self.output_type.as_str());
        r
    }
}

/// The schema shared by the two search actions: one text `query`.
pub open spec fn is_query_schema(ps: Seq<Parameter>) -> bool {
    &&& ps.len() == 1
    &&& ps[0].name@ == "query"@
    &&& ps[0].dtype@ == "String"@
    &&& ps[0].description@ == "Search query"@
}

fn query_schema() -> (r: Vec<Parameter>)
    ensures
        is_query_schema(r@),
{
    let p = Parameter {
        name: String::from_str("query"),
        dtype: String::from_str("String"),
        description: String::from_str("Search query"),
    };
    let mut r: Vec<Parameter> = Vec::new();
    r.push(p);
    r
}

/// News search through Naver's API.
pub struct NaverNewsSearchAction {
    pub info: ActionBase,
    pub client_id: String,
    pub client_secret: String,
}

/// Web search through the `duckduckgo` command-line client.
pub struct DuckDuckGoSearchAction {
    pub info: ActionBase,
}

/// `Matched n input(s)`.
pub open spec fn matched_count_text(n: nat) -> Seq<char> {
    "Matched "@ + decimal(n) + " input(s)"@
}

impl NaverNewsSearchAction {
    pub fn new(client_id: String, client_secret: String) -> (r: Self)
        ensures
            r.info.name@ == "NaverNewsSearchAction"@,
            r.info.description@ == "Search the web using Naver News"@,
            is_query_schema(r.info.parameters@),
            r.info.output_type@ == "String"@,
            r.client_id == client_id,
            r.client_secret == client_secret,
    {
        NaverNewsSearchAction {
            info: ActionBase {
                name: String::from_str("NaverNewsSearchAction"),
                description: String::from_str("Search the web using Naver News"),
                parameters: query_schema(),
                output_type: String::from_str("String"),
            },
            client_id,
            client_secret,
        }
    }

    pub fn as_str(&self) -> (r: String)
        ensures
            r@ == action_text(self.info),
    {
        self.info.as_str()
    }

    pub fn get_parameters(&self) -> (r: &Vec<Parameter>)
        ensures
            r == &self.info.parameters,
    {
        &self.info.parameters
    }

    /// Reports how many of `inputs` the schema accepts.
    pub fn act(&self, inputs: &Vec<ActionInput>) -> (r: Observation)
        ensures
            r.result@ == matched_count_text(
                matched_inputs(parameter_views(self.info.parameters@), input_views(inputs@)).len(),
            ),
    {
        let matched = self.info.prepare_inputs(inputs);
        let mut result = String::from_str("Matched ");
        let count = decimal_text(matched.len());
        result.append(count.as_str());
        result.append(" input(s)");
        Observation { result }
    }
}

/// The value of the accepted `query` input, if the schema accepted one.
pub open spec fn query_value(es: Seq<(Seq<char>, ActionInputView)>) -> Option<Seq<char>>
    decreases es.len(),
{
    if es.len() == 0 {
        None
    } else if es[0].0 == "query"@ {
        Some(es[0].1.value)
    } else {
        query_value(es.drop_first())
    }
}

/// `--query=` followed by the query.
pub open spec fn query_argument(q: Seq<char>) -> Seq<char> {
    "--query="@ + q
}

fn find_query(es: &Vec<(String, ActionInput)>) -> (r: Option<usize>)
    ensures
        match r {
            Some(i) => i < es@.len() && query_value(entry_views(es@)) == Some(es@[i as int].1.value@),
            None => query_value(entry_views(es@)) is None,
        },
{
    let ghost v = entry_views(es@);
    let key = String::from_str("query");
    let mut j: usize = 0;
    assert(v.skip(0) =~= v);
    while j < es.len()
        invariant
            j <= es.len(),
            v == entry_views(es@),
            key@ == "query"@,
            query_value(v) == query_value(v.skip(j as int)),
        decreases es.len() - j,
    {
        assert(v.skip(j as int)[0] == (es@[j as int].0@, es@[j as int].1@));
        if es[j].0 == key {
            return Some(j);
        }
        assert(v.skip(j as int).drop_first() =~= v.skip(j as int + 1));
        j = j + 1;
    }
    None
}

impl DuckDuckGoSearchAction {
    pub fn new() -> (r: Self)
        ensures
            r.info.name@ == "DuckDuckGoSearchAction"@,
            r.info.description@ == "Search the web using DuckDuckGo"@,
            is_query_schema(r.info.parameters@),
            r.info.output_type@ == "String"@,
    {
        DuckDuckGoSearchAction {
            info: ActionBase {
                name: String::from_str("DuckDuckGoSearchAction"),
                description: String::from_str("Search the web using DuckDuckGo"),
                parameters: query_schema(),
                output_type: String::from_str("String"),
            },
        }
    }

    pub fn as_str(&self) -> (r: String)
        ensures
            r@ == action_text(self.info),
    {
        self.info.as_str()
    }

    pub fn get_parameters(&self) -> (r: &Vec<Parameter>)
        ensures
            r == &self.info.parameters,
    {
        &self.info.parameters
    }

    /// The command-line argument that carries the accepted query to the search
    /// client; without an accepted `query` input the invocation fails, naming
    /// this action.
    pub fn search_argument(&self, inputs: &Vec<ActionInput>) -> (r: Result<String, ActionInvocationError>)
        ensures
            match query_value(matched_inputs(parameter_views(self.info.parameters@), input_views(inputs@))) {
                Some(q) => r matches Ok(a) && a@ == query_argument(q),
                None => r matches Err(e) && e.action@ == self.info.name@ && e.cause@ == "missing input: query"@,
            },
    {
        let matched = self.info.prepare_inputs(inputs);
        match find_query(&matched) {
            Some(i) => {
                let mut a = String::from_str("--query=");
                a.append(matched[i].1.value.as_str());
                Ok(a)
            }
            None => Err(ActionInvocationError {
                action: self.info.name.clone(),
                cause: String::from_str("missing input: query"),
            }),
        }
    }
}

} // verus!
