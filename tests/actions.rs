use agentic::actions::{
    prepare_inputs, ActionBase, ActionInput, DuckDuckGoSearchAction, NaverNewsSearchAction, Parameter,
};

fn param(name: &str, dtype: &str) -> Parameter {
    Parameter { name: name.to_string(), dtype: dtype.to_string(), description: format!("the {}", name) }
}

fn input(key: &str, value: &str, dtype: &str) -> ActionInput {
    ActionInput { key: key.to_string(), value: value.to_string(), dtype: dtype.to_string() }
}

#[test]
fn prepare_inputs_follows_declaration_order_and_first_match() {
    let params = vec![param("query", "String"), param("limit", "Integer")];
    let inputs = vec![
        input("limit", "5", "integer"),
        input("extra", "x", "String"),
        input("query", "first", "STRING"),
        input("query", "second", "String"),
    ];
    let r = prepare_inputs(&params, &inputs);
    assert_eq!(r.len(), 2);
    assert_eq!(r[0].0, "query");
    assert_eq!(r[0].1.value, "first");
    assert_eq!(r[1].0, "limit");
    assert_eq!(r[1].1.value, "5");
}

#[test]
fn prepare_inputs_drops_type_mismatches_silently() {
    let params = vec![param("query", "String")];
    let inputs = vec![input("query", "q", "Strin"), input("Query", "q", "String")];
    assert!(prepare_inputs(&params, &inputs).is_empty());
    assert!(prepare_inputs(&params, &vec![]).is_empty());
    assert!(prepare_inputs(&vec![], &inputs).is_empty());
}

#[test]
fn type_comparison_ignores_ascii_case_only() {
    let params = vec![param("q", "straße")];
    assert_eq!(prepare_inputs(&params, &vec![input("q", "v", "STRAßE")]).len(), 1);
    assert_eq!(prepare_inputs(&params, &vec![input("q", "v", "STRASSE")]).len(), 0);
}

#[test]
fn parameter_text_and_description() {
    let a = ActionBase {
        name: "Echo".to_string(),
        description: "Repeats".to_string(),
        parameters: vec![param("text", "String"), param("times", "Integer")],
        output_type: "String".to_string(),
    };
    assert_eq!(param("text", "String").to_text(), "text: { type: String, description: the text }");
    assert_eq!(
        a.as_str(),
        "- Echo: Repeats\n\tTakes inputs: [text: { type: String, description: the text }, times: { type: Integer, description: the times }]\n\tReturns an output of type: String"
    );
}

#[test]
fn search_actions_declare_a_query() {
    let n = NaverNewsSearchAction::new("id".to_string(), "secret".to_string());
    assert_eq!(n.info.name, "NaverNewsSearchAction");
    assert_eq!(n.get_parameters().len(), 1);
    assert_eq!(n.get_parameters()[0].name, "query");
    assert_eq!(n.client_id, "id");
    let d = DuckDuckGoSearchAction::new();
    assert_eq!(d.info.name, "DuckDuckGoSearchAction");
    assert_eq!(d.info.description, "Search the web using DuckDuckGo");
    assert!(d.as_str().starts_with("- DuckDuckGoSearchAction: Search the web using DuckDuckGo\n\tTakes inputs: [query: { type: String"));
}

#[test]
fn naver_act_counts_matched_inputs() {
    let n = NaverNewsSearchAction::new("id".to_string(), "secret".to_string());
    let obs = n.act(&vec![input("query", "rust", "string"), input("other", "x", "String")]);
    assert_eq!(obs.result, "Matched 1 input(s)");
    assert_eq!(n.act(&vec![]).result, "Matched 0 input(s)");
}

#[test]
fn duckduckgo_builds_query_argument_or_fails() {
    let d = DuckDuckGoSearchAction::new();
    let ok = d.search_argument(&vec![input("query", "verus verifier", "String")]);
    assert_eq!(ok.unwrap(), "--query=verus verifier");
    let err = d.search_argument(&vec![input("q", "x", "String")]).unwrap_err();
    assert_eq!(err.action, "DuckDuckGoSearchAction");
    assert_eq!(err.cause, "missing input: query");
}
