use happychartsv2::response::{
    action_from_name, parse_prediction, prediction_from_members, strip_code_fences, Prediction,
    ResponseFault,
};
use happychartsv2::Action;

#[test]
fn plain_answer_is_read() {
    let p = parse_prediction(r#"{"action": "long", "rationale": "BTC leads upward"}"#).unwrap();
    assert_eq!(
        p,
        Prediction { action: Action::Long, rationale: "BTC leads upward".to_string() }
    );
}

#[test]
fn fenced_answer_is_read() {
    let answer = "```json\n{\"action\": \"short\", \"rationale\": \"lower highs\"}\n```";
    let p = parse_prediction(answer).unwrap();
    assert_eq!(p.action, Action::Short);
    assert_eq!(p.rationale, "lower highs");
}

#[test]
fn none_and_unknown_actions_read_as_no_trade() {
    assert_eq!(parse_prediction(r#"{"action":"none"}"#).unwrap().action, Action::NoTrade);
    assert_eq!(parse_prediction(r#"{"action":"hold"}"#).unwrap().action, Action::NoTrade);
    assert_eq!(parse_prediction(r#"{"action":"LONG"}"#).unwrap().action, Action::NoTrade);
    assert_eq!(parse_prediction(r#"{"action":""}"#).unwrap().action, Action::NoTrade);
}

#[test]
fn missing_rationale_reads_as_empty() {
    let p = parse_prediction(r#"{"action":"long"}"#).unwrap();
    assert_eq!(p.rationale, "");
    let q = parse_prediction(r#"{"action":"long","rationale":7}"#).unwrap();
    assert_eq!(q.rationale, "");
}

#[test]
fn answer_that_is_no_json_is_a_fault() {
    assert_eq!(parse_prediction("I would go long."), Err(ResponseFault::InvalidJson));
    assert_eq!(parse_prediction(""), Err(ResponseFault::InvalidJson));
    assert_eq!(parse_prediction("{\"action\": \"long\""), Err(ResponseFault::InvalidJson));
    assert_eq!(
        parse_prediction("{\"action\": \"long\"} and more"),
        Err(ResponseFault::InvalidJson)
    );
}

#[test]
fn answer_without_action_is_a_fault() {
    assert_eq!(
        parse_prediction(r#"{"rationale":"no idea"}"#),
        Err(ResponseFault::MissingAction)
    );
    assert_eq!(parse_prediction(r#"{"action": 1}"#), Err(ResponseFault::MissingAction));
    assert_eq!(parse_prediction(r#"{"action": null}"#), Err(ResponseFault::MissingAction));
    assert_eq!(parse_prediction(r#"["long"]"#), Err(ResponseFault::MissingAction));
    assert_eq!(parse_prediction("\"long\""), Err(ResponseFault::MissingAction));
    assert_eq!(parse_prediction("{}"), Err(ResponseFault::MissingAction));
}

#[test]
fn last_of_repeated_keys_counts() {
    let p = parse_prediction(r#"{"action":"long","action":"short"}"#).unwrap();
    assert_eq!(p.action, Action::Short);
}

#[test]
fn escapes_in_strings_are_resolved() {
    let p = parse_prediction(r#"{"action":"long","rationale":"a\n\"b\" é"}"#).unwrap();
    assert_eq!(p.rationale, "a\n\"b\" \u{e9}");
}

#[test]
fn fences_are_stripped() {
    assert_eq!(strip_code_fences("```json\n{}\n```"), "\n{}\n");
    assert_eq!(strip_code_fences("```{}```"), "{}");
    assert_eq!(strip_code_fences("no fences"), "no fences");
    assert_eq!(strip_code_fences(""), "");
    assert_eq!(strip_code_fences("``"), "``");
    assert_eq!(strip_code_fences("````"), "`");
    assert_eq!(strip_code_fences("``````"), "");
    assert_eq!(strip_code_fences("```json```json"), "");
    assert_eq!(strip_code_fences("```jso"), "jso");
    assert_eq!(strip_code_fences("`````json"), "``");
    assert_eq!(strip_code_fences("``````json"), "");
    assert_eq!(strip_code_fences("```js```on"), "json");
    assert_eq!(strip_code_fences("é```è"), "éè");
}

#[test]
fn fences_are_stripped_as_by_two_replacements() {
    for s in [
        "```json\n{\"action\":\"long\"}\n```",
        "a```b```json c",
        "`````````",
        "``` json ```json``",
        "``j```json`",
    ] {
        assert_eq!(strip_code_fences(s), s.replace("```json", "").replace("```", ""));
    }
}

#[test]
fn action_names() {
    assert_eq!(action_from_name("long"), Action::Long);
    assert_eq!(action_from_name("short"), Action::Short);
    assert_eq!(action_from_name("none"), Action::NoTrade);
    assert_eq!(action_from_name("Long"), Action::NoTrade);
    assert_eq!(action_from_name("longer"), Action::NoTrade);
    assert_eq!(action_from_name(""), Action::NoTrade);
}

#[test]
fn members_make_a_prediction() {
    assert_eq!(
        prediction_from_members(None, Some("why".to_string())),
        Err(ResponseFault::MissingAction)
    );
    assert_eq!(prediction_from_members(None, None), Err(ResponseFault::MissingAction));
    assert_eq!(
        prediction_from_members(Some("short".to_string()), None),
        Ok(Prediction { action: Action::Short, rationale: String::new() })
    );
    assert_eq!(
        prediction_from_members(Some("long".to_string()), Some("why".to_string())),
        Ok(Prediction { action: Action::Long, rationale: "why".to_string() })
    );
}
