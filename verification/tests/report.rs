use decide::json::Json;
use decide::report::{
    answer_value, one_answer, parse_index, render_json, render_value, select, split_path, walk,
};
use decide::wire::{Question, Request, Response};
use decide::DecideError;

fn json(text: &str) -> Json {
    decide::input::value_from_text(text, true).expect("the test's JSON parses")
}

/// A request asking the questions named.
fn request_with(ids: &[&str]) -> Request {
    let questions = ids
        .iter()
        .map(|id| {
            (
                (*id).to_string(),
                Question::noul(Json::String("is it so?".to_string()), None),
            )
        })
        .collect();
    Request::new(Json::Null, "jev-latest".to_string(), questions).expect("a valid request")
}

/// A response to that request.
fn response_for(ids: &[&str], body: &str) -> (Request, Response) {
    let request = request_with(ids);
    let response = Response::from_slice(body, &request).expect("the body is a response");
    (request, response)
}

#[test]
fn a_string_value_is_printed_without_quotes() {
    assert_eq!(render_value(&json("\"technical\""), false), "technical");
}

#[test]
fn a_number_is_printed_as_json_printed_it() {
    assert_eq!(render_value(&json("1.0"), false), "1.0");
    assert_eq!(render_value(&json("296"), false), "296");
    assert_eq!(render_value(&json("0.78"), false), "0.78");
}

#[test]
fn a_boolean_and_null_are_printed_literally() {
    assert_eq!(render_value(&json("true"), false), "true");
    assert_eq!(render_value(&json("false"), false), "false");
    assert_eq!(render_value(&Json::Null, false), "null");
}

#[test]
fn an_object_is_printed_as_json_with_its_keys_sorted() {
    let value = json(r#"{"b": 1, "a": 2}"#);

    assert_eq!(render_value(&value, false), r#"{"a":2,"b":1}"#);
    assert_eq!(render_json(&value, false), r#"{"a":2,"b":1}"#);
}

#[test]
fn pretty_indents_a_composite() {
    let value = json(r#"{"a": 1}"#);

    assert_eq!(render_json(&value, true), "{\n  \"a\": 1\n}");
}

#[test]
fn a_path_walks_into_an_object_by_key() {
    let response = json(r#"{"answers": {"department": {"choice": "technical"}}}"#);

    let value = select(&response, "answers.department.choice").expect("the path resolves");

    assert_eq!(render_value(value, false), "technical");
}

#[test]
fn a_numeric_segment_is_an_index_in_an_array_and_a_key_in_an_object() {
    let response = json(r#"{"models": [{"name": "jev-latest"}], "legend": {"2": "very angry"}}"#);

    assert_eq!(
        render_value(select(&response, "models.0.name").expect("an index"), false),
        "jev-latest"
    );
    assert_eq!(
        render_value(select(&response, "legend.2").expect("a key"), false),
        "very angry"
    );
}

#[test]
fn a_missing_path_names_the_segment_and_the_keys_available() {
    let response = json(r#"{"answers": {"is_urgent": {"noul": 0.95}}}"#);

    let error = select(&response, "answers.urgency.noul").expect_err("there is no urgency");

    let rendered = error.message();
    assert_eq!(error.exit_code(), 2);
    assert!(rendered.contains("--select"), "{rendered}");
    assert!(rendered.contains("answers.urgency.noul"), "{rendered}");
    assert!(rendered.contains("no key \"urgency\""), "{rendered}");
    assert!(rendered.contains("\"is_urgent\""), "{rendered}");
}

#[test]
fn a_missing_key_at_the_root_names_the_response_root() {
    let response = json(r#"{"answers": {}}"#);

    let error = select(&response, "answer").expect_err("there is no answer key");

    let rendered = error.message();
    assert!(rendered.contains("the response root"), "{rendered}");
    assert!(rendered.contains("\"answers\""), "{rendered}");
}

#[test]
fn an_out_of_range_index_names_the_length() {
    let response = json(r#"{"models": [{"name": "a"}]}"#);

    let error = select(&response, "models.7.name").expect_err("there is no index 7");

    let rendered = error.message();
    assert!(rendered.contains("no index 7"), "{rendered}");
    assert!(rendered.contains("1 entries"), "{rendered}");
}

#[test]
fn a_segment_that_is_not_a_number_on_an_array_is_refused() {
    let response = json(r#"{"models": [{"name": "a"}]}"#);

    let error = select(&response, "models.name").expect_err("an array is not a map");

    assert!(error.message().contains("walked by index"), "{}", error.message());
}

#[test]
fn a_path_through_a_scalar_is_refused() {
    let response = json(r#"{"usage": {"input_tokens": 296}}"#);

    let error =
        select(&response, "usage.input_tokens.extra").expect_err("a number has no keys");

    assert!(
        error.message().contains("not an object or an array"),
        "{}",
        error.message()
    );
}

#[test]
fn an_empty_path_is_refused() {
    let error = select(&json("{}"), "").expect_err("nothing to walk");

    assert!(error.message().contains("the path is empty"), "{}", error.message());
}

#[test]
fn an_answer_keyed_with_a_dot_is_reachable_by_value_but_not_by_select() {
    let body = r#"{"answers":{"my.id":{"type":"noul","noul":0.5}}}"#;
    let (request, response) = response_for(&["my.id"], body);

    let answer = one_answer(&response, &request, "--value").expect("the one answer");
    assert_eq!(
        render_value(answer_value(answer).expect("a noul"), false),
        "0.5"
    );

    let error = select(&response.value, "answers.my.id.noul").expect_err("the dot splits it");
    assert!(error.message().contains("no key \"my\""), "{}", error.message());
}

#[test]
fn a_value_is_refused_when_the_request_asked_more_than_one_question() {
    let body = r#"{"answers":{"a":{"type":"noul","noul":0.5},"b":{"type":"noul","noul":0.5}}}"#;
    let (request, response) = response_for(&["a", "b"], body);

    let error = one_answer(&response, &request, "--value").expect_err("the value of two");

    assert_eq!(error.exit_code(), 2);
    assert!(error.message().contains("exactly one question"), "{}", error.message());
    assert!(error.message().contains("asked 2"), "{}", error.message());
    assert!(error.message().contains("--select"), "{}", error.message());
}

#[test]
fn a_field_path_starts_at_the_one_answer() {
    let body = r#"{"answers":{"q":{"type":"score","score":1.05,"confidence":0.92,
        "legend":{"0":"calm","1":"frustrated","2":"very angry"}}}}"#;
    let questions = vec![(
        "q".to_string(),
        Question::score(
            Json::String("how frustrated?".to_string()),
            vec![
                Json::String("calm".to_string()),
                Json::String("frustrated".to_string()),
            ],
        ),
    )];
    let request =
        Request::new(Json::Null, "jev-latest".to_string(), questions).expect("a valid request");
    let response =
        Response::from_slice(body, &request).expect("the body is a response");
    let answer = one_answer(&response, &request, "--field").expect("the one answer");

    assert_eq!(
        render_value(
            walk(&answer.value, "legend.2", "--field").expect("a key"),
            false,
        ),
        "very angry"
    );
    assert_eq!(
        render_value(
            walk(&answer.value, "confidence", "--field").expect("a key"),
            false,
        ),
        "0.92"
    );
}

#[test]
fn a_field_error_names_the_field_flag() {
    let error = walk(&json(r#"{"a": 1}"#), "b", "--field").expect_err("there is no b");

    assert!(error.message().contains("--field"), "{}", error.message());
}

#[test]
fn an_index_may_carry_a_plus_sign() {
    assert_eq!(parse_index("+2"), Some(2));
    assert_eq!(parse_index("2"), Some(2));
    assert_eq!(parse_index("-2"), None);
    assert_eq!(parse_index(""), None);
    assert_eq!(split_path("a.b..c"), vec!["a", "b", "", "c"]);
}
