use std::collections::BTreeMap;
use std::io::Cursor;

use serde_json::Value;

use decide::client::{
    backoff_ms, backoff_with, get_models, is_retryable_status, non_empty, outcome,
    next_step, parse_retry_after, post_systemone, reason_phrase, request_for, retry_line,
    CallError, ClientConfig, Exchange, HttpRequest, Method, Next, Transient, MAX_ERROR_BODY,
};
use decide::config::Secret;
use decide::host::Host;
use decide::input::resolve_base_url;
use decide::json::Json;
use decide::report::render_json;
use decide::wire::{Question, Request, Response};
use decide::{DecideError, Stdin};

/// A host that answers from memory: files and the store from maps, the network from a
/// script of replies, and the clock not at all.
#[derive(Default)]
struct Fake {
    files: BTreeMap<String, String>,
    store: BTreeMap<String, String>,
    env: BTreeMap<String, String>,
    replies: Vec<Exchange>,
    sent: Vec<Seen>,
    slept: Vec<u64>,
    secret: Option<Result<String, String>>,
}

/// One request as the host was asked to make it.
#[allow(dead_code)]
struct Seen {
    method: String,
    url: String,
    authorization: String,
    content_type: Option<String>,
    body: Option<String>,
    cap: u64,
}

impl Secret for Fake {
    fn read_secret(&mut self) -> Result<String, DecideError> {
        match self.secret.clone() {
            Some(Ok(answer)) => Ok(answer),
            Some(Err(reason)) => Err(DecideError::TokenUnreadable { reason }),
            None => Err(DecideError::TokenUnreadable {
                reason: "the terminal was not expected".to_string(),
            }),
        }
    }
}

impl Host for Fake {
    fn read_file(&mut self, path: &str) -> Result<String, String> {
        self.files
            .get(path)
            .cloned()
            .ok_or_else(|| "No such file or directory (os error 2)".to_string())
    }

    fn send(&mut self, request: &HttpRequest) -> Exchange {
        self.sent.push(Seen {
            method: request.method.as_str().to_string(),
            url: request.url.clone(),
            authorization: request.authorization.clone(),
            content_type: request.content_type.clone(),
            body: request.body.clone(),
            cap: request.error_body_cap,
        });
        if self.replies.is_empty() {
            return Exchange::Failed {
                reason: "connection refused".to_string(),
            };
        }
        match self.replies.remove(0) {
            // A body that is not a success is read no further than the request allows.
            Exchange::Answered {
                status,
                body,
                retry_after_ms,
                retry_after,
            } if !(200..300).contains(&status) => Exchange::Answered {
                status,
                body: body
                    .chars()
                    .take(usize::try_from(request.error_body_cap).unwrap_or(usize::MAX))
                    .collect(),
                retry_after_ms,
                retry_after,
            },
            other => other,
        }
    }

    fn sleep_ms(&mut self, ms: u64) {
        self.slept.push(ms);
    }

    fn env_var(&mut self, name: &str) -> Option<String> {
        self.env.get(name).cloned()
    }

    fn read_store(&mut self, path: &str) -> Result<Option<String>, String> {
        Ok(self.store.get(path).cloned())
    }

    fn write_store(&mut self, path: &str, contents: &str) -> Result<(), String> {
        self.store.insert(path.to_string(), contents.to_string());
        Ok(())
    }

    fn remove_store(&mut self, path: &str) -> Result<bool, String> {
        Ok(self.store.remove(path).is_some())
    }
}

/// A reply with a status and a body, and no retry headers.
#[allow(dead_code)]
fn reply(status: u16, body: &str) -> Exchange {
    Exchange::Answered {
        status,
        body: body.to_string(),
        retry_after_ms: None,
        retry_after: None,
    }
}

/// A stdin over in-memory text.
#[allow(dead_code)]
fn stdin(text: &str, terminal: bool) -> Stdin<Cursor<Vec<u8>>> {
    Stdin::new(Cursor::new(text.as_bytes().to_vec()), terminal)
}

fn config(retries: u32) -> ClientConfig {
    ClientConfig {
        base_url: "http://127.0.0.1:9".to_string(),
        api_key: "sekrit-token".to_string(),
        timeout_secs: 5,
        retries,
        backoff_ms: 1,
        verbose: false,
    }
}

const ANSWER: &str = r#"{"model":"jev-1.13.0","answers":{},"usage":{"input_tokens":296,"output_tokens":20}}"#;

#[test]
fn the_backoff_doubles_and_is_capped() {
    let first = backoff_ms(500, 1);
    assert!((375..=500).contains(&first), "the first delay was {first}");

    let capped = backoff_ms(500, 5);
    assert!(
        (3750..=5000).contains(&capped),
        "the capped delay was {capped}"
    );

    assert!(backoff_ms(9000, 1) <= 9000);

    assert_eq!(backoff_ms(0, 3), 0, "no delay stays no delay");
}

#[test]
fn the_backoff_for_a_given_draw_is_exact() {
    assert_eq!(backoff_with(500, 1, 0), 500);
    assert_eq!(backoff_with(500, 1, 125), 375);
    assert_eq!(backoff_with(500, 1, 126), 500);
    assert_eq!(backoff_with(500, 2, 0), 1000);
    assert_eq!(backoff_with(500, 4, 0), 4000);
    assert_eq!(backoff_with(500, 5, 0), 5000);
    assert_eq!(backoff_with(500, 5, 1250), 3750);
    assert_eq!(backoff_with(3, 1, 7), 3, "a delay too small for jitter keeps it all");
}

#[test]
fn only_the_documented_statuses_are_retried() {
    for status in [408, 429, 500, 503, 529, 599] {
        assert!(is_retryable_status(status), "{status} is retried");
    }
    for status in [400, 401, 403, 404, 422, 200, 201, 600] {
        assert!(!is_retryable_status(status), "{status} is not retried");
    }
}

#[test]
fn an_error_body_that_is_empty_reads_as_a_statement() {
    assert_eq!(non_empty("  \n".to_string()), "(empty body)");
    assert_eq!(
        non_empty("{\"detail\":\"no\"}".to_string()),
        "{\"detail\":\"no\"}"
    );
}

#[test]
fn the_verbose_outcome_line_names_the_model_and_the_tokens() {
    let body = r#"{"model":"jev-1.13.0","usage":{"input_tokens":296,"output_tokens":20}}"#;

    let line = outcome(200, body);

    assert!(line.starts_with("200 OK"), "{line}");
    assert!(line.contains("model jev-1.13.0"), "{line}");
    assert!(line.contains("296 in / 20 out tokens"), "{line}");
    assert_eq!(line, "200 OK (model jev-1.13.0, 296 in / 20 out tokens)");
}

#[test]
fn the_verbose_outcome_line_survives_a_body_that_is_not_json() {
    assert_eq!(outcome(200, "not json"), "200 OK");
    assert_eq!(outcome(201, "{}"), "201 Created");
}

#[test]
fn a_status_without_a_standard_phrase_is_unknown() {
    assert_eq!(reason_phrase(422), "Unprocessable Entity");
    assert_eq!(reason_phrase(299), "Unknown");
    assert_eq!(reason_phrase(42), "Unknown");
}

#[test]
fn the_retry_headers_are_read_in_milliseconds_and_capped() {
    assert_eq!(parse_retry_after(Some("250"), Some("9")), Some(250));
    assert_eq!(parse_retry_after(None, Some(" 2 ")), Some(2000));
    assert_eq!(parse_retry_after(None, Some("+3")), Some(3000));
    assert_eq!(parse_retry_after(Some("soon"), Some("120")), Some(60000));
    assert_eq!(parse_retry_after(Some("90000"), None), Some(60000));
    assert_eq!(parse_retry_after(Some("-1"), Some("later")), None);
    assert_eq!(parse_retry_after(None, None), None);
}

#[test]
fn a_retry_line_says_what_failed_and_what_comes_next() {
    assert_eq!(
        retry_line("503 Service Unavailable", 500, 2, 3),
        "503 Service Unavailable; retrying in 500 ms (attempt 2 of 3)"
    );
}

#[test]
fn a_request_carries_the_bearer_credential_and_the_error_body_cap() {
    let request = request_for(&config(0), Method::Post, "http://x/v1/systemone", Some("{}"));

    assert_eq!(request.authorization, "Bearer sekrit-token");
    assert_eq!(request.url, "http://x/v1/systemone");
    assert_eq!(request.body.as_deref(), Some("{}"));
    assert_eq!(request.timeout_secs, 5);
    assert_eq!(request.error_body_cap, MAX_ERROR_BODY);
    assert_eq!(Method::Get.as_str(), "GET");
}

#[test]
fn a_rate_limit_is_retried_after_the_retry_after_header() {
    let mut host = Fake {
        replies: vec![
            Exchange::Answered {
                status: 429,
                body: "slow down".to_string(),
                retry_after_ms: None,
                retry_after: Some("0".to_string()),
            },
            reply(200, ANSWER),
        ],
        ..Fake::default()
    };
    let mut progress = Vec::new();

    let returned = post_systemone(&config(2), "{}", &mut progress, &mut host).expect("the retry wins");

    assert_eq!(returned, ANSWER);
    assert_eq!(host.sent.len(), 2, "the 429 was retried exactly once");
    assert_eq!(host.slept, vec![0], "the header's delay was used");
}

#[test]
fn a_server_error_is_retried() {
    let mut host = Fake {
        replies: vec![reply(503, "later"), reply(500, "still not"), reply(200, ANSWER)],
        ..Fake::default()
    };
    let mut progress = Vec::new();

    post_systemone(&config(2), "{}", &mut progress, &mut host).expect("the retry wins");

    assert_eq!(host.sent.len(), 3);
}

#[test]
fn a_validation_error_is_not_retried() {
    let mut host = Fake {
        replies: vec![
            reply(422, r#"{"detail":"questions must not be empty"}"#),
            reply(200, ANSWER),
        ],
        ..Fake::default()
    };
    let mut progress = Vec::new();

    let error = post_systemone(&config(2), "{}", &mut progress, &mut host)
        .expect_err("a 422 is the answer");

    assert_eq!(host.sent.len(), 1, "a validation error must not be retried");
    assert_eq!(error.exit_code(), 1);
    let rendered = error.message();
    assert!(rendered.contains("422"), "{rendered}");
    assert!(rendered.contains("Unprocessable Entity"), "{rendered}");
    assert!(rendered.contains("questions must not be empty"), "{rendered}");
}

#[test]
fn no_retries_means_exactly_one_attempt() {
    let mut host = Fake {
        replies: vec![reply(500, ""), reply(200, ANSWER)],
        ..Fake::default()
    };
    let mut progress = Vec::new();

    let error = post_systemone(&config(0), "{}", &mut progress, &mut host)
        .expect_err("one attempt is all there is");

    assert_eq!(host.sent.len(), 1);
    assert_eq!(error.message(), "the API answered 500 Internal Server Error: (empty body)");
}

#[test]
fn a_rate_limit_that_never_clears_reports_the_status() {
    let mut host = Fake {
        replies: vec![
            reply(429, "slow down"),
            reply(429, "slow down"),
            reply(429, "slow down"),
            reply(200, ANSWER),
        ],
        ..Fake::default()
    };
    let mut progress = Vec::new();

    let error = post_systemone(&config(2), "{}", &mut progress, &mut host)
        .expect_err("the retries run out");

    assert_eq!(host.sent.len(), 3, "one attempt and two retries");
    assert_eq!(error.exit_code(), 1);
    assert!(error.message().contains("429"), "{}", error.message());
}

#[test]
fn a_connection_failure_reports_the_attempt_count() {
    let mut host = Fake::default();
    let mut progress = Vec::new();

    let error = post_systemone(&config(2), "{}", &mut progress, &mut host)
        .expect_err("nothing is listening");

    assert_eq!(error.exit_code(), 1);
    assert!(error.message().contains("3 attempts"), "{}", error.message());
    assert_eq!(host.slept.len(), 2);
}

#[test]
fn a_server_that_never_answers_times_out() {
    let mut host = Fake {
        replies: vec![Exchange::TimedOut],
        ..Fake::default()
    };
    let mut progress = Vec::new();

    let error = post_systemone(&config(0), "{}", &mut progress, &mut host)
        .expect_err("the server never answers");

    assert_eq!(error.exit_code(), 1);
    assert_eq!(
        error.message(),
        "the request to http://127.0.0.1:9/v1/systemone timed out after 5 s"
    );
}

#[test]
fn verbose_writes_progress_to_the_writer_and_not_to_the_body() {
    let mut host = Fake {
        replies: vec![reply(503, ""), reply(200, ANSWER), reply(200, ANSWER)],
        ..Fake::default()
    };
    let mut quiet_progress = Vec::new();
    let mut loud_progress = Vec::new();
    let mut loud_config = config(1);
    loud_config.verbose = true;

    let loud = post_systemone(&loud_config, "{}", &mut loud_progress, &mut host).expect("the call");
    let quiet = post_systemone(&config(0), "{}", &mut quiet_progress, &mut host).expect("the call");

    assert_eq!(quiet, loud, "--verbose does not change the response");
    let progress = String::from_utf8(loud_progress).expect("progress is text");
    let lines: Vec<&str> = progress.lines().collect();
    assert_eq!(lines[0], "POST http://127.0.0.1:9/v1/systemone");
    assert!(
        lines[1].starts_with("503 Service Unavailable; retrying in "),
        "{progress}"
    );
    assert!(lines[1].ends_with(" ms (attempt 2 of 2)"), "{progress}");
    assert_eq!(lines[2], "200 OK (model jev-1.13.0, 296 in / 20 out tokens)");
    assert!(
        quiet_progress.is_empty(),
        "nothing is written without --verbose"
    );
}

#[test]
fn models_is_a_get_with_the_authorization_header() {
    let models = r#"{"models":[{"name":"jev-latest"}]}"#;
    let mut host = Fake {
        replies: vec![reply(200, models)],
        ..Fake::default()
    };
    let mut progress = Vec::new();

    let returned = get_models(&config(0), &mut progress, &mut host).expect("the call");

    assert_eq!(returned, models);
    let seen = &host.sent[0];
    assert_eq!(seen.method, "GET");
    assert_eq!(seen.url, "http://127.0.0.1:9/v1/models");
    assert_eq!(seen.authorization, "Bearer sekrit-token");
    assert_eq!(seen.body, None, "a GET has no body");
    assert_eq!(seen.content_type, None);
}

/// One valid request, ready to send.
fn one_request() -> Request {
    let questions = vec![(
        "is_urgent".to_string(),
        Question::noul(Json::String("Does this convey urgency?".to_string()), None),
    )];
    Request::new(
        Json::String("Help!".to_string()),
        "jev-latest".to_string(),
        questions,
    )
    .expect("the request is valid")
}

/// The body of that request, as it goes on the wire.
fn body() -> String {
    render_json(&one_request().to_value(), false)
}

const ONE_ANSWER: &str = r#"{"model":"jev-1.13.0","answers":{"is_urgent":{"type":"noul","noul":0.95}},"usage":{"input_tokens":296,"output_tokens":20}}"#;

#[test]
fn the_api_key_travels_in_the_authorization_header() {
    let mut host = Fake {
        replies: vec![reply(200, ONE_ANSWER)],
        ..Fake::default()
    };
    let mut progress = Vec::new();
    let body = body();

    let returned =
        post_systemone(&config(2), &body, &mut progress, &mut host).expect("the call succeeds");

    assert_eq!(returned, ONE_ANSWER);
    assert_eq!(host.sent[0].authorization, "Bearer sekrit-token");
}

#[test]
fn the_request_line_and_content_type_are_what_the_api_documents() {
    let mut host = Fake {
        replies: vec![reply(200, ONE_ANSWER)],
        ..Fake::default()
    };
    let mut progress = Vec::new();
    let body = body();

    post_systemone(&config(0), &body, &mut progress, &mut host).expect("the call");

    let seen = &host.sent[0];
    assert_eq!(seen.method, "POST");
    assert_eq!(seen.url, "http://127.0.0.1:9/v1/systemone");
    assert_eq!(seen.content_type.as_deref(), Some("application/json"));
}

#[test]
fn the_body_the_server_received_is_the_request_that_was_built() {
    let mut host = Fake {
        replies: vec![reply(200, ONE_ANSWER)],
        ..Fake::default()
    };
    let mut progress = Vec::new();
    let body = body();

    post_systemone(&config(0), &body, &mut progress, &mut host).expect("the call");

    let sent: Value =
        serde_json::from_str(host.sent[0].body.as_deref().expect("a POST has a body"))
            .expect("the body is JSON");
    assert_eq!(sent["model"], "jev-latest");
    assert_eq!(sent["state"], "Help!");
    assert_eq!(
        sent["questions"]["is_urgent"]["instructions"],
        "Does this convey urgency?"
    );
}

#[test]
fn a_trailing_slash_in_the_base_url_does_not_double_the_path() {
    let mut host = Fake {
        replies: vec![reply(200, ONE_ANSWER)],
        ..Fake::default()
    };
    let mut progress = Vec::new();
    let mut config = config(0);
    config.base_url =
        resolve_base_url("http://127.0.0.1:9/").expect("a base URL with a scheme is accepted");

    post_systemone(&config, "{}", &mut progress, &mut host).expect("the call");

    assert_eq!(host.sent[0].url, "http://127.0.0.1:9/v1/systemone");
}

#[test]
fn a_base_url_naming_the_endpoint_in_full_calls_the_same_two_paths() {
    let mut host = Fake {
        replies: vec![reply(200, ONE_ANSWER), reply(200, "{}")],
        ..Fake::default()
    };
    let mut progress = Vec::new();
    let mut config = config(0);
    config.base_url = resolve_base_url("http://127.0.0.1:9/v1/systemone")
        .expect("a base URL with a scheme is accepted");

    post_systemone(&config, "{}", &mut progress, &mut host).expect("the call");
    get_models(&config, &mut progress, &mut host).expect("the call");

    assert_eq!(host.sent[0].url, "http://127.0.0.1:9/v1/systemone");
    assert_eq!(host.sent[1].url, "http://127.0.0.1:9/v1/models");
}

#[test]
fn a_request_timeout_status_is_retried() {
    let mut host = Fake {
        replies: vec![reply(408, ""), reply(200, ONE_ANSWER)],
        ..Fake::default()
    };
    let mut progress = Vec::new();

    post_systemone(&config(2), "{}", &mut progress, &mut host).expect("the retry wins");

    assert_eq!(host.sent.len(), 2);
}

#[test]
fn an_overloaded_is_retried() {
    let mut host = Fake {
        replies: vec![reply(529, ""), reply(200, ONE_ANSWER)],
        ..Fake::default()
    };
    let mut progress = Vec::new();

    post_systemone(&config(2), "{}", &mut progress, &mut host).expect("the retry wins");

    assert_eq!(host.sent.len(), 2);
}

#[test]
fn a_bad_request_is_not_retried() {
    let mut host = Fake {
        replies: vec![reply(400, "no"), reply(200, ONE_ANSWER)],
        ..Fake::default()
    };
    let mut progress = Vec::new();

    post_systemone(&config(2), "{}", &mut progress, &mut host).expect_err("a 400 is fatal");

    assert_eq!(host.sent.len(), 1);
}

#[test]
fn an_unauthorized_is_not_retried() {
    let mut host = Fake {
        replies: vec![reply(401, "bad key"), reply(200, ONE_ANSWER)],
        ..Fake::default()
    };
    let mut progress = Vec::new();

    let error =
        post_systemone(&config(2), "{}", &mut progress, &mut host).expect_err("a 401 is fatal");

    assert_eq!(host.sent.len(), 1);
    assert!(error.message().contains("401"), "{}", error.message());
}

#[test]
fn a_long_error_body_is_capped() {
    let huge = "x".repeat(20_000);
    let mut host = Fake {
        replies: vec![reply(400, &huge)],
        ..Fake::default()
    };
    let mut progress = Vec::new();

    let error =
        post_systemone(&config(0), "{}", &mut progress, &mut host).expect_err("a 400 is fatal");

    assert_eq!(host.sent[0].cap, MAX_ERROR_BODY);
    let DecideError::Status { body, .. } = error else {
        panic!("a status error was expected");
    };
    assert!(
        body.len() < 20_000,
        "the error body is capped, and this one was {} bytes",
        body.len()
    );
}

#[test]
fn a_status_error_names_the_reason_phrase() {
    let mut host = Fake {
        replies: vec![reply(422, "unprocessable")],
        ..Fake::default()
    };
    let mut progress = Vec::new();

    let error =
        post_systemone(&config(0), "{}", &mut progress, &mut host).expect_err("a 422 is fatal");

    assert!(
        error.message().contains("Unprocessable Entity"),
        "{} should name the reason phrase",
        error.message()
    );
}

#[test]
fn the_body_the_client_returned_is_the_one_wire_can_read() {
    let mut host = Fake {
        replies: vec![reply(200, ONE_ANSWER)],
        ..Fake::default()
    };
    let mut progress = Vec::new();

    let text = post_systemone(&config(0), "{}", &mut progress, &mut host).expect("the call");
    let response = Response::from_slice(&text, &one_request())
        .expect("the client's bytes are a response");

    assert_eq!(response.model.as_deref(), Some("jev-1.13.0"));
}

#[test]
fn a_success_ends_the_call_with_its_body() {
    match next_step(Ok((200, "{}".to_string())), 1, 3, "http://x/v1/models", 60) {
        Next::Finish(Ok(body)) => assert_eq!(body, "{}"),
        _ => panic!("a success ends the call"),
    }
}

#[test]
fn a_failure_the_policy_does_not_repeat_ends_the_call_at_once() {
    let fatal = DecideError::Status {
        status: 404,
        reason: "Not Found".to_string(),
        body: "(empty body)".to_string(),
    };
    match next_step(Err(CallError::Fatal(fatal)), 1, 3, "http://x/v1/models", 60) {
        Next::Finish(Err(DecideError::Status { status, .. })) => assert_eq!(status, 404),
        _ => panic!("a 404 ends the call"),
    }
}

#[test]
fn a_repeatable_failure_is_retried_until_the_last_attempt_allowed() {
    let transport = || CallError::Retryable(Transient::Transport {
        reason: "connection refused".to_string(),
    });
    assert!(matches!(
        next_step(Err(transport()), 2, 3, "http://x/v1/models", 60),
        Next::Retry(Transient::Transport { .. })
    ));
    match next_step(Err(transport()), 3, 3, "http://x/v1/models", 60) {
        Next::Finish(Err(DecideError::Transport { attempts, reason })) => {
            assert_eq!(attempts, 3);
            assert_eq!(reason, "connection refused");
        }
        _ => panic!("the last attempt ends the call"),
    }
    match next_step(Err(CallError::Retryable(Transient::Timeout)), 1, 1, "http://x/v1/models", 7) {
        Next::Finish(Err(DecideError::Timeout { url, seconds })) => {
            assert_eq!(url, "http://x/v1/models");
            assert_eq!(seconds, 7);
        }
        _ => panic!("a timeout on the only attempt ends the call"),
    }
}
