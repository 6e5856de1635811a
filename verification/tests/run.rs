use std::collections::BTreeMap;
use std::io::Cursor;

use serde_json::Value;

use decide::client::{Exchange, HttpRequest};
use decide::config::Secret;
use decide::host::Host;
use decide::json::Json;
use decide::wire::DEFAULT_BASE_URL;
use decide::{run, AuthCommand, Cli, Command, DecideError, EvalArgs, GlobalArgs, Io, Stdin};

/// A host that answers from memory: files and the store from maps, the network from a
/// script of replies, and the clock not at all.
#[derive(Default)]
struct Fake {
    files: BTreeMap<String, String>,
    store: BTreeMap<String, String>,
    env: BTreeMap<String, String>,
    replies: Vec<Exchange>,
    sent: Vec<Seen>,
    slept: Vec<u64>,
    secret: Option<Result<String, String>>,
}

/// One request as the host was asked to make it.
#[allow(dead_code)]
struct Seen {
    method: String,
    url: String,
    authorization: String,
    content_type: Option<String>,
    body: Option<String>,
    cap: u64,
}

impl Secret for Fake {
    fn read_secret(&mut self) -> Result<String, DecideError> {
        match self.secret.clone() {
            Some(Ok(answer)) => Ok(answer),
            Some(Err(reason)) => Err(DecideError::TokenUnreadable { reason }),
            None => Err(DecideError::TokenUnreadable {
                reason: "the terminal was not expected".to_string(),
            }),
        }
    }
}

impl Host for Fake {
    fn read_file(&mut self, path: &str) -> Result<String, String> {
        self.files
            .get(path)
            .cloned()
            .ok_or_else(|| "No such file or directory (os error 2)".to_string())
    }

    fn send(&mut self, request: &HttpRequest) -> Exchange {
        self.sent.push(Seen {
            method: request.method.as_str().to_string(),
            url: request.url.clone(),
            authorization: request.authorization.clone(),
            content_type: request.content_type.clone(),
            body: request.body.clone(),
            cap: request.error_body_cap,
        });
        if self.replies.is_empty() {
            return Exchange::Failed {
                reason: "connection refused".to_string(),
            };
        }
        match self.replies.remove(0) {
            // A body that is not a success is read no further than the request allows.
            Exchange::Answered {
                status,
                body,
                retry_after_ms,
                retry_after,
            } if !(200..300).contains(&status) => Exchange::Answered {
                status,
                body: body
                    .chars()
                    .take(usize::try_from(request.error_body_cap).unwrap_or(usize::MAX))
                    .collect(),
                retry_after_ms,
                retry_after,
            },
            other => other,
        }
    }

    fn sleep_ms(&mut self, ms: u64) {
        self.slept.push(ms);
    }

    fn env_var(&mut self, name: &str) -> Option<String> {
        self.env.get(name).cloned()
    }

    fn read_store(&mut self, path: &str) -> Result<Option<String>, String> {
        Ok(self.store.get(path).cloned())
    }

    fn write_store(&mut self, path: &str, contents: &str) -> Result<(), String> {
        self.store.insert(path.to_string(), contents.to_string());
        Ok(())
    }

    fn remove_store(&mut self, path: &str) -> Result<bool, String> {
        Ok(self.store.remove(path).is_some())
    }
}

/// A reply with a status and a body, and no retry headers.
#[allow(dead_code)]
fn reply(status: u16, body: &str) -> Exchange {
    Exchange::Answered {
        status,
        body: body.to_string(),
        retry_after_ms: None,
        retry_after: None,
    }
}

/// A stdin over in-memory text.
#[allow(dead_code)]
fn stdin(text: &str, terminal: bool) -> Stdin<Cursor<Vec<u8>>> {
    Stdin::new(Cursor::new(text.as_bytes().to_vec()), terminal)
}

fn global() -> GlobalArgs {
    GlobalArgs {
        base_url: DEFAULT_BASE_URL.to_string(),
        api_key_file: None,
        timeout: 60,
        retries: 2,
        backoff_ms: 500,
        select: None,
        pretty: false,
        verbose: false,
    }
}

fn flags() -> EvalArgs {
    EvalArgs {
        state: None,
        state_file: None,
        state_json: false,
        no_state: false,
        model: None,
        dry_run: false,
        value: false,
        field: None,
    }
}

fn noul(instruction: &str, eval: EvalArgs) -> Command {
    Command::Noul {
        instruction: instruction.to_string(),
        id: "answer".to_string(),
        yes: None,
        no: None,
        eval,
    }
}

/// What one invocation produced.
struct Outcome {
    stdout: String,
    stderr: String,
    result: Result<(), DecideError>,
}

/// Run an invocation against in-memory streams and a host.
fn invoke(cli: &Cli, stdin_text: &str, terminal: bool, host: &mut Fake) -> Outcome {
    let mut io = Io {
        stdin: Stdin::new(Cursor::new(stdin_text.as_bytes().to_vec()), terminal),
        stdout: Vec::new(),
        stderr: Vec::new(),
    };
    let result = run(cli, &mut io, host);
    Outcome {
        stdout: String::from_utf8(io.stdout).expect("stdout is text"),
        stderr: String::from_utf8(io.stderr).expect("stderr is text"),
        result,
    }
}

fn printed(outcome: &Outcome) -> Value {
    serde_json::from_str(outcome.stdout.trim_end()).expect("the run printed JSON")
}

fn parsed(text: &str) -> Value {
    serde_json::from_str(text).expect("the test's JSON parses")
}

const ANSWERS: &str = r#"{"model":"jev-1.13.0","answers":{"answer":{"type":"noul","noul":0.93}},"usage":{"input_tokens":296,"output_tokens":20}}"#;

#[test]
fn a_dry_run_prints_the_request_body_and_nothing_else() {
    let cli = Cli {
        global: global(),
        command: Command::Choice {
            instruction: "which team should handle this?".to_string(),
            id: "department".to_string(),
            option: vec![
                "billing=payments and invoices".to_string(),
                "technical=bugs and outages".to_string(),
                "sales".to_string(),
            ],
            eval: EvalArgs {
                no_state: true,
                dry_run: true,
                ..flags()
            },
        },
    };
    let mut host = Fake::default();

    let outcome = invoke(&cli, "", true, &mut host);

    assert!(outcome.result.is_ok(), "{:?}", outcome.result);
    assert!(outcome.stderr.is_empty(), "a dry run writes nothing to stderr");
    assert!(host.sent.is_empty(), "a dry run opens no connection");
    assert_eq!(
        printed(&outcome),
        parsed(
            r#"{"model": "jev-latest", "state": null, "questions": {"department": {
                "type": "choice", "instructions": "which team should handle this?",
                "criteria": {"billing": "payments and invoices",
                             "technical": "bugs and outages", "sales": null}}}}"#
        )
    );
    assert_eq!(
        outcome.stdout,
        [
            r#"{"model":"jev-latest","questions":{"department":{"criteria":"#,
            r#"{"billing":"payments and invoices","sales":null,"technical":"bugs and outages"},"#,
            r#""instructions":"which team should handle this?","type":"choice"}},"state":null}"#,
            "\n",
        ]
        .concat()
    );
}

#[test]
fn a_dry_run_needs_no_credential_and_opens_no_connection() {
    let mut global = global();
    global.base_url = "http://127.0.0.1:1".to_string();
    let cli = Cli {
        global,
        command: noul(
            "is it urgent?",
            EvalArgs {
                no_state: true,
                dry_run: true,
                ..flags()
            },
        ),
    };
    let mut host = Fake::default();

    let outcome = invoke(&cli, "", true, &mut host);

    assert!(outcome.result.is_ok(), "a dry run needs no credential");
    assert_eq!(printed(&outcome)["questions"]["answer"]["type"], "noul");
}

#[test]
fn pretty_indents_the_dry_run_body() {
    let mut global = global();
    global.pretty = true;
    let cli = Cli {
        global,
        command: noul(
            "is it so?",
            EvalArgs {
                no_state: true,
                dry_run: true,
                ..flags()
            },
        ),
    };
    let mut host = Fake::default();

    let outcome = invoke(&cli, "", true, &mut host);

    assert!(
        outcome.stdout.contains("\n  \"model\""),
        "{}",
        outcome.stdout
    );
}

#[test]
fn the_state_is_read_from_stdin_when_the_document_has_none() {
    let mut host = Fake::default();
    host.files.insert(
        "/tmp/questions.json".to_string(),
        r#"{"questions":{"q":{"type":"noul","instructions":"is it so?"}}}"#.to_string(),
    );
    let cli = Cli {
        global: global(),
        command: Command::Ask {
            file: Some("/tmp/questions.json".to_string()),
            eval: EvalArgs {
                dry_run: true,
                ..flags()
            },
        },
    };

    let outcome = invoke(&cli, "Help! My payouts have been failing.", false, &mut host);

    assert!(outcome.result.is_ok(), "{:?}", outcome.result);
    assert_eq!(
        printed(&outcome)["state"],
        "Help! My payouts have been failing."
    );
}

#[test]
fn a_document_with_an_unknown_key_is_refused_before_anything_is_printed() {
    let mut host = Fake::default();
    host.files.insert(
        "/tmp/questions.json".to_string(),
        r#"{"question":{"q":{"type":"noul","instructions":"x"}}}"#.to_string(),
    );
    let cli = Cli {
        global: global(),
        command: Command::Ask {
            file: Some("/tmp/questions.json".to_string()),
            eval: EvalArgs {
                no_state: true,
                dry_run: true,
                ..flags()
            },
        },
    };

    let outcome = invoke(&cli, "", true, &mut host);

    let error = outcome.result.expect_err("the key is a typo");
    assert_eq!(error.exit_code(), 2);
    assert!(error.message().contains("\"question\""), "{}", error.message());
    assert!(outcome.stdout.is_empty());
    assert!(outcome.stderr.is_empty());
}

#[test]
fn a_base_url_without_a_scheme_is_refused_before_a_call() {
    let mut global = global();
    global.base_url = "api.typesafe.ai".to_string();
    let cli = Cli {
        global,
        command: noul(
            "is it so?",
            EvalArgs {
                no_state: true,
                ..flags()
            },
        ),
    };
    let mut host = Fake::default();

    let outcome = invoke(&cli, "", true, &mut host);

    let error = outcome.result.expect_err("a relative URL goes nowhere");
    assert_eq!(error.exit_code(), 2);
    assert!(outcome.stdout.is_empty());
    assert!(host.sent.is_empty());
}

#[test]
fn a_value_is_refused_before_a_call_when_the_document_asks_three_questions() {
    let mut host = Fake::default();
    host.files.insert(
        "/tmp/questions.json".to_string(),
        r#"{"state":"s","questions":{
            "a":{"type":"noul","instructions":"x"},
            "b":{"type":"noul","instructions":"y"},
            "c":{"type":"noul","instructions":"z"}}}"#
            .to_string(),
    );
    let cli = Cli {
        global: global(),
        command: Command::Ask {
            file: Some("/tmp/questions.json".to_string()),
            eval: EvalArgs {
                value: true,
                ..flags()
            },
        },
    };

    let outcome = invoke(&cli, "", true, &mut host);

    let error = outcome.result.expect_err("the value of three answers is not defined");
    assert_eq!(error.exit_code(), 2);
    assert!(error.message().contains("asked 3"), "{}", error.message());
    assert!(host.sent.is_empty(), "nothing was paid for");
}

#[test]
fn ask_with_no_file_and_a_terminal_says_to_name_one() {
    let cli = Cli {
        global: global(),
        command: Command::Ask {
            file: None,
            eval: EvalArgs {
                no_state: true,
                ..flags()
            },
        },
    };
    let mut host = Fake::default();

    let outcome = invoke(&cli, "", true, &mut host);

    let error = outcome.result.expect_err("there is nothing to read");
    assert_eq!(error.exit_code(), 2);
    assert!(error.message().contains("name a file"), "{}", error.message());
}

#[test]
fn a_question_id_that_is_empty_is_refused_by_name() {
    let cli = Cli {
        global: global(),
        command: Command::Noul {
            instruction: "is it so?".to_string(),
            id: String::new(),
            yes: None,
            no: None,
            eval: EvalArgs {
                no_state: true,
                dry_run: true,
                ..flags()
            },
        },
    };
    let mut host = Fake::default();

    let outcome = invoke(&cli, "", true, &mut host);

    let error = outcome.result.expect_err("an empty id cannot be addressed");
    assert!(error.message().contains("id cannot be empty"), "{}", error.message());
}

#[test]
fn the_model_flag_overrides_the_document() {
    let mut host = Fake::default();
    host.files.insert(
        "/tmp/questions.json".to_string(),
        r#"{"model":"from-the-document","questions":{"q":{"type":"noul","instructions":"x"}}}"#
            .to_string(),
    );
    host.env.insert(
        "TYPESAFE_DEFAULT_MODEL".to_string(),
        "from-the-environment".to_string(),
    );
    let ask = |model: Option<&str>| Cli {
        global: global(),
        command: Command::Ask {
            file: Some("/tmp/questions.json".to_string()),
            eval: EvalArgs {
                no_state: true,
                dry_run: true,
                model: model.map(str::to_string),
                ..flags()
            },
        },
    };

    let documented = invoke(&ask(None), "", true, &mut host);
    assert_eq!(printed(&documented)["model"], "from-the-document");

    let overridden = invoke(&ask(Some("from-the-flag")), "", true, &mut host);
    assert_eq!(printed(&overridden)["model"], "from-the-flag");
}

#[test]
fn a_call_prints_the_response_and_sends_the_compact_body() {
    let mut host = Fake {
        replies: vec![reply(200, ANSWERS)],
        ..Fake::default()
    };
    host.env
        .insert("TYPESAFE_API_KEY".to_string(), "sekrit-token".to_string());
    let cli = Cli {
        global: global(),
        command: noul(
            "is it so?",
            EvalArgs {
                no_state: true,
                ..flags()
            },
        ),
    };

    let outcome = invoke(&cli, "", true, &mut host);

    assert!(outcome.result.is_ok(), "{:?}", outcome.result);
    assert_eq!(printed(&outcome), parsed(ANSWERS));
    let seen = &host.sent[0];
    assert_eq!(seen.method, "POST");
    assert_eq!(seen.url, "https://api.typesafe.ai/v1/systemone");
    assert_eq!(seen.authorization, "Bearer sekrit-token");
    assert_eq!(
        seen.body.as_deref(),
        Some(r#"{"model":"jev-latest","questions":{"answer":{"instructions":"is it so?","type":"noul"}},"state":null}"#)
    );
}

#[test]
fn value_prints_the_one_answers_own_value() {
    let mut host = Fake {
        replies: vec![reply(200, ANSWERS)],
        ..Fake::default()
    };
    host.env
        .insert("TYPESAFE_API_KEY".to_string(), "sekrit-token".to_string());
    let cli = Cli {
        global: global(),
        command: noul(
            "is it so?",
            EvalArgs {
                no_state: true,
                value: true,
                ..flags()
            },
        ),
    };

    let outcome = invoke(&cli, "", true, &mut host);

    assert!(outcome.result.is_ok(), "{:?}", outcome.result);
    assert_eq!(outcome.stdout, "0.93\n");
}

#[test]
fn a_call_without_a_credential_is_refused_by_name() {
    let cli = Cli {
        global: global(),
        command: noul(
            "is it so?",
            EvalArgs {
                no_state: true,
                ..flags()
            },
        ),
    };
    let mut host = Fake::default();

    let outcome = invoke(&cli, "", true, &mut host);

    let error = outcome.result.expect_err("there is no key");
    assert!(matches!(error, DecideError::MissingApiKey), "{}", error.message());
    assert!(host.sent.is_empty());
}

#[test]
fn models_is_printed_whole_and_can_be_selected_from() {
    let models = r#"{"models":[{"name":"jev-latest","description":"the newest"}]}"#;
    let mut host = Fake {
        replies: vec![reply(200, models), reply(200, models)],
        ..Fake::default()
    };
    host.env
        .insert("TYPESAFE_API_KEY".to_string(), "sekrit-token".to_string());

    let whole = invoke(
        &Cli {
            global: global(),
            command: Command::Models,
        },
        "",
        true,
        &mut host,
    );
    assert!(whole.result.is_ok(), "{:?}", whole.result);
    assert_eq!(printed(&whole), parsed(models));

    let mut selecting = global();
    selecting.select = Some("models.0.name".to_string());
    let selected = invoke(
        &Cli {
            global: selecting,
            command: Command::Models,
        },
        "",
        true,
        &mut host,
    );
    assert_eq!(selected.stdout, "jev-latest\n");
    assert_eq!(host.sent[0].url, "https://api.typesafe.ai/v1/models");
}

#[test]
fn auth_set_stores_a_piped_token_and_status_names_the_store() {
    let mut host = Fake::default();
    host.env.insert("HOME".to_string(), "/home/ant".to_string());
    let auth = |command: AuthCommand| Cli {
        global: global(),
        command: Command::Auth { command },
    };

    let empty = invoke(&auth(AuthCommand::Status), "", true, &mut host);
    assert!(empty.result.is_ok(), "nothing configured is a fact, not a failure");
    assert!(empty.stdout.contains("no credential"), "{}", empty.stdout);

    let stored = invoke(&auth(AuthCommand::Store), "sekrit-token\n", false, &mut host);
    assert!(stored.result.is_ok(), "{:?}", stored.result);
    assert!(stored.stdout.is_empty(), "a confirmation is a diagnostic");
    assert_eq!(
        stored.stderr,
        "stored the token in \"/home/ant/.config/decide/api-key\"\n"
    );

    let status = invoke(&auth(AuthCommand::Status), "", true, &mut host);
    assert_eq!(
        status.stdout,
        "the credential stored at \"/home/ant/.config/decide/api-key\"\n"
    );
    assert!(!status.stdout.contains("sekrit-token"), "the value is never printed");

    let unset = invoke(&auth(AuthCommand::Unset), "", true, &mut host);
    assert!(unset.result.is_ok());
    let status = invoke(&auth(AuthCommand::Status), "", true, &mut host);
    assert!(status.stdout.contains("no credential"), "{}", status.stdout);
}

#[test]
fn auth_set_refuses_an_empty_stdin() {
    let mut host = Fake::default();
    host.env.insert("HOME".to_string(), "/home/ant".to_string());
    let cli = Cli {
        global: global(),
        command: Command::Auth {
            command: AuthCommand::Store,
        },
    };

    let outcome = invoke(&cli, "", false, &mut host);

    let error = outcome.result.expect_err("nothing was piped in");
    assert_eq!(error.exit_code(), 2);
    assert!(error.message().contains("nothing was piped in"), "{}", error.message());
    assert!(host.store.is_empty());
}

#[test]
fn models_has_no_evaluation_flags_at_all() {
    let cli = Cli {
        global: global(),
        command: Command::Models,
    };

    assert!(cli.command.eval().is_none());
}

#[test]
fn auth_asks_no_question() {
    let cli = Cli {
        global: global(),
        command: Command::Auth {
            command: AuthCommand::Status,
        },
    };

    assert!(cli.command.eval().is_none());
}

#[test]
fn the_shorthand_subcommands_carry_their_evaluation_flags() {
    let command = noul(
        "is it so?",
        EvalArgs {
            state: Some("text".to_string()),
            state_json: true,
            ..flags()
        },
    );

    let eval = command.eval().expect("noul has them");
    assert_eq!(eval.state.as_deref(), Some("text"));
    assert!(eval.state_json);
}

#[test]
fn a_repeated_option_is_refused_before_anything_is_sent() {
    let cli = Cli {
        global: global(),
        command: Command::Choice {
            instruction: "which team?".to_string(),
            id: "answer".to_string(),
            option: vec!["billing=a".to_string(), "billing=b".to_string()],
            eval: EvalArgs {
                no_state: true,
                ..flags()
            },
        },
    };
    let mut host = Fake::default();

    let outcome = invoke(&cli, "", true, &mut host);

    let error = outcome.result.expect_err("a key cannot repeat");
    assert!(matches!(error, DecideError::DuplicateOption { .. }), "{}", error.message());
    assert!(outcome.stdout.is_empty());
    assert!(host.sent.is_empty());
}

#[test]
fn a_score_with_one_level_is_refused_before_anything_is_sent() {
    let cli = Cli {
        global: global(),
        command: Command::Score {
            instruction: "how much?".to_string(),
            id: "answer".to_string(),
            level: vec!["only".to_string()],
            eval: EvalArgs {
                no_state: true,
                ..flags()
            },
        },
    };
    let mut host = Fake::default();
    host.env
        .insert("TYPESAFE_API_KEY".to_string(), "sekrit-token".to_string());

    let outcome = invoke(&cli, "", true, &mut host);

    let error = outcome.result.expect_err("a score needs two levels");
    assert_eq!(
        error.message(),
        "question \"answer\": a score needs at least 2 levels (1 were given)"
    );
    assert!(host.sent.is_empty());
}

const QUICKSTART: &str = r#"{
  "state": "Help! My payouts have been failing for 3 days.",
  "model": "jev-latest",
  "questions": {
    "is_urgent": {"type": "noul", "instructions": "Does this convey urgency?"},
    "department": {"type": "choice", "instructions": "Which team should handle this?",
      "criteria": {"billing": "Payments, invoicing, refunds",
                   "technical": "Bugs, outages, integrations",
                   "sales": "Pricing, upgrades, new accounts"}},
    "frustration": {"type": "score", "instructions": "How frustrated is the customer?",
      "criteria": ["Calm", "Frustrated", "Very angry"]}
  }
}"#;

const QUICKSTART_ANSWERS: &str = r#"{
  "model": "jev-1.13.0",
  "answers": {
    "is_urgent":   {"type": "noul", "noul": 0.95},
    "department":  {"type": "choice", "choice": "billing",
                    "probabilities": {"billing": 0.88, "technical": 0.12, "sales": 0.0},
                    "confidence": 0.81},
    "frustration": {"type": "score", "score": 1.05,
                    "legend": {"0": "Calm", "1": "Frustrated", "2": "Very angry"},
                    "probabilities": {"0": 0.0, "1": 0.95, "2": 0.05},
                    "confidence": 0.92}
  },
  "usage": {"input_tokens": 296, "output_tokens": 20}
}"#;

const ONE_NOUL: &str = r#"{"state":"Help!","questions":{"is_urgent":{"type":"noul","instructions":"Does this convey urgency?"}}}"#;

const ONE_CHOICE: &str = r#"{"state":"Help!","questions":{"department":{"type":"choice","instructions":"Which team?",
    "criteria":{"billing":"payments","technical":"bugs"}}}}"#;

const CHOICE_ANSWER: &str = r#"{"model":"jev-1.13.0","answers":{"department":
    {"type":"choice","choice":"technical","probabilities":{"billing":0.12,"technical":0.88},
     "confidence":0.81}},"usage":{"input_tokens":296,"output_tokens":20}}"#;

const MODELS: &str = r#"{"models":[{"name":"jev-latest","description":"The newest Jev"},{"name":"jev-1.13.0","release_date":"2026-09-12"}]}"#;

/// A host with a credential in a file, a document at `/tmp/questions.json`, and the replies
/// given.
fn serving(document: &str, replies: Vec<Exchange>) -> Fake {
    let mut host = Fake {
        replies,
        ..Fake::default()
    };
    host.files
        .insert("/tmp/key".to_string(), "sekrit-token\n".to_string());
    host.files
        .insert("/tmp/questions.json".to_string(), document.to_string());
    host
}

/// `decide ask /tmp/questions.json --api-key-file /tmp/key`, with the flags the test sets.
fn ask(edit: impl FnOnce(&mut GlobalArgs, &mut EvalArgs)) -> Cli {
    let mut global = global();
    global.api_key_file = Some("/tmp/key".to_string());
    let mut eval = flags();
    edit(&mut global, &mut eval);
    Cli {
        global,
        command: Command::Ask {
            file: Some("/tmp/questions.json".to_string()),
            eval,
        },
    }
}

#[test]
fn the_response_is_printed_as_one_json_value_with_its_keys_sorted() {
    let mut host = serving(QUICKSTART, vec![reply(200, QUICKSTART_ANSWERS)]);

    let outcome = invoke(&ask(|_, _| {}), "", true, &mut host);

    assert!(outcome.result.is_ok(), "{:?}", outcome.result);
    assert!(outcome.stdout.ends_with('\n'), "the line ends with a newline");
    assert_eq!(printed(&outcome), parsed(QUICKSTART_ANSWERS));
    assert!(
        outcome.stdout.starts_with(r#"{"answers":"#),
        "the keys are sorted, so answers comes first: {}",
        outcome.stdout
    );
}

#[test]
fn the_request_the_server_received_is_the_document_that_was_written() {
    let mut host = serving(QUICKSTART, vec![reply(200, QUICKSTART_ANSWERS)]);

    let outcome = invoke(&ask(|_, _| {}), "", true, &mut host);

    assert!(outcome.result.is_ok(), "{:?}", outcome.result);
    let seen = &host.sent[0];
    assert_eq!(seen.authorization, "Bearer sekrit-token");
    assert_eq!(seen.url, "https://api.typesafe.ai/v1/systemone");
    let sent = parsed(seen.body.as_deref().expect("a POST has a body"));
    assert_eq!(sent["questions"]["department"]["type"], "choice");
    assert_eq!(sent["model"], "jev-latest");
    assert_eq!(sent, parsed(QUICKSTART), "the document is sent as written");
}

#[test]
fn verbose_does_not_change_a_byte_of_stdout() {
    let mut host = serving(
        QUICKSTART,
        vec![reply(200, QUICKSTART_ANSWERS), reply(200, QUICKSTART_ANSWERS)],
    );

    let quiet = invoke(&ask(|_, _| {}), "", true, &mut host);
    let loud = invoke(&ask(|global, _| global.verbose = true), "", true, &mut host);

    assert_eq!(quiet.stdout, loud.stdout, "--verbose never touches stdout");
    assert!(quiet.stderr.is_empty(), "nothing is written without --verbose");
    assert!(!loud.stderr.is_empty(), "--verbose reports progress on stderr");
    assert!(loud.stderr.contains("POST"), "{}", loud.stderr);
}

#[test]
fn a_status_error_leaves_stdout_empty_and_exits_one() {
    let mut host = serving(QUICKSTART, vec![reply(422, r#"{"detail":"nope"}"#)]);

    let outcome = invoke(&ask(|_, _| {}), "", true, &mut host);

    let error = outcome.result.expect_err("the API refused the request");
    assert_eq!(error.exit_code(), 1);
    assert!(outcome.stdout.is_empty(), "a failed run leaves stdout empty");
    assert!(error.message().contains("422"), "{}", error.message());
    assert!(error.message().contains("nope"), "{}", error.message());
}

#[test]
fn a_response_that_breaks_the_answer_contract_is_exit_one_with_empty_stdout() {
    let mut host = serving(
        ONE_NOUL,
        vec![reply(
            200,
            r#"{"model":"jev-1.13.0","answers":{"is_urgent":{"type":"choice","choice":"yes"}}}"#,
        )],
    );

    let outcome = invoke(&ask(|_, _| {}), "", true, &mut host);

    let error = outcome.result.expect_err("the answer disagrees with the question");
    assert_eq!(error.exit_code(), 1);
    assert!(error.message().contains("asked for a noul"), "{}", error.message());
    assert!(outcome.stdout.is_empty());
}

#[test]
fn a_response_that_is_not_json_is_exit_one_with_empty_stdout() {
    let mut host = serving(ONE_NOUL, vec![reply(200, "<html>a proxy said no</html>")]);

    let outcome = invoke(&ask(|_, _| {}), "", true, &mut host);

    let error = outcome.result.expect_err("that is not JSON");
    assert_eq!(error.exit_code(), 1);
    assert!(outcome.stdout.is_empty());
}

#[test]
fn select_reaches_a_value_anywhere_in_the_response() {
    for (path, expected) in [
        ("model", "jev-1.13.0\n"),
        ("usage.input_tokens", "296\n"),
        ("answers.department.choice", "billing\n"),
        ("answers.frustration.legend.2", "Very angry\n"),
    ] {
        let mut host = serving(QUICKSTART, vec![reply(200, QUICKSTART_ANSWERS)]);
        let cli = ask(|global, _| global.select = Some(path.to_string()));

        let outcome = invoke(&cli, "", true, &mut host);

        assert!(outcome.result.is_ok(), "{path}: {:?}", outcome.result);
        assert_eq!(outcome.stdout, expected, "selecting {path}");
    }
}

#[test]
fn a_select_that_misses_names_the_segment_and_the_keys_available() {
    let mut host = serving(QUICKSTART, vec![reply(200, QUICKSTART_ANSWERS)]);
    let cli = ask(|global, _| global.select = Some("answers.urgency.noul".to_string()));

    let outcome = invoke(&cli, "", true, &mut host);

    let error = outcome.result.expect_err("there is no urgency");
    assert_eq!(error.exit_code(), 2);
    let rendered = error.message();
    assert!(rendered.contains("no key \"urgency\""), "{rendered}");
    assert!(rendered.contains("\"is_urgent\""), "{rendered}");
    assert!(outcome.stdout.is_empty(), "a failed run leaves stdout empty");
}

#[test]
fn value_prints_the_one_answer_without_the_script_knowing_its_name() {
    let mut host = serving(ONE_NOUL, vec![reply(200, QUICKSTART_ANSWERS)]);

    let outcome = invoke(&ask(|_, eval| eval.value = true), "", true, &mut host);

    assert!(outcome.result.is_ok(), "{:?}", outcome.result);
    assert_eq!(outcome.stdout, "0.95\n");
}

#[test]
fn value_prints_the_chosen_option_and_not_its_name() {
    let mut host = serving(ONE_CHOICE, vec![reply(200, CHOICE_ANSWER)]);

    let outcome = invoke(&ask(|_, eval| eval.value = true), "", true, &mut host);

    assert_eq!(outcome.stdout, "technical\n");
}

#[test]
fn field_walks_from_the_one_answer() {
    for (path, expected) in [
        ("confidence", "0.81\n"),
        ("probabilities.technical", "0.88\n"),
        ("choice", "technical\n"),
    ] {
        let mut host = serving(ONE_CHOICE, vec![reply(200, CHOICE_ANSWER)]);
        let cli = ask(|_, eval| eval.field = Some(path.to_string()));

        let outcome = invoke(&cli, "", true, &mut host);

        assert!(outcome.result.is_ok(), "{path}: {:?}", outcome.result);
        assert_eq!(outcome.stdout, expected, "field {path}");
    }
}

#[test]
fn a_misspelled_field_names_the_flag() {
    let mut host = serving(ONE_CHOICE, vec![reply(200, CHOICE_ANSWER)]);
    let cli = ask(|_, eval| eval.field = Some("confidencee".to_string()));

    let outcome = invoke(&cli, "", true, &mut host);

    let error = outcome.result.expect_err("there is no confidencee");
    assert_eq!(error.exit_code(), 2);
    assert!(error.message().contains("--field"), "{}", error.message());
}

#[test]
fn pretty_indents_the_response() {
    let mut host = serving(QUICKSTART, vec![reply(200, QUICKSTART_ANSWERS)]);

    let outcome = invoke(&ask(|global, _| global.pretty = true), "", true, &mut host);

    assert!(outcome.stdout.contains("\n  \"answers\""), "{}", outcome.stdout);
}

#[test]
fn models_still_prints_a_body_it_does_not_recognise() {
    let mut host = serving("", vec![reply(200, r#"{"status":"ok"}"#)]);
    let mut global = global();
    global.api_key_file = Some("/tmp/key".to_string());
    let cli = Cli {
        global,
        command: Command::Models,
    };

    let outcome = invoke(&cli, "", true, &mut host);

    assert!(outcome.result.is_ok(), "{:?}", outcome.result);
    assert_eq!(outcome.stdout, "{\"status\":\"ok\"}\n");
}

#[test]
fn the_models_list_is_printed_as_it_came() {
    let mut host = serving("", vec![reply(200, MODELS)]);
    let mut global = global();
    global.api_key_file = Some("/tmp/key".to_string());
    let cli = Cli {
        global,
        command: Command::Models,
    };

    let outcome = invoke(&cli, "", true, &mut host);

    assert_eq!(printed(&outcome), parsed(MODELS));
}

#[test]
fn the_credential_is_never_written_to_stdout() {
    let mut host = serving(QUICKSTART, vec![reply(200, QUICKSTART_ANSWERS)]);

    let outcome = invoke(&ask(|global, _| global.verbose = true), "", true, &mut host);

    assert!(!outcome.stdout.contains("sekrit-token"));
    assert!(
        !outcome.stderr.contains("sekrit-token"),
        "--verbose is not a credential leak"
    );
}

#[test]
fn a_dry_run_works_with_nothing_but_the_invocation() {
    let cli = Cli {
        global: global(),
        command: noul(
            "is it urgent?",
            EvalArgs {
                no_state: true,
                dry_run: true,
                ..flags()
            },
        ),
    };
    let mut host = Fake::default();

    let outcome = invoke(&cli, "", true, &mut host);

    assert!(outcome.result.is_ok());
    assert_eq!(printed(&outcome)["questions"]["answer"]["type"], "noul");
}

#[test]
fn a_dry_run_is_the_bytes_a_real_call_would_send() {
    let cli = Cli {
        global: global(),
        command: Command::Score {
            instruction: "how much?".to_string(),
            id: "answer".to_string(),
            level: vec!["a".to_string(), "b".to_string()],
            eval: EvalArgs {
                no_state: true,
                dry_run: true,
                ..flags()
            },
        },
    };
    let mut host = Fake::default();

    let outcome = invoke(&cli, "", true, &mut host);

    let value = printed(&outcome);
    assert_eq!(
        outcome.stdout.trim_end(),
        serde_json::to_string(&value).expect("a value renders"),
        "the printed body is the compact body"
    );
    assert!(outcome.stdout.ends_with('\n'), "and it ends with a newline");
}

#[test]
fn ask_reads_the_document_from_stdin_when_no_file_is_named() {
    let cli = Cli {
        global: global(),
        command: Command::Ask {
            file: None,
            eval: EvalArgs {
                no_state: true,
                dry_run: true,
                ..flags()
            },
        },
    };
    let mut host = Fake::default();

    let outcome = invoke(
        &cli,
        r#"{"questions":{"q":{"type":"noul","instructions":"is it so?"}}}"#,
        false,
        &mut host,
    );

    assert!(outcome.result.is_ok(), "{:?}", outcome.result);
    assert_eq!(printed(&outcome)["questions"]["q"]["instructions"], "is it so?");
}

#[test]
fn the_shorthand_carries_its_own_flags_into_the_request() {
    let cli = Cli {
        global: global(),
        command: Command::Noul {
            instruction: "does this message convey urgency?".to_string(),
            id: "urgency".to_string(),
            yes: Some("explicitly time-sensitive".to_string()),
            no: Some("no urgency expressed".to_string()),
            eval: EvalArgs {
                no_state: true,
                dry_run: true,
                ..flags()
            },
        },
    };
    let mut host = Fake::default();

    let outcome = invoke(&cli, "", true, &mut host);

    assert_eq!(
        printed(&outcome),
        parsed(
            r#"{"model": "jev-latest", "state": null, "questions": {"urgency": {
                "type": "noul", "instructions": "does this message convey urgency?",
                "criteria": {"true": "explicitly time-sensitive", "false": "no urgency expressed"}}}}"#
        )
    );
}

/// A request of `count` noul questions about no state.
fn nouls(count: usize) -> decide::wire::Request {
    let questions = (0..count)
        .map(|index| {
            (
                format!("q{index}"),
                decide::wire::Question::noul(Json::String("urgent?".to_string()), None),
            )
        })
        .collect();
    decide::wire::Request::new(Json::Null, "jev-latest".to_string(), questions)
        .expect("a valid request")
}

#[test]
fn evaluate_prints_the_body_of_a_dry_run_without_a_credential() {
    let mut host = Fake::default();
    let mut stderr: Vec<u8> = Vec::new();
    let eval = EvalArgs {
        dry_run: true,
        ..flags()
    };

    let text = decide::evaluate(&nouls(1), &eval, &global(), &mut stderr, &mut host)
        .expect("a dry run of a valid request succeeds");

    assert_eq!(
        text,
        r#"{"model":"jev-latest","questions":{"q0":{"instructions":"urgent?","type":"noul"}},"state":null}"#
    );
    assert!(stderr.is_empty());
    assert!(host.sent.is_empty());
}

#[test]
fn evaluate_refuses_a_field_on_two_questions_before_a_call() {
    let mut host = Fake::default();
    let mut stderr: Vec<u8> = Vec::new();
    let eval = EvalArgs {
        field: Some("noul".to_string()),
        ..flags()
    };

    let error = decide::evaluate(&nouls(2), &eval, &global(), &mut stderr, &mut host)
        .expect_err("the field of two answers is not defined");

    match error {
        DecideError::OneAnswerRequired { flag, count } => {
            assert_eq!(flag, "--field");
            assert_eq!(count, 2);
        }
        other => panic!("unexpected error: {other:?}"),
    }
    assert!(host.sent.is_empty());
}

#[test]
fn the_request_body_is_the_compact_json_of_the_request() {
    assert_eq!(
        decide::request_body(&nouls(1)),
        r#"{"model":"jev-latest","questions":{"q0":{"instructions":"urgent?","type":"noul"}},"state":null}"#
    );
}

#[test]
fn a_failed_run_leaves_stdout_untouched_and_a_quiet_run_leaves_stderr_empty() {
    let mut host = Fake::default();
    let cli = Cli {
        global: global(),
        command: Command::Noul {
            instruction: "is it urgent?".to_string(),
            id: String::new(),
            yes: None,
            no: None,
            eval: EvalArgs {
                no_state: true,
                ..flags()
            },
        },
    };

    let outcome = invoke(&cli, "", true, &mut host);

    assert!(outcome.result.is_err(), "an empty question id is refused");
    assert!(outcome.stdout.is_empty());
    assert!(outcome.stderr.is_empty());
}
