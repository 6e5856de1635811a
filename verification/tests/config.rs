use std::collections::BTreeMap;
use std::io::Cursor;

use decide::client::{Exchange, HttpRequest};
use decide::config::{
    api_key_file, clear_at, load_at, one_trailing_newline_removed, path, path_from, read_token,
    resolve, store_at, Secret, Source, PROMPT,
};
use decide::host::Host;
use decide::json::Json;
use decide::{DecideError, Stdin};

/// A host that answers from memory: files and the store from maps, the network from a
/// script of replies, and the clock not at all.
#[derive(Default)]
struct Fake {
    files: BTreeMap<String, String>,
    store: BTreeMap<String, String>,
    env: BTreeMap<String, String>,
    replies: Vec<Exchange>,
    sent: Vec<Seen>,
    slept: Vec<u64>,
    secret: Option<Result<String, String>>,
}

/// One request as the host was asked to make it.
#[allow(dead_code)]
struct Seen {
    method: String,
    url: String,
    authorization: String,
    content_type: Option<String>,
    body: Option<String>,
    cap: u64,
}

impl Secret for Fake {
    fn read_secret(&mut self) -> Result<String, DecideError> {
        match self.secret.clone() {
            Some(Ok(answer)) => Ok(answer),
            Some(Err(reason)) => Err(DecideError::TokenUnreadable { reason }),
            None => Err(DecideError::TokenUnreadable {
                reason: "the terminal was not expected".to_string(),
            }),
        }
    }
}

impl Host for Fake {
    fn read_file(&mut self, path: &str) -> Result<String, String> {
        self.files
            .get(path)
            .cloned()
            .ok_or_else(|| "No such file or directory (os error 2)".to_string())
    }

    fn send(&mut self, request: &HttpRequest) -> Exchange {
        self.sent.push(Seen {
            method: request.method.as_str().to_string(),
            url: request.url.clone(),
            authorization: request.authorization.clone(),
            content_type: request.content_type.clone(),
            body: request.body.clone(),
            cap: request.error_body_cap,
        });
        if self.replies.is_empty() {
            return Exchange::Failed {
                reason: "connection refused".to_string(),
            };
        }
        match self.replies.remove(0) {
            // A body that is not a success is read no further than the request allows.
            Exchange::Answered {
                status,
                body,
                retry_after_ms,
                retry_after,
            } if !(200..300).contains(&status) => Exchange::Answered {
                status,
                body: body
                    .chars()
                    .take(usize::try_from(request.error_body_cap).unwrap_or(usize::MAX))
                    .collect(),
                retry_after_ms,
                retry_after,
            },
            other => other,
        }
    }

    fn sleep_ms(&mut self, ms: u64) {
        self.slept.push(ms);
    }

    fn env_var(&mut self, name: &str) -> Option<String> {
        self.env.get(name).cloned()
    }

    fn read_store(&mut self, path: &str) -> Result<Option<String>, String> {
        Ok(self.store.get(path).cloned())
    }

    fn write_store(&mut self, path: &str, contents: &str) -> Result<(), String> {
        self.store.insert(path.to_string(), contents.to_string());
        Ok(())
    }

    fn remove_store(&mut self, path: &str) -> Result<bool, String> {
        Ok(self.store.remove(path).is_some())
    }
}

/// A reply with a status and a body, and no retry headers.
#[allow(dead_code)]
fn reply(status: u16, body: &str) -> Exchange {
    Exchange::Answered {
        status,
        body: body.to_string(),
        retry_after_ms: None,
        retry_after: None,
    }
}

/// A stdin over in-memory text.
#[allow(dead_code)]
fn stdin(text: &str, terminal: bool) -> Stdin<Cursor<Vec<u8>>> {
    Stdin::new(Cursor::new(text.as_bytes().to_vec()), terminal)
}

#[test]
fn the_store_is_under_the_configuration_home_when_there_is_one() {
    let path = path_from(Some("/xdg"), Some("/home/ant"));

    assert_eq!(path, Some("/xdg/decide/api-key".to_string()));
}

#[test]
fn the_store_falls_back_to_dot_config_under_home() {
    let path = path_from(None, Some("/home/ant"));

    assert_eq!(path, Some("/home/ant/.config/decide/api-key".to_string()));
}

#[test]
fn an_empty_configuration_home_is_treated_as_unset() {
    let path = path_from(Some(""), Some("/home/ant"));

    assert_eq!(path, Some("/home/ant/.config/decide/api-key".to_string()));
}

#[test]
fn with_no_home_at_all_there_is_nowhere_to_store_a_credential() {
    assert_eq!(path_from(None, None), None);
    assert_eq!(path_from(Some(""), Some("")), None);
}

#[test]
fn a_trailing_slash_on_the_home_is_not_doubled() {
    assert_eq!(
        path_from(Some("/xdg/"), None),
        Some("/xdg/decide/api-key".to_string())
    );
}

#[test]
fn the_store_path_comes_from_the_environment() {
    let mut host = Fake::default();
    host.env.insert("HOME".to_string(), "/home/ant".to_string());

    assert_eq!(
        path(&mut host),
        Some("/home/ant/.config/decide/api-key".to_string())
    );
}

#[test]
fn a_stored_token_is_read_back_after_it_is_written() {
    let mut host = Fake::default();

    store_at("/store/api-key", "sekrit-token", &mut host).expect("the store is writable");

    assert_eq!(
        load_at("/store/api-key", &mut host).expect("the store is readable"),
        Some("sekrit-token".to_string())
    );
}

#[test]
fn the_store_holds_the_token_and_a_newline() {
    let mut host = Fake::default();

    store_at("/store/api-key", "new-secret", &mut host).expect("the store is writable");

    assert_eq!(
        host.store.get("/store/api-key").map(String::as_str),
        Some("new-secret\n")
    );
}

#[test]
fn a_store_that_is_not_there_reads_as_nothing_stored() {
    let mut host = Fake::default();

    assert_eq!(load_at("/store/api-key", &mut host).expect("nothing to read"), None);
}

#[test]
fn a_store_holding_only_whitespace_reads_as_nothing_stored() {
    let mut host = Fake::default();
    host.store.insert("/store/api-key".to_string(), "\n".to_string());

    assert_eq!(load_at("/store/api-key", &mut host).expect("readable"), None);
}

#[test]
fn clearing_the_store_says_whether_there_was_anything_to_clear() {
    let mut host = Fake::default();

    assert!(!clear_at("/store/api-key", &mut host).expect("nothing to clear"));

    store_at("/store/api-key", "sekrit-token", &mut host).expect("the store is writable");
    assert!(clear_at("/store/api-key", &mut host).expect("clearing works"));
    assert_eq!(load_at("/store/api-key", &mut host).expect("nothing left"), None);
}

#[test]
fn the_environment_wins_over_everything_else() {
    let mut host = Fake::default();
    store_at("/store/api-key", "stored", &mut host).expect("the store is writable");

    let (source, key) = resolve(
        Some("from-the-environment".to_string()),
        Some("/nonexistent/key"),
        Some("/store/api-key"),
        &mut host,
    )
    .expect("the environment supplies it");

    assert_eq!(source, Source::Environment);
    assert_eq!(key, "from-the-environment");
}

#[test]
fn a_named_file_wins_over_the_store() {
    let mut host = Fake::default();
    store_at("/store/api-key", "stored", &mut host).expect("the store is writable");
    host.files
        .insert("/tmp/key".to_string(), "from-the-file\n".to_string());

    let (source, key) = resolve(None, Some("/tmp/key"), Some("/store/api-key"), &mut host)
        .expect("the file wins");

    assert_eq!(source, Source::File("/tmp/key".to_string()));
    assert_eq!(key, "from-the-file");
}

#[test]
fn the_store_supplies_the_credential_when_nothing_else_does() {
    let mut host = Fake::default();
    store_at("/store/api-key", "stored", &mut host).expect("the store is writable");

    let (source, key) =
        resolve(None, None, Some("/store/api-key"), &mut host).expect("the store supplies it");

    assert_eq!(source, Source::Stored("/store/api-key".to_string()));
    assert_eq!(key, "stored");
}

#[test]
fn an_empty_environment_variable_falls_through_to_the_store() {
    let mut host = Fake::default();
    store_at("/store/api-key", "stored", &mut host).expect("the store is writable");

    let (_source, key) = resolve(Some(String::new()), None, Some("/store/api-key"), &mut host)
        .expect("the store supplies it");

    assert_eq!(key, "stored");
}

#[test]
fn with_nothing_anywhere_there_is_no_credential() {
    let mut host = Fake::default();

    let error =
        resolve(None, None, Some("/store/api-key"), &mut host).expect_err("there is no key");

    assert_eq!(error.exit_code(), 2);
    assert!(error.message().contains("decide auth set"), "{}", error.message());
}

#[test]
fn a_named_file_that_cannot_be_read_does_not_fall_through_to_the_store() {
    let mut host = Fake::default();
    store_at("/store/api-key", "stored", &mut host).expect("the store is writable");

    let error = resolve(None, Some("/nonexistent/key"), Some("/store/api-key"), &mut host)
        .expect_err("a named file is not optional");

    assert!(error.message().contains("/nonexistent/key"), "{}", error.message());
}

#[test]
fn an_api_key_file_written_by_echo_loses_its_newline_and_an_empty_one_is_refused() {
    let mut host = Fake::default();
    host.files
        .insert("/tmp/key".to_string(), "sekrit\r\n".to_string());
    host.files.insert("/tmp/empty".to_string(), " \n".to_string());

    assert_eq!(api_key_file("/tmp/key", &mut host).expect("read"), "sekrit");
    let error = api_key_file("/tmp/empty", &mut host).expect_err("empty");
    assert!(
        matches!(error, DecideError::ApiKeyFileEmpty { .. }),
        "{}",
        error.message()
    );
}

#[test]
fn one_newline_and_one_carriage_return_are_removed_and_nothing_more() {
    assert_eq!(one_trailing_newline_removed("token\n"), "token");
    assert_eq!(one_trailing_newline_removed("token\r\n"), "token");
    assert_eq!(one_trailing_newline_removed("token\n\n"), "token\n");
    assert_eq!(one_trailing_newline_removed("token"), "token");
    assert_eq!(one_trailing_newline_removed(""), "");
}

#[test]
fn a_credential_is_read_from_a_pipe_without_a_prompt() {
    let mut pipe = stdin("sekrit-token\n", false);
    let mut err = Vec::new();
    let mut never = Fake::default();

    let token = read_token(&mut pipe, &mut err, &mut never).expect("a pipe is read");

    assert_eq!(token, "sekrit-token");
    assert!(
        err.is_empty(),
        "a pipe is not a person, so there is no prompt"
    );
}

#[test]
fn a_terminal_is_prompted_and_the_prompt_goes_to_stderr() {
    let mut terminal = stdin("", true);
    let mut err = Vec::new();
    let mut secret = Fake {
        secret: Some(Ok("typed-token".to_string())),
        ..Fake::default()
    };

    let token = read_token(&mut terminal, &mut err, &mut secret).expect("the prompt works");

    assert_eq!(token, "typed-token");
    let written = String::from_utf8(err).expect("a diagnostic is text");
    assert!(written.starts_with(PROMPT), "{written}");
    assert!(
        written.ends_with('\n'),
        "the return key was not echoed either"
    );
}

#[test]
fn a_terminal_read_that_fails_is_refused_by_name() {
    let mut terminal = stdin("", true);
    let mut err = Vec::new();
    let mut secret = Fake {
        secret: Some(Err("No such device or address".to_string())),
        ..Fake::default()
    };

    let error = read_token(&mut terminal, &mut err, &mut secret).expect_err("no terminal");

    assert_eq!(error.exit_code(), 2);
    assert!(error.message().contains("No such device"), "{}", error.message());
}

#[test]
fn an_empty_token_is_refused_whichever_way_it_arrived() {
    let mut pipe = stdin("  \n", false);
    let mut err = Vec::new();
    let mut secret = Fake {
        secret: Some(Err("the terminal was not expected".to_string())),
        ..Fake::default()
    };
    let error = read_token(&mut pipe, &mut err, &mut secret).expect_err("nothing to store");
    assert_eq!(error.exit_code(), 2);
    assert!(
        error.message().contains("nothing was piped in"),
        "{}",
        error.message()
    );

    let mut terminal = stdin("", true);
    let mut err = Vec::new();
    let mut secret = Fake {
        secret: Some(Ok("   ".to_string())),
        ..Fake::default()
    };
    let error = read_token(&mut terminal, &mut err, &mut secret).expect_err("nothing typed");
    assert_eq!(error.exit_code(), 2);
    assert!(error.message().contains("nothing was typed"), "{}", error.message());
}

#[test]
fn a_typed_token_keeps_its_own_whitespace() {
    let mut terminal = stdin("", true);
    let mut err = Vec::new();
    let mut secret = Fake {
        secret: Some(Ok("  a token with spaces  ".to_string())),
        ..Fake::default()
    };

    let token = read_token(&mut terminal, &mut err, &mut secret).expect("typed");

    assert_eq!(
        token, "  a token with spaces  ",
        "only a newline is stripped"
    );
}

#[test]
fn a_source_describes_itself_without_revealing_the_credential() {
    assert_eq!(Source::Environment.describe(), "TYPESAFE_API_KEY");

    let described = Source::Stored("/home/ant/.config/decide/api-key".to_string()).describe();
    assert!(described.contains("api-key"), "{described}");
}

#[test]
fn a_named_file_describes_itself_by_its_path() {
    assert_eq!(
        Source::File("/tmp/key".to_string()).describe(),
        "the file \"/tmp/key\" named by --api-key-file or TYPESAFE_API_KEY_FILE"
    );
}
