//! Ask Jev for a typed decision, and get JSON a shell script can branch on.
//!
//! `decide` is a thin, opinionated transport over TypeSafe's System One ("Jev") model: one
//! state, a set of typed questions, and one JSON response with no text to parse. It is
//! written for two callers — a shell script a human wrote, and a language model driving a
//! bash tool — and the second one is why every mistake is refused locally and by name.
//!
//! Nothing in this crate touches a stream, a file, the network, or the environment itself:
//! [`run`] receives an [`Io`] holding stdin, stdout, and stderr, and a [`host::Host`] that
//! does the rest, so what lands on stdout is an assertion in a test rather than something
//! captured from a subprocess.

pub mod cli;
pub mod client;
pub mod config;
pub mod error;
pub mod host;
pub mod input;
pub mod json;
pub mod report;
pub mod round_trip;
pub mod streams;
pub mod text;
pub mod wire;

pub use cli::{AuthCommand, Cli, Command, EvalArgs, GlobalArgs};
pub use error::DecideError;
pub use input::Stdin;

use vstd::prelude::*;

use crate::client::{allowed_attempts, get_models, post_systemone, success, systemone_url, ClientConfig};
use crate::config::{
    clear_at, env_key, read_token, resolve, source_words, store_at, store_path, SourceView,
};
use crate::host::{same_env, Host};
use crate::input::{
    chosen_model, named_sources, state_failure, Source, base_root, choice_question, level_values, names_distinct, names_host, noul_criteria,
    noul_question, option_entries, read_document, resolve_base_url, resolve_model, resolve_state,
    score_question, StateArgs,
};
use crate::json::{compact_json, json_text, parsed_json, value_get, Json, JsonValue};
use crate::report::{
    answer_lookup, answer_value, is_path_error, one_answer, render_json, render_value, select, value_text,
    walk, walk_path,
};
use crate::streams::{flush, write_line, write_text};
use crate::text::{as_text, is_blank, join3, opt_view, owned, owned_opt_view};
use crate::wire::{
    questions_view, reports, request_fault, request_json, response_of, document_of, CriteriaView,
    DocumentView, ResponseView, Document, Fault, ModelsResponse, Question, QuestionKind,
    QuestionView, Request, RequestView, Response,
};

verus! {

/// The three streams a run may touch, injected rather than reached for.
pub struct Io<In, Out, Log> {
    /// Standard input, with whether it is a terminal.
    pub stdin: Stdin<In>,
    /// The response, and nothing else.
    pub stdout: Out,
    /// Progress and errors.
    pub stderr: Log,
}

/// The errors a run of `models` can end in.
pub open spec fn models_failure(e: DecideError) -> bool {
    ||| e is BaseUrlWithoutScheme
    ||| e is MissingApiKey
    ||| e is ApiKeyFileUnreadable
    ||| e is ApiKeyFileEmpty
    ||| e is CredentialUnreadable
    ||| e is Status
    ||| e is Timeout
    ||| e is Transport
    ||| e is ResponseNotJson
    ||| e is PathNotFound
    ||| e is Output
}

/// The errors a run of `auth` can end in, by action. A token typed at a terminal is read
/// by a [`config::Secret`], whose own refusal is passed on as it is.
pub open spec fn auth_failure(command: AuthCommand, terminal: bool, e: DecideError) -> bool {
    match command {
        AuthCommand::Status => e is ApiKeyFileUnreadable || e is ApiKeyFileEmpty
            || e is CredentialUnreadable || e is Output,
        AuthCommand::Unset => e is NoCredentialStore || e is CredentialUnwritable,
        AuthCommand::Store => terminal || e is NoCredentialStore || e is CredentialUnwritable
            || e is EmptyToken || e is UnreadableFile,
    }
}

/// The question a shorthand subcommand asks, under its id, once its flags are read: the
/// noul or score it builds, and the choice when no option name repeats.
pub open spec fn shorthand_question(command: Command) -> Option<(Seq<char>, QuestionView)> {
    match command {
        Command::Noul { instruction, id, yes, no, .. } => Some(
            (
                id@,
                QuestionView {
                    kind: QuestionKind::Noul,
                    instructions: JsonValue::String(instruction@),
                    criteria: noul_criteria(owned_opt_view(yes), owned_opt_view(no)),
                },
            ),
        ),
        Command::Choice { instruction, id, option, .. } => if names_distinct(
            option@,
            option@.len() as int,
        ) {
            Some(
                (
                    id@,
                    QuestionView {
                        kind: QuestionKind::Choice,
                        instructions: JsonValue::String(instruction@),
                        criteria: Some(CriteriaView::Choice(option_entries(option@))),
                    },
                ),
            )
        } else {
            None
        },
        Command::Score { instruction, id, level, .. } => Some(
            (
                id@,
                QuestionView {
                    kind: QuestionKind::Score,
                    instructions: JsonValue::String(instruction@),
                    criteria: Some(CriteriaView::Score(level_values(level@))),
                },
            ),
        ),
        _ => None,
    }
}

/// Whether the evaluation flags ask for no state and name no other source of one.
pub open spec fn asks_about_no_state(eval: EvalArgs) -> bool {
    eval.no_state && !eval.state_json && eval.state is None && eval.state_file is None
}

/// The refusal a lone question asked about no state earns, if it earns one. The model a
/// request names is never a reason to refuse it.
pub open spec fn lone_question_fault(question: (Seq<char>, QuestionView)) -> Option<Fault> {
    request_fault(
        RequestView { state: JsonValue::Null, model: Seq::empty(), questions: seq![question] },
    )
}

/// The errors an evaluation can end in before a credential is looked for or a connection
/// is opened: the invocation, the document, the state, a documented limit, or the output.
pub open spec fn local_failure(e: DecideError) -> bool {
    ||| state_failure(e)
    ||| e is NoDocument
    ||| e is DocumentNotJson
    ||| e is DocumentNotObject
    ||| e is Invalid
    ||| e is DuplicateOption
    ||| e is OneAnswerRequired
    ||| e is Output
}

/// Run one invocation and write its result to `io.stdout`.
///
/// `--dry-run` prints the request body and returns without a credential or a connection;
/// everything else resolves the credential, makes one call (retrying as the policy says),
/// and prints the response, a value selected out of it, or the one answer. `auth` keeps
/// the credential.
///
/// What is printed is worked out first, by [`output`], which is never handed stdout, and
/// written once, whole, at the end: a run that fails leaves stdout untouched.
pub fn run<In: std::io::Read, Out: std::io::Write, Log: std::io::Write, H: Host>(
    cli: &Cli,
    io: &mut Io<In, Out, Log>,
    host: &mut H,
) -> (r: Result<(), DecideError>)
    ensures
        final(io).stdin.spec_terminal() == old(io).stdin.spec_terminal(),
        r matches Err(e) && !(e is Output) ==> final(io).stdout == old(io).stdout,
        cli.command matches Command::Auth { command } && command != AuthCommand::Status
            ==> final(io).stdout == old(io).stdout,
        cli.command !is Auth && !cli.global.verbose ==> final(io).stderr == old(io).stderr,
        cli.command is Models ==> (r matches Err(e) ==> models_failure(e)),
        cli.command matches Command::Auth { command } ==> (r matches Err(e) ==> auth_failure(
            command,
            old(io).stdin.spec_terminal(),
            e,
        )),
        match cli.command.spec_eval() {
            Some(eval) => asks_about_no_state(eval) ==> match shorthand_question(cli.command) {
                Some(question) => match lone_question_fault(question) {
                    Some(fault) => r matches Err(e) && reports(e, fault),
                    None => eval.dry_run ==> (r is Ok || (r matches Err(e) && e is Output)),
                },
                None => true,
            },
            None => true,
        },
        cli.command.spec_eval() matches Some(eval) && eval.dry_run ==> (r matches Err(e)
            ==> local_failure(e)),
        cli.command !is Auth ==> (r matches Err(DecideError::OneAnswerRequired { count, .. })
            ==> count != 1),
{
    match output(cli, &mut io.stdin, &mut io.stderr, host)? {
        Some(text) => emit(&mut io.stdout, text.as_str()),
        None => Ok(()),
    }
}

/// What one invocation prints on stdout, if anything, worked out without stdout: the
/// evaluation's output, the model list, or what `auth status` says.
pub fn output<In: std::io::Read, Log: std::io::Write, H: Host>(
    cli: &Cli,
    stdin: &mut Stdin<In>,
    stderr: &mut Log,
    host: &mut H,
) -> (r: Result<Option<String>, DecideError>)
    ensures
        final(stdin).spec_terminal() == old(stdin).spec_terminal(),
        cli.command !is Auth && !cli.global.verbose ==> *final(stderr) == *old(stderr),
        cli.command !is Auth ==> (r matches Ok(printed) ==> printed is Some),
        cli.command is Models ==> (r matches Err(e) ==> models_failure(e)),
        cli.command matches Command::Auth { command } ==> match r {
            Ok(printed) => printed is Some <==> command == AuthCommand::Status,
            Err(e) => auth_failure(command, old(stdin).spec_terminal(), e),
        },
        match cli.command.spec_eval() {
            Some(eval) => asks_about_no_state(eval) ==> match shorthand_question(cli.command) {
                Some(question) => match lone_question_fault(question) {
                    Some(fault) => r matches Err(e) && reports(e, fault),
                    None => eval.dry_run ==> (r matches Ok(Some(text)) && exists|model: Seq<char>|
                        #[trigger] dry_run_text(model, question, cli.global.pretty) == text@ && (
                        eval.model matches Some(m) ==> model == m@)),
                },
                None => true,
            },
            None => true,
        },
        cli.command.spec_eval() matches Some(eval) ==> match r {
            Ok(printed) => printed matches Some(text) && exists|request: RequestView|
                #[trigger] built(request, cli.command, eval) && evaluation_text(
                    request,
                    eval,
                    cli.global,
                    text@,
                ),
            Err(e) => local_failure(e) || evaluation_failure(e, cli.global),
        },
        cli.command is Models ==> (r matches Ok(Some(text)) ==> exists|body: Seq<char>|
            #[trigger] models_text(body, cli.global) == Some(text@)),
        cli.command.spec_eval() matches Some(eval) && eval.dry_run ==> (r matches Err(e)
            ==> local_failure(e)),
        cli.command !is Auth ==> (r matches Err(DecideError::OneAnswerRequired { count, .. })
            ==> count != 1),
        cli.command !is Auth ==> (r matches Err(e) ==> !(e is Output)),
{
    match &cli.command {
        Command::Models => match run_models(cli, stderr, host) {
            Ok(text) => Ok(Some(text)),
            Err(e) => Err(e),
        },
        Command::Auth { command } => run_auth(*command, cli, stdin, stderr, host),
        _ => match run_eval(cli, stdin, stderr, host) {
            Ok(text) => Ok(Some(text)),
            Err(e) => Err(e),
        },
    }
}

/// The refusal of `--value` or `--field` for a request that does not ask exactly one
/// question: the value of several answers is not defined, and a caller that asked for it
/// must not pay for a request to find that out.
pub fn check_one_answer(eval: &EvalArgs, request: &Request) -> (r: Result<(), DecideError>)
    ensures
        ((eval.value || eval.field is Some) && request@.questions.len() != 1) <==> r is Err,
        r matches Err(e) ==> (e matches DecideError::OneAnswerRequired { flag, count } && count
            == request@.questions.len() && flag@ == (if eval.value {
            "--value"@
        } else {
            "--field"@
        })),
{
    if eval.value || eval.field.is_some() {
        let flag = if eval.value {
            "--value"
        } else {
            "--field"
        };
        if request.only_question_id().is_none() {
            return Err(DecideError::OneAnswerRequired { flag, count: request.question_count() });
        }
    }
    Ok(())
}

/// The evaluation path: one request, and what to print of its response.
///
/// Everything a local check can refuse is refused before a connection is opened: the
/// state, the document, every documented limit, and `--value` or `--field` on a request
/// that asked more than one question.
fn run_eval<In: std::io::Read, Log: std::io::Write, H: Host>(
    cli: &Cli,
    stdin: &mut Stdin<In>,
    stderr: &mut Log,
    host: &mut H,
) -> (r: Result<String, DecideError>)
    ensures
        final(stdin).spec_terminal() == old(stdin).spec_terminal(),
        !cli.global.verbose ==> *final(stderr) == *old(stderr),
        cli.command is Models ==> (r matches Err(e) ==> models_failure(e)),
        r matches Err(DecideError::OneAnswerRequired { count, .. }) ==> count != 1,
        r matches Err(e) ==> !(e is Output),
        match cli.command.spec_eval() {
            Some(eval) => asks_about_no_state(eval) ==> match shorthand_question(cli.command) {
                Some(question) => match lone_question_fault(question) {
                    Some(fault) => r matches Err(e) && reports(e, fault),
                    None => eval.dry_run ==> (r matches Ok(text) && exists|model: Seq<char>|
                        #[trigger] dry_run_text(model, question, cli.global.pretty) == text@ && (
                        eval.model matches Some(m) ==> model == m@)),
                },
                None => true,
            },
            None => true,
        },
        cli.command.spec_eval() matches Some(eval) ==> match r {
            Ok(text) => exists|request: RequestView|
                #[trigger] built(request, cli.command, eval) && evaluation_text(
                    request,
                    eval,
                    cli.global,
                    text@,
                ),
            Err(e) => local_failure(e) || evaluation_failure(e, cli.global),
        },
        cli.command.spec_eval() matches Some(eval) && eval.dry_run ==> (r matches Err(e)
            ==> local_failure(e)),
{
    let eval = match cli.command.eval() {
        Some(eval) => eval,
        None => {
            // `run` dispatches `models` and `auth` before it gets here. Falling back to the
            // models path keeps the arm honest without a panic.
            return run_models(cli, stderr, host);
        },
    };
    let request = build_request(eval, &cli.command, stdin, host)?;
    let r = evaluate(&request, eval, &cli.global, stderr, host);
    proof {
        if asks_about_no_state(*eval) && shorthand_question(cli.command) is Some {
            let question = shorthand_question(cli.command).unwrap();
            if lone_question_fault(question) is None {
                assert(request@ == RequestView {
                    state: JsonValue::Null,
                    model: request@.model,
                    questions: seq![question],
                });
                assert(dry_run_text(request@.model, question, cli.global.pretty) == json_text(
                    request_json(request@),
                    cli.global.pretty,
                ));
            }
        }
        assert(built(request@, cli.command, *eval));
    }
    r
}

/// What a dry run of one shorthand question about no state prints, for the model it names.
pub open spec fn dry_run_text(model: Seq<char>, question: (Seq<char>, QuestionView), pretty: bool) -> Seq<
    char,
> {
    json_text(
        request_json(RequestView { state: JsonValue::Null, model, questions: seq![question] }),
        pretty,
    )
}

/// Build the request an evaluation sends: its questions, its state, and its model, each from
/// the source the flags, the document, stdin, and the environment leave it.
pub fn build_request<In: std::io::Read, H: Host>(
    eval: &EvalArgs,
    command: &Command,
    stdin: &mut Stdin<In>,
    host: &mut H,
) -> (r: Result<Request, DecideError>)
    ensures
        final(stdin).spec_terminal() == old(stdin).spec_terminal(),
        r matches Ok(request) ==> request_fault(request@) is None,
        r matches Ok(request) ==> built(request@, *command, *eval),
        same_env(*old(host), *final(host)),
        r matches Ok(request) ==> (command !is Ask ==> request@.model == chosen_model(
            owned_opt_view(eval.model),
            None,
            old(host).env("TYPESAFE_DEFAULT_MODEL"@),
        )),
        r matches Ok(request) ==> (command is Ask ==> exists|text: Seq<char>|
            #[trigger] document_read(text) matches Some(document) && request@.questions
                == document.questions && request@.model == chosen_model(
                owned_opt_view(eval.model),
                document.model,
                old(host).env("TYPESAFE_DEFAULT_MODEL"@),
            )),
        r matches Err(e) ==> local_failure(e) && !(e is OneAnswerRequired) && !(e is Output),
        asks_about_no_state(*eval) ==> match shorthand_question(*command) {
            Some(question) => match lone_question_fault(question) {
                Some(fault) => r matches Err(e) && reports(e, fault),
                None => r matches Ok(request) && request@.state == JsonValue::Null
                    && request@.questions == seq![question],
            },
            None => true,
        },
{
    let prepared = prepare(command, stdin, host)?;
    let state = resolve_state(
        &state_args(eval),
        prepared.document_state.as_ref(),
        stdin,
        prepared.stdin_consumed,
        host,
    )?;
    let environment_model = host.env_var("TYPESAFE_DEFAULT_MODEL");
    let flag = as_text(&eval.model);
    let document_model = as_text(&prepared.document_model);
    let environment = as_text(&environment_model);
    let model = resolve_model(flag, document_model, environment);
    proof {
        assert(opt_view(flag) == owned_opt_view(eval.model));
        assert(opt_view(document_model) == owned_opt_view(prepared.document_model));
        assert(opt_view(environment) == old(host).env("TYPESAFE_DEFAULT_MODEL"@));
        if command is Ask {
            let text = choose|text: Seq<char>|
                #[trigger] document_read(text) == Some(prepared_view(prepared));
            assert(document_read(text) == Some(prepared_view(prepared)));
        }
    }
    proof {
        if shorthand_question(*command) is Some {
            assert(questions_view(prepared.questions@) =~= seq![
                shorthand_question(*command).unwrap(),
            ]);
        }
        if asks_about_no_state(*eval) && shorthand_question(*command) is Some {
            assert(named_sources(false, false, true, false, old(stdin).spec_terminal(), false)
                =~= seq![Source::NoState]);
            assert(state@ == JsonValue::Null);
        }
    }
    Request::new(state, model, prepared.questions)
}

/// The body a request is sent as: its JSON, compact.
pub fn request_body(request: &Request) -> (r: String)
    ensures
        r@ == json_text(request_json(request@), false),
{
    render_json(&request.to_value(), false)
}

/// Without `--pretty`, a dry run prints the very text a call sends for the same request:
/// what [`evaluate`] prints on a dry run and what [`request_body`] hands to the call are both
/// the compact JSON of the request.
pub proof fn lemma_dry_run_prints_the_sent_body(request: RequestView)
    ensures
        json_text(request_json(request), false) == compact_json(request_json(request)),
{
}

/// Finish an evaluation of a built request: refuse `--value` or `--field` when it does not
/// ask exactly one question, print its body on a dry run, and otherwise send it, read the
/// response against it, and render what was asked for.
pub fn evaluate<Log: std::io::Write, H: Host>(
    request: &Request,
    eval: &EvalArgs,
    global: &GlobalArgs,
    stderr: &mut Log,
    host: &mut H,
) -> (r: Result<String, DecideError>)
    ensures
        (eval.value || eval.field is Some) && request@.questions.len() != 1 ==> (r matches Err(e)
            && e matches DecideError::OneAnswerRequired { flag, count } && count
            == request@.questions.len() && flag@ == answer_flag(*eval)),
        !((eval.value || eval.field is Some) && request@.questions.len() != 1) && eval.dry_run
            ==> (r matches Ok(text) && text@ == json_text(request_json(request@), global.pretty)),
        !((eval.value || eval.field is Some) && request@.questions.len() != 1) && !eval.dry_run
            && !names_host(base_root(global.base_url@)) ==> (r matches Err(e)
            && e is BaseUrlWithoutScheme),
        eval.dry_run || !global.verbose ==> *final(stderr) == *old(stderr),
        r matches Ok(text) ==> evaluation_text(request@, *eval, *global, text@),
        r matches Err(DecideError::OneAnswerRequired { count, .. }) ==> count != 1,
        r matches Err(e) ==> evaluation_failure(e, *global),
{
    check_one_answer(eval, request)?;
    if eval.dry_run {
        return Ok(render_json(&request.to_value(), global.pretty));
    }
    let config = client_config(global, host)?;
    let body = request_body(request);
    let answered = post_systemone(&config, body.as_str(), stderr, host)?;
    let response = Response::from_slice(answered.as_str(), request)?;
    let r = render_response(&response, request, eval, global);
    assert(r matches Ok(text) ==> response_text(answered@, request@, *eval, *global) == Some(text@));
    r
}

/// The `models` path: one GET, and the list whole or the value selected from it.
fn run_models<Log: std::io::Write, H: Host>(cli: &Cli, stderr: &mut Log, host: &mut H) -> (r:
    Result<String, DecideError>)
    ensures
        r matches Err(e) ==> models_failure(e),
        !names_host(base_root(cli.global.base_url@)) ==> (r matches Err(e)
            && e is BaseUrlWithoutScheme),
        !cli.global.verbose ==> *final(stderr) == *old(stderr),
        r matches Err(e) ==> !(e is Output),
        r matches Ok(text) ==> exists|body: Seq<char>|
            #[trigger] models_text(body, cli.global) == Some(text@),
{
    let config = client_config(&cli.global, host)?;
    let body = get_models(&config, stderr, host)?;
    let response = ModelsResponse::from_slice(body.as_str())?;
    let r = match &cli.global.select {
        Some(path) => {
            let value = select(&response.value, path.as_str())?;
            Ok(render_value(value, cli.global.pretty))
        },
        None => Ok(render_json(&response.value, cli.global.pretty)),
    };
    assert(r matches Ok(text) ==> models_text(body@, cli.global) == Some(text@));
    r
}

/// What `models` prints for a body: the value `--select` names in it, or the whole body;
/// nothing where the body is not JSON or lacks the path.
pub open spec fn models_text(body: Seq<char>, global: GlobalArgs) -> Option<Seq<char>> {
    match parsed_json(body) {
        Some(value) => match global.select {
            Some(path) => match walk_path(value, path@) {
                Ok(selected) => Some(value_text(selected, global.pretty)),
                Err(_) => None,
            },
            None => Some(json_text(value, global.pretty)),
        },
        None => None,
    }
}

/// What `auth status` says when no source supplies a credential.
pub const NO_CREDENTIAL: &'static str = "no credential is configured";

/// The `auth` path: store, forget, or name the source of the credential.
///
/// `set` and `unset` confirm on stderr and print nothing, because they are actions;
/// `status` prints its one line, because it is a question. It never prints the credential,
/// and it asks nothing of the network.
fn run_auth<In: std::io::Read, Log: std::io::Write, H: Host>(
    command: AuthCommand,
    cli: &Cli,
    stdin: &mut Stdin<In>,
    stderr: &mut Log,
    host: &mut H,
) -> (r: Result<Option<String>, DecideError>)
    ensures
        final(stdin).spec_terminal() == old(stdin).spec_terminal(),
        r matches Err(e) ==> auth_failure(command, old(stdin).spec_terminal(), e),
        r matches Ok(printed) ==> (printed is Some <==> command == AuthCommand::Status),
        command == AuthCommand::Status ==> match r {
            Ok(Some(text)) => status_said(
                old(host).env("TYPESAFE_API_KEY"@),
                owned_opt_view(cli.global.api_key_file),
                host_store(*old(host)),
                text@,
            ),
            Ok(None) => false,
            Err(e) => credential_outcome(
                old(host).env("TYPESAFE_API_KEY"@),
                owned_opt_view(cli.global.api_key_file),
                host_store(*old(host)),
                Err(e),
            ),
        },
        command == AuthCommand::Status && env_key(old(host).env("TYPESAFE_API_KEY"@)) is Some ==> (
        r matches Ok(Some(text)) && text@ == "TYPESAFE_API_KEY"@),
{
    match command {
        AuthCommand::Status => {
            let ghost start = *host;
            let environment = host.env_var("TYPESAFE_API_KEY");
            let store = config::path(host);
            let file = as_text(&cli.global.api_key_file);
            proof {
                assert(opt_view(file) == owned_opt_view(cli.global.api_key_file));
            }
            match resolve(environment, file, as_text(&store), host) {
                Ok((source, key)) => {
                    let text = source.describe();
                    proof {
                        assert(credential_outcome(
                            start.env("TYPESAFE_API_KEY"@),
                            owned_opt_view(cli.global.api_key_file),
                            host_store(start),
                            Ok((source@, key@)),
                        ));
                    }
                    Ok(Some(text))
                },
                Err(DecideError::MissingApiKey) => Ok(Some(owned(NO_CREDENTIAL))),
                Err(e) => Err(e),
            }
        },
        AuthCommand::Store => {
            let path = match config::path(host) {
                Some(path) => path,
                None => {
                    return Err(DecideError::NoCredentialStore);
                },
            };
            let token = read_token(stdin, stderr, host)?;
            store_at(path.as_str(), token.as_str(), host)?;
            write_line(stderr, join3("stored the token in \"", path.as_str(), "\"").as_str());
            Ok(None)
        },
        AuthCommand::Unset => {
            let path = match config::path(host) {
                Some(path) => path,
                None => {
                    return Err(DecideError::NoCredentialStore);
                },
            };
            let removed = clear_at(path.as_str(), host)?;
            let line = if removed {
                join3("removed the stored token from \"", path.as_str(), "\"")
            } else {
                join3("no token was stored at \"", path.as_str(), "\"")
            };
            write_line(stderr, line.as_str());
            Ok(None)
        },
    }
}

/// The questions a request asks, and what the document supplied besides them.
pub struct Prepared {
    /// The questions, keyed by their ids.
    pub questions: Vec<(String, Question)>,
    /// The document's own state, if it carried one.
    pub document_state: Option<Json>,
    /// The document's model, if it named one.
    pub document_model: Option<String>,
    /// Whether stdin was read as the request document.
    pub stdin_consumed: bool,
}

impl Prepared {
    /// A request built from one shorthand question.
    pub fn single(id: &str, question: Question) -> (r: Self)
        ensures
            r.questions@.len() == 1,
            r.questions@[0].0@ == id@,
            r.questions@[0].1@ == question@,
            r.document_state is None,
            r.document_model is None,
            !r.stdin_consumed,
    {
        let mut questions: Vec<(String, Question)> = Vec::new();
        questions.push((owned(id), question));
        Prepared { questions, document_state: None, document_model: None, stdin_consumed: false }
    }
}

/// What a request document's text reads as, if it is JSON and a valid document.
pub open spec fn document_read(text: Seq<char>) -> Option<DocumentView> {
    match parsed_json(text) {
        Some(value) => match document_of(value) {
            Ok(document) => Some(document),
            Err(_) => None,
        },
        None => None,
    }
}

/// What a prepared request holds, as a document would say it.
pub open spec fn prepared_view(p: Prepared) -> DocumentView {
    DocumentView {
        state: match p.document_state {
            Some(s) => Some(s@),
            None => None,
        },
        model: owned_opt_view(p.document_model),
        questions: questions_view(p.questions@),
    }
}

/// Build the questions from whichever source the subcommand uses: the request document for
/// `ask`, and one question under its id for the shorthand subcommands.
pub fn prepare<In: std::io::Read, H: Host>(
    command: &Command,
    stdin: &mut Stdin<In>,
    host: &mut H,
) -> (r: Result<Prepared, DecideError>)
    ensures
        same_env(*old(host), *final(host)),
        final(stdin).spec_terminal() == old(stdin).spec_terminal(),
        r matches Err(e) ==> local_failure(e) && !(e is OneAnswerRequired) && !(e is Output),
        command !is Ask ==> (r matches Ok(p) ==> p.document_model is None),
        command matches Command::Ask { file, .. } ==> {
            &&& r matches Ok(p) ==> exists|text: Seq<char>|
                #[trigger] document_read(text) == Some(prepared_view(p))
            &&& (file matches Some(path) && path@ != "-"@) || old(stdin).spec_terminal()
                ==> *final(stdin) == *old(stdin)
            &&& file is None && old(stdin).spec_terminal() ==> (r matches Err(e) && e is NoDocument)
        },
        match command {
            Command::Noul { instruction, id, yes, no, .. } => r matches Ok(p) && p.questions@.len()
                == 1 && p.questions@[0].0@ == id@ && p.questions@[0].1@ == (
            crate::wire::QuestionView {
                kind: crate::wire::QuestionKind::Noul,
                instructions: crate::json::JsonValue::String(instruction@),
                criteria: crate::input::noul_criteria(
                    owned_opt_view(*yes),
                    owned_opt_view(*no),
                ),
            }) && p.document_state is None && p.document_model is None && !p.stdin_consumed,
            Command::Score { instruction, id, level, .. } => r matches Ok(p) && p.questions@.len()
                == 1 && p.questions@[0].0@ == id@ && p.questions@[0].1@ == (
            crate::wire::QuestionView {
                kind: crate::wire::QuestionKind::Score,
                instructions: crate::json::JsonValue::String(instruction@),
                criteria: Some(
                    crate::wire::CriteriaView::Score(crate::input::level_values(level@)),
                ),
            }) && p.document_state is None && !p.stdin_consumed,
            Command::Choice { instruction, id, option, .. } => match r {
                Ok(p) => p.questions@.len() == 1 && p.questions@[0].0@ == id@
                    && crate::input::names_distinct(option@, option@.len() as int)
                    && p.questions@[0].1@ == (crate::wire::QuestionView {
                    kind: crate::wire::QuestionKind::Choice,
                    instructions: crate::json::JsonValue::String(instruction@),
                    criteria: Some(
                        crate::wire::CriteriaView::Choice(crate::input::option_entries(option@)),
                    ),
                }) && p.document_state is None && !p.stdin_consumed,
                Err(e) => e is DuplicateOption && !crate::input::names_distinct(
                    option@,
                    option@.len() as int,
                ),
            },
            _ => true,
        },
{
    match command {
        Command::Ask { file, .. } => {
            let (text, stdin_consumed) = read_document(as_text(file), stdin, host)?;
            let document = Document::from_slice(text.as_str())?;
            assert(document_read(text@) == Some(document@));
            Ok(
                Prepared {
                    questions: document.questions,
                    document_state: document.state,
                    document_model: document.model,
                    stdin_consumed,
                },
            )
        },
        Command::Noul { instruction, id, yes, no, .. } => Ok(
            Prepared::single(
                id.as_str(),
                noul_question(instruction.as_str(), as_text(yes), as_text(no)),
            ),
        ),
        Command::Choice { instruction, id, option, .. } => {
            let question = choice_question(instruction.as_str(), option.as_slice())?;
            Ok(Prepared::single(id.as_str(), question))
        },
        Command::Score { instruction, id, level, .. } => Ok(
            Prepared::single(id.as_str(), score_question(instruction.as_str(), level.as_slice())),
        ),
        // `models` and `auth` ask no question; `run` sends them elsewhere first, so this is
        // a fallback rather than a path, and the request validator refuses it by name.
        Command::Models | Command::Auth { .. } => Ok(
            Prepared {
                questions: Vec::new(),
                document_state: None,
                document_model: None,
                stdin_consumed: false,
            },
        ),
    }
}

/// The state flags, in the shape the resolver wants them.
pub fn state_args(eval: &EvalArgs) -> (r: StateArgs<'_>)
    ensures
        r.state_json == eval.state_json,
        r.no_state == eval.no_state,
        opt_view(r.state) == owned_opt_view(eval.state),
        opt_view(r.state_file) == owned_opt_view(eval.state_file),
{
    StateArgs {
        state: as_text(&eval.state),
        state_file: as_text(&eval.state_file),
        state_json: eval.state_json,
        no_state: eval.no_state,
    }
}

/// What resolving the credential may end in, given the environment's `TYPESAFE_API_KEY`,
/// the file named, and the store's path: a non-empty environment value is the key, whatever
/// else is named; then a named file, whose failures name it; then the store, when there is
/// one; and with none of them, no credential.
pub open spec fn credential_outcome(
    environment: Option<Seq<char>>,
    file: Option<Seq<char>>,
    store: Option<Seq<char>>,
    r: Result<(SourceView, Seq<char>), DecideError>,
) -> bool {
    match env_key(environment) {
        Some(k) => r == Ok::<(SourceView, Seq<char>), DecideError>((SourceView::Environment, k)),
        None => match file {
            Some(p) => match r {
                Ok((source, key)) => source == SourceView::File(p) && !is_blank(key),
                Err(e) => (e matches DecideError::ApiKeyFileUnreadable { path, .. } && path@ == p)
                    || (e matches DecideError::ApiKeyFileEmpty { path } && path@ == p),
            },
            None => match store {
                None => r matches Err(e) && e is MissingApiKey,
                Some(p) => match r {
                    Ok((source, key)) => source == SourceView::Stored(p) && !is_blank(key),
                    Err(e) => e is MissingApiKey || (e matches DecideError::CredentialUnreadable {
                        path,
                        ..
                    } && path@ == p),
                },
            },
        },
    }
}

/// Whether `text` is what `auth status` may say: the words for the source the credential
/// resolves from, or that none is configured where resolving finds no credential.
pub open spec fn status_said(
    environment: Option<Seq<char>>,
    file: Option<Seq<char>>,
    store: Option<Seq<char>>,
    text: Seq<char>,
) -> bool {
    ||| exists|source: SourceView, key: Seq<char>|
        #[trigger] credential_outcome(environment, file, store, Ok((source, key))) && text
            == source_words(source)
    ||| text == NO_CREDENTIAL@ && credential_outcome(
        environment,
        file,
        store,
        Err(DecideError::MissingApiKey),
    )
}

/// A non-empty `TYPESAFE_API_KEY` is the credential whatever file is named and whatever the
/// store holds, and `auth status` names it as the source; an empty one counts as unset.
pub proof fn lemma_environment_credential_wins(
    key: Seq<char>,
    file: Option<Seq<char>>,
    store: Option<Seq<char>>,
    r: Result<(SourceView, Seq<char>), DecideError>,
    text: Seq<char>,
)
    ensures
        key.len() > 0 ==> (credential_outcome(Some(key), file, store, r) <==> r == Ok::<
            (SourceView, Seq<char>),
            DecideError,
        >((SourceView::Environment, key))),
        key.len() > 0 ==> (status_said(Some(key), file, store, text) <==> text
            == "TYPESAFE_API_KEY"@),
        key.len() == 0 ==> credential_outcome(Some(key), file, store, r) == credential_outcome(
            None,
            file,
            store,
            r,
        ),
{
    if key.len() > 0 && text == "TYPESAFE_API_KEY"@ {
        assert(credential_outcome(
            Some(key),
            file,
            store,
            Ok((SourceView::Environment, key)),
        ));
    }
}

/// Whether `key` is a credential resolving may give, from some source.
pub open spec fn key_resolved(
    environment: Option<Seq<char>>,
    file: Option<Seq<char>>,
    store: Option<Seq<char>>,
    key: Seq<char>,
) -> bool {
    exists|source: SourceView|
        #[trigger] credential_outcome(environment, file, store, Ok((source, key)))
}

/// A credential's result, with the source it is said to come from.
pub open spec fn with_source(r: Result<String, DecideError>, source: SourceView) -> Result<
    (SourceView, Seq<char>),
    DecideError,
> {
    match r {
        Ok(key) => Ok((source, key@)),
        Err(e) => Err(e),
    }
}

/// The path of the credential store a host's environment gives.
pub open spec fn host_store<H: Host>(host: H) -> Option<Seq<char>> {
    store_path(host.env("XDG_CONFIG_HOME"@), host.env("HOME"@))
}

/// The credential a call sends: from the environment, a named file, or the store.
pub fn resolve_api_key<H: Host>(file: Option<&str>, host: &mut H) -> (r: Result<String, DecideError>)
    ensures
        same_env(*old(host), *final(host)),
        exists|source: SourceView|
            #[trigger] credential_outcome(
                old(host).env("TYPESAFE_API_KEY"@),
                opt_view(file),
                host_store(*old(host)),
                with_source(r, source),
            ),
        env_key(old(host).env("TYPESAFE_API_KEY"@)) matches Some(k) ==> (r matches Ok(key) && key@
            == k),
        r matches Ok(key) ==> key@.len() > 0,
        r matches Err(e) ==> (e is MissingApiKey || e is ApiKeyFileUnreadable || e is ApiKeyFileEmpty
            || e is CredentialUnreadable),
{
    let ghost start = *host;
    let environment = host.env_var("TYPESAFE_API_KEY");
    let ghost read = *host;
    let store = config::path(host);
    let ghost located = *host;
    let resolved = resolve(environment, file, as_text(&store), host);
    assert(same_env(start, *host)) by {
        assert forall|n: Seq<char>| #[trigger] host.env(n) == start.env(n) by {
            assert(located.env(n) == read.env(n));
        }
    }
    match resolved {
        Ok((source, key)) => {
            proof {
                if key@.len() == 0 {
                    assert(crate::text::is_blank(key@));
                }
                assert(credential_outcome(
                    start.env("TYPESAFE_API_KEY"@),
                    opt_view(file),
                    host_store(start),
                    Ok((source@, key@)),
                ));
                assert(with_source(Ok::<String, DecideError>(key), source@) == Ok::<
                    (SourceView, Seq<char>),
                    DecideError,
                >((source@, key@)));
            }
            Ok(key)
        },
        Err(e) => {
            proof {
                assert(credential_outcome(
                    start.env("TYPESAFE_API_KEY"@),
                    opt_view(file),
                    host_store(start),
                    Err(e),
                ));
                assert(with_source(Err::<String, DecideError>(e), SourceView::Environment) == Err::<
                    (SourceView, Seq<char>),
                    DecideError,
                >(e));
            }
            Err(e)
        },
    }
}

/// Everything a call needs, credential included. The base URL is checked first, so a URL
/// that would go nowhere is refused before a credential is looked for.
pub fn client_config<H: Host>(global: &GlobalArgs, host: &mut H) -> (r: Result<
    ClientConfig,
    DecideError,
>)
    ensures
        same_env(*old(host), *final(host)),
        !names_host(base_root(global.base_url@)) ==> (r matches Err(e) && e is BaseUrlWithoutScheme),
        names_host(base_root(global.base_url@)) ==> match env_key(
            old(host).env("TYPESAFE_API_KEY"@),
        ) {
            Some(k) => r matches Ok(c) && c.api_key@ == k,
            None => true,
        },
        r matches Ok(c) ==> key_resolved(
            old(host).env("TYPESAFE_API_KEY"@),
            owned_opt_view(global.api_key_file),
            host_store(*old(host)),
            c.api_key@,
        ),
        r matches Ok(c) ==> {
            &&& c.base_url@ == base_root(global.base_url@)
            &&& c.api_key@.len() > 0
            &&& c.timeout_secs == global.timeout
            &&& c.retries == global.retries
            &&& c.backoff_ms == global.backoff_ms
            &&& c.verbose == global.verbose
        },
        r matches Err(e) ==> (e is BaseUrlWithoutScheme || e is MissingApiKey
            || e is ApiKeyFileUnreadable || e is ApiKeyFileEmpty || e is CredentialUnreadable),
{
    let base_url = resolve_base_url(global.base_url.as_str())?;
    let ghost start = *host;
    let file = as_text(&global.api_key_file);
    let resolved = resolve_api_key(file, host);
    let api_key = match resolved {
        Ok(key) => key,
        Err(e) => {
            return Err(e);
        },
    };
    let config = ClientConfig {
        base_url,
        api_key,
        timeout_secs: global.timeout,
        retries: global.retries,
        backoff_ms: global.backoff_ms,
        verbose: global.verbose,
    };
    proof {
        let source = choose|source: SourceView|
            #[trigger] credential_outcome(
                start.env("TYPESAFE_API_KEY"@),
                opt_view(file),
                host_store(start),
                with_source(resolved, source),
            );
        assert(opt_view(file) == owned_opt_view(global.api_key_file));
        assert(credential_outcome(
            old(host).env("TYPESAFE_API_KEY"@),
            owned_opt_view(global.api_key_file),
            host_store(*old(host)),
            Ok((source, config.api_key@)),
        ));
        assert(key_resolved(
            old(host).env("TYPESAFE_API_KEY"@),
            owned_opt_view(global.api_key_file),
            host_store(*old(host)),
            config.api_key@,
        ));
    }
    Ok(config)
}

/// The flag that asked for one answer: `--value` when it was given, `--field` otherwise.
pub open spec fn answer_flag(eval: EvalArgs) -> Seq<char> {
    if eval.value {
        "--value"@
    } else {
        "--field"@
    }
}

/// What is printed of `response` to `request`, in the precedence the conflicts leave open:
/// the value `--select` names, the one answer's own value for `--value`, the value `--field`
/// names in it, or the whole response; nothing where what was asked for is not there.
pub open spec fn rendered(
    response: ResponseView,
    request: RequestView,
    eval: EvalArgs,
    global: GlobalArgs,
) -> Option<Seq<char>> {
    match global.select {
        Some(path) => match walk_path(response.value, path@) {
            Ok(value) => Some(value_text(value, global.pretty)),
            Err(_) => None,
        },
        None => if eval.value || eval.field is Some {
            if request.questions.len() != 1 {
                None
            } else {
                match answer_lookup(response.answers, request.questions[0].0) {
                    None => None,
                    Some(answer) => if eval.value {
                        match value_get(answer.value, answer.kind.name()) {
                            Some(own) => Some(value_text(own, global.pretty)),
                            None => None,
                        }
                    } else {
                        match walk_path(answer.value, eval.field->0@) {
                            Ok(value) => Some(value_text(value, global.pretty)),
                            Err(_) => None,
                        }
                    },
                }
            }
        } else {
            Some(json_text(response.value, global.pretty))
        },
    }
}

/// What is printed for a response body to `request`: the body read as JSON, checked against
/// the request, and rendered; nothing where any step refuses it.
pub open spec fn response_text(
    body: Seq<char>,
    request: RequestView,
    eval: EvalArgs,
    global: GlobalArgs,
) -> Option<Seq<char>> {
    match parsed_json(body) {
        Some(value) => match response_of(value, request) {
            Ok(response) => rendered(response, request, eval, global),
            Err(_) => None,
        },
        None => None,
    }
}

/// The errors an evaluation can end in once its request is built: the refusal of
/// `--value` or `--field`, the base URL or the credential, the call's own failures on the
/// evaluation endpoint, and a response that is not JSON, breaks the contract, or lacks the
/// path asked for.
pub open spec fn evaluation_failure(e: DecideError, global: GlobalArgs) -> bool {
    match e {
        DecideError::Status { status, .. } => !success(status),
        DecideError::Timeout { url, seconds } => url@ == systemone_url(base_root(global.base_url@))
            && seconds == global.timeout,
        DecideError::Transport { attempts, .. } => attempts == allowed_attempts(global.retries),
        _ => {
            ||| e is OneAnswerRequired
            ||| e is BaseUrlWithoutScheme
            ||| e is MissingApiKey
            ||| e is ApiKeyFileUnreadable
            ||| e is ApiKeyFileEmpty
            ||| e is CredentialUnreadable
            ||| e is ResponseNotJson
            ||| e is ResponseContract
            ||| e is PathNotFound
        },
    }
}

/// What an evaluation of `request` prints: its body on a dry run, and otherwise what is
/// rendered of some response body; never for `--value` or `--field` on other than one
/// question.
pub open spec fn evaluation_text(
    request: RequestView,
    eval: EvalArgs,
    global: GlobalArgs,
    text: Seq<char>,
) -> bool {
    &&& !((eval.value || eval.field is Some) && request.questions.len() != 1)
    &&& if eval.dry_run {
        text == json_text(request_json(request), global.pretty)
    } else {
        exists|body: Seq<char>| #[trigger] response_text(body, request, eval, global) == Some(text)
    }
}

/// `--verbose` changes nothing of what an evaluation may print or fail with, nor of what
/// `models` may print: it only adds progress on stderr.
pub proof fn lemma_verbose_changes_no_output(
    request: RequestView,
    eval: EvalArgs,
    global: GlobalArgs,
    verbose: bool,
    text: Seq<char>,
    e: DecideError,
)
    ensures
        evaluation_text(request, eval, global, text) == evaluation_text(
            request,
            eval,
            GlobalArgs { verbose, ..global },
            text,
        ),
        evaluation_failure(e, global) == evaluation_failure(e, GlobalArgs { verbose, ..global }),
        forall|body: Seq<char>|
            models_text(body, global) == #[trigger] models_text(body, GlobalArgs { verbose, ..global }),
{
    let other = GlobalArgs { verbose, ..global };
    assert forall|body: Seq<char>|
        response_text(body, request, eval, global) == #[trigger] response_text(
            body,
            request,
            eval,
            other,
        ) by {}
    if exists|body: Seq<char>| #[trigger] response_text(body, request, eval, global) == Some(text) {
        let body = choose|body: Seq<char>| #[trigger] response_text(body, request, eval, global)
            == Some(text);
        assert(response_text(body, request, eval, other) == Some(text));
    }
    if exists|body: Seq<char>| #[trigger] response_text(body, request, eval, other) == Some(text) {
        let body = choose|body: Seq<char>| #[trigger] response_text(body, request, eval, other)
            == Some(text);
        assert(response_text(body, request, eval, global) == Some(text));
    }
}

/// Whether `request` is one the evaluation flags and the command can have built: valid,
/// asking the shorthand's one question where the command is a shorthand, and naming the
/// model `--model` names.
pub open spec fn built(request: RequestView, command: Command, eval: EvalArgs) -> bool {
    &&& request_fault(request) is None
    &&& shorthand_question(command) matches Some(question) ==> request.questions == seq![question]
    &&& eval.model matches Some(m) ==> request.model == m@
}

/// Render the one thing the caller asked to see, in the precedence the conflicts leave
/// open: `--select`, then `--value`, then `--field`, then the whole response.
pub fn render_response(
    response: &Response,
    request: &Request,
    eval: &EvalArgs,
    global: &GlobalArgs,
) -> (r: Result<String, DecideError>)
    ensures
        match rendered(response@, request@, *eval, *global) {
            Some(text) => r matches Ok(t) && t@ == text,
            None => r is Err,
        },
        match global.select {
            Some(path) => match walk_path(response.value@, path@) {
                Ok(value) => r matches Ok(text) && text@ == value_text(value, global.pretty),
                Err(problem) => r matches Err(e) && is_path_error(e, "--select"@, path@, problem),
            },
            None => if eval.value || eval.field is Some {
                if request@.questions.len() != 1 {
                    r matches Err(e) && e matches DecideError::OneAnswerRequired { flag, count }
                        && count == request@.questions.len() && flag@ == answer_flag(*eval)
                } else {
                    match answer_lookup(response@.answers, request@.questions[0].0) {
                        None => r matches Err(e) && e is ResponseContract,
                        Some(answer) => if eval.value {
                            match value_get(answer.value, answer.kind.name()) {
                                Some(own) => r matches Ok(t) && t@ == value_text(own, global.pretty),
                                None => r matches Err(e) && e is ResponseContract,
                            }
                        } else {
                            match walk_path(answer.value, eval.field->0@) {
                                Ok(value) => r matches Ok(t) && t@ == value_text(value, global.pretty),
                                Err(problem) => r matches Err(e) && is_path_error(
                                    e,
                                    "--field"@,
                                    eval.field->0@,
                                    problem,
                                ),
                            }
                        },
                    }
                }
            } else {
                r matches Ok(text) && text@ == json_text(response.value@, global.pretty)
            },
        },
{
    if let Some(path) = &global.select {
        let value = select(&response.value, path.as_str())?;
        return Ok(render_value(value, global.pretty));
    }
    if eval.value {
        let answer = one_answer(response, request, "--value")?;
        let value = answer_value(answer)?;
        return Ok(render_value(value, global.pretty));
    }
    if let Some(path) = &eval.field {
        let answer = one_answer(response, request, "--field")?;
        let value = walk(&answer.value, path.as_str(), "--field")?;
        return Ok(render_value(value, global.pretty));
    }
    Ok(render_json(&response.value, global.pretty))
}

/// Write the output, once, whole, and with the trailing newline a shell expects.
pub fn emit<Out: std::io::Write>(out: &mut Out, text: &str) -> (r: Result<(), DecideError>)
    ensures
        r matches Err(e) ==> e is Output,
{
    let written = match write_text(out, text) {
        Ok(()) => match write_text(out, "\n") {
            Ok(()) => flush(out),
            Err(reason) => Err(reason),
        },
        Err(reason) => Err(reason),
    };
    match written {
        Ok(()) => Ok(()),
        Err(reason) => Err(DecideError::Output { reason }),
    }
}

} // verus!
