//! Where the parts of a request come from: the state, the model, the base URL, the
//! request document, and the questions the shorthand subcommands build from flags.

use vstd::prelude::*;

use crate::error::DecideError;
use crate::host::{same_env, Host};
use crate::json::{
    entries_view, items_view, lemma_entries_view_index, lemma_entries_view_push, lemma_items_view_push, parse_json_text,
    parsed_json, Json, JsonValue,
};
use crate::text::{
    blank, ends_with, find_char, first_index, is_blank, opt_view, owned, same, starts_with, trim_end,
    trim_end_char,
};
use crate::wire::{
    check_state_kind, reports, state_kind_fault, CriteriaView, Fault, Question,
    QuestionKind, QuestionView, DEFAULT_MODEL,
};

verus! {

/// The standard input, together with the one fact about it that changes behaviour: whether
/// it is a terminal.
///
/// A piped-in state is used when nothing else supplies one; a terminal is a usage error
/// rather than a wait, because a command that blocks for input a script cannot type is a
/// hang.
pub struct Stdin<R> {
    reader: R,
    terminal: bool,
}

impl<R: std::io::Read> Stdin<R> {
    /// Whether this stdin is a terminal.
    pub closed spec fn spec_terminal(&self) -> bool {
        self.terminal
    }

    /// Pair a reader with the answer `is_terminal()` would give for it.
    pub fn new(reader: R, terminal: bool) -> (r: Self)
        ensures
            r.spec_terminal() == terminal,
    {
        Stdin { reader, terminal }
    }

    /// Whether this stdin is a terminal.
    pub fn is_terminal(&self) -> (r: bool)
        ensures
            r == self.spec_terminal(),
    {
        self.terminal
    }

    /// Read all of stdin as UTF-8 text.
    pub fn read_all(&mut self) -> (r: Result<String, String>)
        ensures
            final(self).spec_terminal() == old(self).spec_terminal(),
    {
        read_text(&mut self.reader)
    }
}

/// `Read::read_to_string`: everything the reader has left, as UTF-8 text, or the reason it
/// could not be read. What it reads is up to the reader, so nothing is said of the text.
#[verifier::external_body]
fn read_text<R: std::io::Read>(reader: &mut R) -> Result<String, String> {
    let mut buffer = String::new();
    match reader.read_to_string(&mut buffer) {
        Ok(_) => Ok(buffer),
        Err(error) => Err(error.to_string()),
    }
}


/// The state flags, as [`resolve_state`] needs them.
pub struct StateArgs<'a> {
    /// `--state TEXT`.
    pub state: Option<&'a str>,
    /// `--state-file PATH`, where `-` means stdin.
    pub state_file: Option<&'a str>,
    /// `--state-json`.
    pub state_json: bool,
    /// `--no-state`.
    pub no_state: bool,
}

/// One place a state can come from.
#[derive(Debug, Clone, Copy, PartialEq, Eq, Structural)]
pub enum Source {
    /// `--state`.
    State,
    /// `--state-file`.
    StateFile,
    /// `--no-state`.
    NoState,
    /// The `state` key of the request document.
    Document,
    /// A piped stdin.
    Stdin,
}

impl Source {
    /// The name a caller would use for this source.
    pub open spec fn spec_name(self) -> Seq<char> {
        match self {
            Source::State => "--state"@,
            Source::StateFile => "--state-file"@,
            Source::NoState => "--no-state"@,
            Source::Document => "the request document's \"state\""@,
            Source::Stdin => "stdin"@,
        }
    }

    /// The name a caller would use for this source.
    pub fn name(self) -> (r: &'static str)
        ensures
            r@ == self.spec_name(),
    {
        match self {
            Source::State => "--state",
            Source::StateFile => "--state-file",
            Source::NoState => "--no-state",
            Source::Document => "the request document's \"state\"",
            Source::Stdin => "stdin",
        }
    }
}

/// The sources named, in the order the message names them; stdin counts only when nothing
/// else is named, it was not already read as the document, and it is not a terminal.
pub open spec fn named_sources(
    state: bool,
    state_file: bool,
    no_state: bool,
    document: bool,
    terminal: bool,
    stdin_consumed: bool,
) -> Seq<Source> {
    let named = (if state { seq![Source::State] } else { Seq::empty() })
        + (if state_file { seq![Source::StateFile] } else { Seq::empty() })
        + (if no_state { seq![Source::NoState] } else { Seq::empty() })
        + (if document { seq![Source::Document] } else { Seq::empty() });
    if named.len() == 0 && !stdin_consumed && !terminal {
        seq![Source::Stdin]
    } else {
        named
    }
}

/// Why the state flags cannot supply a state, before anything is read.
pub enum StateRefusal {
    /// `--state-json` with `--no-state`.
    JsonWithNoState,
    /// `--state-json` with a document that carries its own state.
    JsonWithDocumentState,
    /// Two sources, named.
    TwoSources(Seq<char>, Seq<char>),
    /// `--state-json` with nothing to read.
    JsonWithoutSource,
    /// No source at all.
    NoSource,
}

/// Whether `e` is the error for the refusal.
pub open spec fn state_refused(e: DecideError, refusal: StateRefusal) -> bool {
    match refusal {
        StateRefusal::JsonWithNoState => e is StateJsonWithNoState,
        StateRefusal::JsonWithDocumentState => e is StateJsonWithDocumentState,
        StateRefusal::TwoSources(first, second) => e matches DecideError::TwoStateSources {
            first: f,
            second: s,
        } && f@ == first && s@ == second,
        StateRefusal::JsonWithoutSource => e is StateJsonWithoutSource,
        StateRefusal::NoSource => e is NoStateSource,
    }
}

/// The one source the state comes from, or why there is not exactly one.
pub open spec fn state_plan(
    state: bool,
    state_file: Option<Seq<char>>,
    state_json: bool,
    no_state: bool,
    document: bool,
    terminal: bool,
    stdin_consumed: bool,
) -> Result<Source, StateRefusal> {
    let sources = named_sources(state, state_file is Some, no_state, document, terminal, stdin_consumed);
    if state_json && no_state {
        Err(StateRefusal::JsonWithNoState)
    } else if state_json && document {
        Err(StateRefusal::JsonWithDocumentState)
    } else if sources.len() > 1 {
        Err(StateRefusal::TwoSources(sources[0].spec_name(), sources[1].spec_name()))
    } else if sources.len() == 0 {
        if state_json {
            Err(StateRefusal::JsonWithoutSource)
        } else {
            Err(StateRefusal::NoSource)
        }
    } else if sources[0] == Source::StateFile && state_file == Some("-"@) && stdin_consumed {
        Err(StateRefusal::TwoSources("--state-file"@, "the request document on stdin"@))
    } else {
        Ok(sources[0])
    }
}

/// The error for a refusal.
fn refusal_error(refusal: &StatePlanRefusal) -> (r: DecideError)
    ensures
        state_refused(r, refusal.spec()),
{
    match refusal {
        StatePlanRefusal::JsonWithNoState => DecideError::StateJsonWithNoState,
        StatePlanRefusal::JsonWithDocumentState => DecideError::StateJsonWithDocumentState,
        StatePlanRefusal::TwoSources(first, second) => DecideError::TwoStateSources {
            first,
            second,
        },
        StatePlanRefusal::JsonWithoutSource => DecideError::StateJsonWithoutSource,
        StatePlanRefusal::NoSource => DecideError::NoStateSource,
    }
}

/// A refusal, as the plan finds it.
pub enum StatePlanRefusal {
    /// `--state-json` with `--no-state`.
    JsonWithNoState,
    /// `--state-json` with a document that carries its own state.
    JsonWithDocumentState,
    /// Two sources, named.
    TwoSources(&'static str, &'static str),
    /// `--state-json` with nothing to read.
    JsonWithoutSource,
    /// No source at all.
    NoSource,
}

impl StatePlanRefusal {
    /// What the refusal means.
    pub open spec fn spec(&self) -> StateRefusal {
        match self {
            StatePlanRefusal::JsonWithNoState => StateRefusal::JsonWithNoState,
            StatePlanRefusal::JsonWithDocumentState => StateRefusal::JsonWithDocumentState,
            StatePlanRefusal::TwoSources(first, second) => StateRefusal::TwoSources(first@, second@),
            StatePlanRefusal::JsonWithoutSource => StateRefusal::JsonWithoutSource,
            StatePlanRefusal::NoSource => StateRefusal::NoSource,
        }
    }
}

/// Which one source the state comes from, decided before anything is read.
pub fn plan_state(
    args: &StateArgs,
    document: bool,
    terminal: bool,
    stdin_consumed: bool,
) -> (r: Result<Source, StatePlanRefusal>)
    ensures
        match state_plan(
            args.state is Some,
            match args.state_file {
                Some(p) => Some(p@),
                None => None,
            },
            args.state_json,
            args.no_state,
            document,
            terminal,
            stdin_consumed,
        ) {
            Ok(source) => r == Ok::<Source, StatePlanRefusal>(source),
            Err(refusal) => r matches Err(x) && x.spec() == refusal,
        },
{
    if args.state_json {
        if args.no_state {
            return Err(StatePlanRefusal::JsonWithNoState);
        }
        if document {
            return Err(StatePlanRefusal::JsonWithDocumentState);
        }
    }
    let mut sources: Vec<Source> = Vec::new();
    if args.state.is_some() {
        sources.push(Source::State);
    }
    if args.state_file.is_some() {
        sources.push(Source::StateFile);
    }
    if args.no_state {
        sources.push(Source::NoState);
    }
    if document {
        sources.push(Source::Document);
    }
    if sources.len() == 0 && !stdin_consumed && !terminal {
        sources.push(Source::Stdin);
    }
    let ghost expected = named_sources(
        args.state is Some,
        args.state_file is Some,
        args.no_state,
        document,
        terminal,
        stdin_consumed,
    );
    assert(sources@ =~= expected);
    if sources.len() > 1 {
        return Err(StatePlanRefusal::TwoSources(sources[0].name(), sources[1].name()));
    }
    if sources.len() == 0 {
        if args.state_json {
            return Err(StatePlanRefusal::JsonWithoutSource);
        }
        return Err(StatePlanRefusal::NoSource);
    }
    let source = sources[0];
    if source == Source::StateFile && stdin_consumed {
        if let Some(path) = args.state_file {
            if same(path, "-") {
                return Err(
                    StatePlanRefusal::TwoSources("--state-file", "the request document on stdin"),
                );
            }
        }
    }
    Ok(source)
}

/// A pipe supplies the state exactly when no other source is named, stdin was not already
/// read as the request document, and stdin is not a terminal: a named source always wins
/// over a pipe, and a terminal is never waited on.
pub proof fn lemma_stdin_only_when_nothing_is_named(
    state: bool,
    state_file: Option<Seq<char>>,
    state_json: bool,
    no_state: bool,
    document: bool,
    terminal: bool,
    stdin_consumed: bool,
)
    ensures
        state_plan(state, state_file, state_json, no_state, document, terminal, stdin_consumed)
            == Ok::<Source, StateRefusal>(Source::Stdin) <==> (!state && state_file is None && !no_state
            && !document && !terminal && !stdin_consumed),
{
    let named = (if state { seq![Source::State] } else { Seq::empty() })
        + (if state_file is Some { seq![Source::StateFile] } else { Seq::empty() })
        + (if no_state { seq![Source::NoState] } else { Seq::empty() })
        + (if document { seq![Source::Document] } else { Seq::empty() });
    assert(forall|i: int| 0 <= i < named.len() ==> named[i] != Source::Stdin);
}

/// Whether a state value is one the API accepts and is not an empty text.
pub open spec fn state_refusal(state: JsonValue) -> Option<Fault> {
    match state_kind_fault(state) {
        Some(kind) => Some(Fault::StateKind(kind)),
        None => None,
    }
}

/// Accept a state, or refuse it: a number or a boolean by name, and a text with no
/// non-whitespace character, which is what an empty pipeline looks like.
pub fn accept_state(state: Json) -> (r: Result<Json, DecideError>)
    ensures
        match state_kind_fault(state@) {
            Some(kind) => r matches Err(e) && reports(e, Fault::StateKind(kind)),
            None => if state@ matches JsonValue::String(text) && is_blank(text) {
                r matches Err(e) && e is EmptyState
            } else {
                r matches Ok(s) && s@ == state@
            },
        },
{
    check_state_kind(&state)?;
    if let Json::String(text) = &state {
        if blank(text.as_str()) {
            return Err(DecideError::EmptyState);
        }
    }
    Ok(state)
}

/// Turn text into a state: the text itself, or the JSON it holds.
pub fn value_from_text(text: &str, as_json: bool) -> (r: Result<Json, DecideError>)
    ensures
        !as_json ==> (r matches Ok(v) && v@ == JsonValue::String(text@)),
        as_json ==> match parsed_json(text@) {
            Some(v) => r matches Ok(x) && x@ == v,
            None => r matches Err(e) && e is StateNotJson,
        },
{
    if as_json {
        match parse_json_text(text) {
            Ok(value) => Ok(value),
            Err(reason) => Err(DecideError::StateNotJson { reason }),
        }
    } else {
        Ok(Json::String(owned(text)))
    }
}

/// Read a file, naming the path and the reason if it cannot be read.
pub fn read_to_string<H: Host>(path: &str, host: &mut H) -> (r: Result<String, DecideError>)
    ensures
        same_env(*old(host), *final(host)),
        r matches Err(e) ==> (e matches DecideError::UnreadableFile { path: p, .. } && p@ == path@),
{
    match host.read_file(path) {
        Ok(text) => Ok(text),
        Err(reason) => Err(DecideError::UnreadableFile { path: owned(path), reason }),
    }
}

/// Read stdin as UTF-8 text.
fn read_stdin<R: std::io::Read>(stdin: &mut Stdin<R>) -> (r: Result<String, DecideError>)
    ensures
        final(stdin).spec_terminal() == old(stdin).spec_terminal(),
        r matches Err(e) ==> (e matches DecideError::UnreadableFile { path: p, .. } && p@ == "-"@),
{
    match stdin.read_all() {
        Ok(text) => Ok(text),
        Err(reason) => Err(DecideError::UnreadableFile { path: owned("-"), reason }),
    }
}

/// The errors resolving a state can end in: the state's own refusals, and a file or stdin
/// that could not be read.
pub open spec fn state_failure(e: DecideError) -> bool {
    ||| e is TwoStateSources
    ||| e is NoStateSource
    ||| e is EmptyState
    ||| e is StateNotJson
    ||| e is StateKindUnsupported
    ||| e is StateJsonWithNoState
    ||| e is StateJsonWithDocumentState
    ||| e is StateJsonWithoutSource
    ||| e is UnreadableFile
}

/// What a state's text means: the text itself, or the JSON it holds under `--state-json`;
/// nothing when it is meant as JSON and is not JSON.
pub open spec fn state_value(text: Seq<char>, as_json: bool) -> Option<JsonValue> {
    if as_json {
        parsed_json(text)
    } else {
        Some(JsonValue::String(text))
    }
}

/// Whether `r` is what accepting the state `value` gives: a number or a boolean refused by
/// its kind, a text of nothing but white space refused as empty, and anything else kept.
pub open spec fn accepted(value: JsonValue, r: Result<Json, DecideError>) -> bool {
    match state_kind_fault(value) {
        Some(kind) => r matches Err(e) && reports(e, Fault::StateKind(kind)),
        None => if value matches JsonValue::String(text) && is_blank(text) {
            r matches Err(e) && e is EmptyState
        } else {
            r matches Ok(s) && s@ == value
        },
    }
}

/// Whether `r` is what a state given as `text` gives: refused when it is meant as JSON and
/// is not, and otherwise accepted or refused as the value it means.
pub open spec fn text_state(text: Seq<char>, as_json: bool, r: Result<Json, DecideError>) -> bool {
    match state_value(text, as_json) {
        None => r matches Err(e) && e is StateNotJson,
        Some(value) => accepted(value, r),
    }
}

/// The state a text gives, read whole: not trimmed, and parsed only under `--state-json`.
pub fn state_of_text(text: &str, as_json: bool) -> (r: Result<Json, DecideError>)
    ensures
        text_state(text@, as_json, r),
{
    let value = value_from_text(text, as_json)?;
    accept_state(value)
}

/// Resolve the one state this request sends, from the five places it can come from.
///
/// `stdin_consumed` says whether stdin has already been read as the request document, in
/// which case it cannot also be the state. `document_state` is `Some(null)` when the
/// document carried `"state": null`, which is a source; that is a different fact from the
/// key being absent.
pub fn resolve_state<R: std::io::Read, H: Host>(
    args: &StateArgs,
    document_state: Option<&Json>,
    stdin: &mut Stdin<R>,
    stdin_consumed: bool,
    host: &mut H,
) -> (r: Result<Json, DecideError>)
    ensures
        same_env(*old(host), *final(host)),
        final(stdin).spec_terminal() == old(stdin).spec_terminal(),
        match state_plan(
            args.state is Some,
            match args.state_file {
                Some(p) => Some(p@),
                None => None,
            },
            args.state_json,
            args.no_state,
            document_state is Some,
            old(stdin).spec_terminal(),
            stdin_consumed,
        ) {
            Err(refusal) => r matches Err(e) && state_refused(e, refusal),
            Ok(Source::NoState) => r matches Ok(s) && s@ == JsonValue::Null,
            Ok(Source::Document) => accepted(document_state.unwrap()@, r),
            Ok(Source::State) => text_state(args.state.unwrap()@, args.state_json, r),
            Ok(Source::Stdin) => (r matches Err(DecideError::UnreadableFile { path, .. }) && path@
                == "-"@) || exists|text: Seq<char>| #[trigger] text_state(text, args.state_json, r),
            Ok(Source::StateFile) => (r matches Err(DecideError::UnreadableFile { path, .. })
                && path@ == args.state_file.unwrap()@) || exists|text: Seq<char>|
                #[trigger] text_state(text, args.state_json, r),
        },
        r matches Ok(s) ==> state_kind_fault(s@) is None && !(s@ matches JsonValue::String(text)
            && is_blank(text)),
        r matches Err(e) ==> state_failure(e),
        match state_plan(
            args.state is Some,
            match args.state_file {
                Some(p) => Some(p@),
                None => None,
            },
            args.state_json,
            args.no_state,
            document_state is Some,
            old(stdin).spec_terminal(),
            stdin_consumed,
        ) {
            Ok(Source::Stdin) => true,
            Ok(Source::StateFile) => !(args.state_file matches Some(p) && p@ == "-"@) ==> *final(stdin)
                == *old(stdin),
            _ => *final(stdin) == *old(stdin),
        },
{
    let terminal = stdin.is_terminal();
    let source = match plan_state(args, document_state.is_some(), terminal, stdin_consumed) {
        Ok(source) => source,
        Err(refusal) => {
            return Err(refusal_error(&refusal));
        },
    };
    let state = match source {
        Source::NoState => Json::Null,
        Source::Document => match document_state {
            Some(state) => state.duplicate(),
            None => Json::Null,
        },
        Source::State => {
            let text = match args.state {
                Some(text) => text,
                None => "",
            };
            return state_of_text(text, args.state_json);
        },
        Source::StateFile => {
            let path = match args.state_file {
                Some(path) => path,
                None => "",
            };
            let text = if same(path, "-") {
                read_stdin(stdin)?
            } else {
                read_to_string(path, host)?
            };
            let r = state_of_text(text.as_str(), args.state_json);
            assert(text_state(text@, args.state_json, r));
            return r;
        },
        Source::Stdin => {
            let text = read_stdin(stdin)?;
            let r = state_of_text(text.as_str(), args.state_json);
            assert(text_state(text@, args.state_json, r));
            return r;
        },
    };
    accept_state(state)
}

/// The model a request names: `--model`, then the document's model, then
/// `TYPESAFE_DEFAULT_MODEL`, then the default.
pub open spec fn chosen_model(
    flag: Option<Seq<char>>,
    document: Option<Seq<char>>,
    environment: Option<Seq<char>>,
) -> Seq<char> {
    match flag {
        Some(f) => f,
        None => match document {
            Some(d) => d,
            None => match environment {
                Some(e) => e,
                None => DEFAULT_MODEL@,
            },
        },
    }
}

/// `--model` wins over every other source; the document's model wins over the environment;
/// `TYPESAFE_DEFAULT_MODEL` is the model exactly when neither names one; and the default
/// only when nothing does.
pub proof fn lemma_model_precedence(
    flag: Option<Seq<char>>,
    document: Option<Seq<char>>,
    environment: Option<Seq<char>>,
)
    ensures
        flag matches Some(f) ==> chosen_model(flag, document, environment) == f,
        flag is None && document is Some ==> chosen_model(flag, document, environment)
            == document->0,
        flag is None && document is None ==> chosen_model(flag, document, environment) == match environment {
            Some(e) => e,
            None => DEFAULT_MODEL@,
        },
{
}

/// Resolve the model from its four possible sources.
///
/// The flag wins, then the document, then the environment, then the default. A model is a
/// knob, so it overrides silently.
pub fn resolve_model(flag: Option<&str>, document: Option<&str>, environment: Option<&str>) -> (r: String)
    ensures
        r@ == chosen_model(opt_view(flag), opt_view(document), opt_view(environment)),
        r@ == match (flag, document, environment) {
            (Some(f), _, _) => f@,
            (None, Some(d), _) => d@,
            (None, None, Some(e)) => e@,
            (None, None, None) => DEFAULT_MODEL@,
        },
{
    match flag {
        Some(f) => owned(f),
        None => match document {
            Some(d) => owned(d),
            None => match environment {
                Some(e) => owned(e),
                None => owned(DEFAULT_MODEL),
            },
        },
    }
}

/// The path the API's endpoint has under its root.
pub open spec fn endpoint_path() -> Seq<char> {
    "/v1/systemone"@
}

/// Whether `s` ends with `suffix`.
pub open spec fn has_suffix(s: Seq<char>, suffix: Seq<char>) -> bool {
    suffix.len() <= s.len() && s.subrange(s.len() - suffix.len(), s.len() as int) == suffix
}

/// Whether `s` begins with `prefix` and has something after it.
pub open spec fn has_more_than_prefix(s: Seq<char>, prefix: Seq<char>) -> bool {
    prefix.len() < s.len() && s.subrange(0, prefix.len() as int) == prefix
}

/// The API root a base URL names: trailing slashes trimmed, and the endpoint's own path,
/// when the URL names the endpoint in full, taken off together with the slashes before it.
pub open spec fn base_root(raw: Seq<char>) -> Seq<char> {
    let trimmed = trim_end_char(raw, '/');
    if has_suffix(trimmed, endpoint_path()) {
        trim_end_char(trimmed.subrange(0, trimmed.len() - endpoint_path().len()), '/')
    } else {
        trimmed
    }
}

/// Whether a root begins with `http://` or `https://` and names a host after it.
pub open spec fn names_host(root: Seq<char>) -> bool {
    has_more_than_prefix(root, "https://"@) || has_more_than_prefix(root, "http://"@)
}

/// Check a base URL has a scheme, and reduce it to the API root: one or more trailing
/// slashes are trimmed, and a URL that names the endpoint in full loses its
/// `/v1/systemone`, so that path is never appended twice and `/v1/models` stays its
/// sibling.
pub fn resolve_base_url(raw: &str) -> (r: Result<String, DecideError>)
    ensures
        match r {
            Ok(root) => names_host(base_root(raw@)) && root@ == base_root(raw@),
            Err(e) => !names_host(base_root(raw@)) && (e matches DecideError::BaseUrlWithoutScheme {
                url,
            } && url@ == raw@),
        },
{
    let trimmed = trim_end(raw, '/');
    let root = if ends_with(trimmed, "/v1/systemone") {
        let n = trimmed.unicode_len();
        let m = "/v1/systemone".unicode_len();
        trim_end(trimmed.substring_char(0, n - m), '/')
    } else {
        trimmed
    };
    let length = root.unicode_len();
    let secure = starts_with(root, "https://") && "https://".unicode_len() < length;
    let plain = starts_with(root, "http://") && "http://".unicode_len() < length;
    if secure || plain {
        Ok(owned(root))
    } else {
        Err(DecideError::BaseUrlWithoutScheme { url: owned(raw) })
    }
}

/// Trimming a trailing slash off the end leaves what trimming would have left anyway.
pub proof fn lemma_trim_end_push(s: Seq<char>, c: char)
    ensures
        trim_end_char(s.push(c), c) == trim_end_char(s, c),
{
    assert(s.push(c).drop_last() =~= s);
}

/// The API root, the root with a trailing slash, and the full endpoint URL all resolve to
/// the same base URL, or are all refused.
pub proof fn lemma_base_url_forms(root: Seq<char>)
    ensures
        base_root(root.push('/')) == base_root(root),
        base_root(root + endpoint_path()) == trim_end_char(root, '/'),
        !has_suffix(trim_end_char(root, '/'), endpoint_path()) ==> base_root(root) == trim_end_char(
            root,
            '/',
        ),
{
    lemma_trim_end_push(root, '/');
    reveal_strlit("/v1/systemone");
    let full = root + endpoint_path();
    assert(full.last() == 'e');
    assert(trim_end_char(full, '/') == full);
    assert(full.subrange(full.len() - endpoint_path().len(), full.len() as int) =~= endpoint_path());
    assert(full.subrange(0, full.len() - endpoint_path().len()) =~= root);
}

/// Read the request document for `ask`, and say whether stdin was consumed by it.
///
/// A missing file, or `-`, reads stdin; with a terminal on stdin and no file to read, this
/// is a usage error rather than a wait.
pub fn read_document<R: std::io::Read, H: Host>(
    file: Option<&str>,
    stdin: &mut Stdin<R>,
    host: &mut H,
) -> (r: Result<(String, bool), DecideError>)
    ensures
        same_env(*old(host), *final(host)),
        final(stdin).spec_terminal() == old(stdin).spec_terminal(),
        (file matches Some(path) && path@ != "-"@) || old(stdin).spec_terminal() ==> *final(stdin)
            == *old(stdin),
        match file {
            Some(path) if path@ != "-"@ => match r {
                Ok((_, consumed)) => !consumed,
                Err(e) => e matches DecideError::UnreadableFile { path: p, .. } && p@ == path@,
            },
            _ => if old(stdin).spec_terminal() {
                r matches Err(e) && e is NoDocument
            } else {
                match r {
                    Ok((_, consumed)) => consumed,
                    Err(e) => e matches DecideError::UnreadableFile { path: p, .. } && p@ == "-"@,
                }
            },
        },
{
    if let Some(path) = file {
        if !same(path, "-") {
            let text = read_to_string(path, host)?;
            return Ok((text, false));
        }
    }
    if stdin.is_terminal() {
        return Err(DecideError::NoDocument);
    }
    let text = read_stdin(stdin)?;
    Ok((text, true))
}

/// What the `noul` subcommand's descriptions become: the `true` and `false` entries that
/// were given, or no criteria at all when neither was.
pub open spec fn noul_criteria(yes: Option<Seq<char>>, no: Option<Seq<char>>) -> Option<CriteriaView> {
    let entries = (match yes {
        Some(y) => seq![("true"@, JsonValue::String(y))],
        None => Seq::empty(),
    }) + (match no {
        Some(n) => seq![("false"@, JsonValue::String(n))],
        None => Seq::empty(),
    });
    if entries.len() == 0 {
        None
    } else {
        Some(CriteriaView::Noul(entries))
    }
}

/// Build the single noul question the `noul` subcommand asks.
pub fn noul_question(instruction: &str, yes: Option<&str>, no: Option<&str>) -> (r: Question)
    ensures
        r@ == (QuestionView {
            kind: QuestionKind::Noul,
            instructions: JsonValue::String(instruction@),
            criteria: noul_criteria(opt_view(yes), opt_view(no)),
        }),
{
    let mut criteria: Vec<(String, Json)> = Vec::new();
    if let Some(yes) = yes {
        let entry = (owned("true"), Json::String(owned(yes)));
        proof {
            lemma_entries_view_push(criteria@, entry);
        }
        criteria.push(entry);
    }
    if let Some(no) = no {
        let entry = (owned("false"), Json::String(owned(no)));
        proof {
            lemma_entries_view_push(criteria@, entry);
        }
        criteria.push(entry);
    }
    proof {
        let entries = entries_view(criteria@);
        let expected = (match opt_view(yes) {
            Some(y) => seq![("true"@, JsonValue::String(y))],
            None => Seq::<(Seq<char>, JsonValue)>::empty(),
        }) + (match opt_view(no) {
            Some(n) => seq![("false"@, JsonValue::String(n))],
            None => Seq::<(Seq<char>, JsonValue)>::empty(),
        });
        assert(entries =~= expected);
    }
    let criteria = if criteria.len() == 0 {
        None
    } else {
        Some(criteria)
    };
    Question::noul(Json::String(owned(instruction)), criteria)
}

/// The name an option on the command line gives: what comes before its first `=`, or all
/// of it.
pub open spec fn option_name(option: Seq<char>) -> Seq<char> {
    match first_index(option, '=') {
        Some(i) => option.subrange(0, i),
        None => option,
    }
}

/// The description an option gives: the text after its first `=`, which may be empty, or
/// `null` for a bare name.
pub open spec fn option_description(option: Seq<char>) -> JsonValue {
    match first_index(option, '=') {
        Some(i) => JsonValue::String(option.subrange(i + 1, option.len() as int)),
        None => JsonValue::Null,
    }
}

/// The choice's options, one entry per option on the command line, in order.
pub open spec fn option_entries(options: Seq<String>) -> Seq<(Seq<char>, JsonValue)> {
    Seq::new(
        options.len(),
        |i: int| (option_name(options[i]@), option_description(options[i]@)),
    )
}

/// Whether the first `n` options all have different names.
pub open spec fn names_distinct(options: Seq<String>, n: int) -> bool {
    forall|i: int, j: int|
        0 <= i < j < n ==> option_name(#[trigger] options[i]@) != option_name(#[trigger] options[j]@)
}

/// Whether option `j` is the first to repeat a name an earlier option gave.
pub open spec fn first_repeat(options: Seq<String>, j: int) -> bool {
    &&& 0 <= j < options.len()
    &&& names_distinct(options, j)
    &&& exists|i: int| 0 <= i < j && option_name(#[trigger] options[i]@) == option_name(options[j]@)
}

/// Split one option on its first `=`.
fn split_option(option: &str) -> (r: (String, Json))
    ensures
        r.0@ == option_name(option@),
        r.1@ == option_description(option@),
{
    match find_char(option, '=') {
        Some(i) => {
            let n = option.unicode_len();
            (owned(option.substring_char(0, i)), Json::String(owned(option.substring_char(i + 1, n))))
        },
        None => (owned(option), Json::Null),
    }
}

/// Build the single choice question the `choice` subcommand asks.
///
/// An option splits on its first `=`, so a description may contain one; a bare name sends
/// `null`, and `name=` sends an empty string, which is not the same thing. A name given
/// twice is refused by name.
pub fn choice_question(instruction: &str, options: &[String]) -> (r: Result<Question, DecideError>)
    ensures
        match r {
            Ok(q) => names_distinct(options@, options@.len() as int) && (q@ == QuestionView {
                kind: QuestionKind::Choice,
                instructions: JsonValue::String(instruction@),
                criteria: Some(CriteriaView::Choice(option_entries(options@))),
            }),
            Err(e) => !names_distinct(options@, options@.len() as int) && exists|j: int|
                first_repeat(options@, j) && (e matches DecideError::DuplicateOption { name }
                    && name@ == option_name(#[trigger] options@[j]@)),
        },
{
    let mut criteria: Vec<(String, Json)> = Vec::new();
    let mut j: usize = 0;
    while j < options.len()
        invariant
            j <= options@.len(),
            entries_view(criteria@) == option_entries(options@.subrange(0, j as int)),
            names_distinct(options@, j as int),
        decreases options@.len() - j,
    {
        let (name, description) = split_option(options[j].as_str());
        proof {
            lemma_entries_view_index(criteria@);
        }
        let mut k: usize = 0;
        while k < criteria.len()
            invariant
                k <= criteria@.len(),
                criteria@.len() == j,
                j < options@.len(),
                names_distinct(options@, j as int),
                name@ == option_name(options@[j as int]@),
                entries_view(criteria@) == option_entries(options@.subrange(0, j as int)),
                forall|i: int| 0 <= i < criteria@.len() ==> #[trigger] entries_view(criteria@)[i] == (
                    criteria@[i].0@,
                    criteria@[i].1@,
                ),
                forall|i: int| 0 <= i < k ==> option_name(#[trigger] options@[i]@) != name@,
            decreases criteria@.len() - k,
        {
            assert(entries_view(criteria@)[k as int] == option_entries(
                options@.subrange(0, j as int),
            )[k as int]);
            if same(criteria[k].0.as_str(), name.as_str()) {
                assert(first_repeat(options@, j as int)) by {
                    assert(options@.subrange(0, j as int)[k as int] == options@[k as int]);
                    assert(option_name(options@[k as int]@) == option_name(options@[j as int]@));
                }
                assert(!names_distinct(options@, options@.len() as int)) by {
                    assert(options@.subrange(0, j as int)[k as int] == options@[k as int]);
                    assert(option_name(options@[k as int]@) == option_name(options@[j as int]@));
                }
                return Err(DecideError::DuplicateOption { name });
            }
            k = k + 1;
        }
        proof {
            lemma_entries_view_push(criteria@, (name, description));
            assert(option_entries(options@.subrange(0, j as int)).push(
                (name@, description@),
            ) =~= option_entries(options@.subrange(0, j + 1)));
        }
        criteria.push((name, description));
        j = j + 1;
    }
    assert(options@.subrange(0, options@.len() as int) =~= options@);
    Ok(Question::choice(Json::String(owned(instruction)), criteria))
}

/// The levels, as the strings they are sent as.
pub open spec fn level_values(levels: Seq<String>) -> Seq<JsonValue> {
    Seq::new(levels.len(), |i: int| JsonValue::String(levels[i]@))
}

/// Build the single score question the `score` subcommand asks, with its levels in the
/// order they were given.
pub fn score_question(instruction: &str, levels: &[String]) -> (r: Question)
    ensures
        r@ == (QuestionView {
            kind: QuestionKind::Score,
            instructions: JsonValue::String(instruction@),
            criteria: Some(CriteriaView::Score(level_values(levels@))),
        }),
{
    let mut values: Vec<Json> = Vec::new();
    let mut i: usize = 0;
    while i < levels.len()
        invariant
            i <= levels@.len(),
            items_view(values@) == level_values(levels@.subrange(0, i as int)),
        decreases levels@.len() - i,
    {
        let value = Json::String(levels[i].clone());
        proof {
            lemma_items_view_push(values@, value);
            assert(level_values(levels@.subrange(0, i as int)).push(value@) =~= level_values(
                levels@.subrange(0, i + 1),
            ));
        }
        values.push(value);
        i = i + 1;
    }
    assert(levels@.subrange(0, levels@.len() as int) =~= levels@);
    Question::score(Json::String(owned(instruction)), values)
}

} // verus!
