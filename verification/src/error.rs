//! The one error type, the exit code its kind implies, and the message it prints.
//!
//! Every variant is on one side of one split: the invocation was wrong (exit `2`) or the
//! evaluation was attempted and did not complete (exit `1`). There is no third kind.
//!
//! The message of each variant names the thing that is wrong — the flag, the question id,
//! the key, the path, or the status — because the caller that reads it may never be able to
//! read this source.

use vstd::prelude::*;

use crate::text::{decimal, decimal_text};

verus! {

/// Everything `decide` can refuse or fail with.
#[derive(Debug)]
pub enum DecideError {
    // ---- the invocation is wrong: exit 2 ----------------------------------------
    /// No credential was found in the environment, in a named file, or in the store.
    MissingApiKey,
    /// There is no directory to keep a stored credential in.
    NoCredentialStore,
    /// The store could not be read.
    CredentialUnreadable {
        /// The path that was consulted.
        path: String,
        /// The OS error, verbatim.
        reason: String,
    },
    /// The store could not be written.
    CredentialUnwritable {
        /// The path that was written.
        path: String,
        /// The OS error, verbatim.
        reason: String,
    },
    /// A token was asked for on a terminal that cannot be used for one.
    TokenFromTerminal,
    /// The token `decide auth set` read was empty.
    EmptyToken {
        /// Whether it was typed at the prompt rather than piped in.
        typed: bool,
    },
    /// The terminal could not be read for the token.
    TokenUnreadable {
        /// The terminal's own complaint.
        reason: String,
    },
    /// The file named as the credential could not be read.
    ApiKeyFileUnreadable {
        /// The path that was named.
        path: String,
        /// The OS error, verbatim.
        reason: String,
    },
    /// The file named as the credential was empty.
    ApiKeyFileEmpty {
        /// The path that was named.
        path: String,
    },
    /// The base URL had no scheme, so it would have become a relative URL.
    BaseUrlWithoutScheme {
        /// The URL as it was given.
        url: String,
    },
    /// Two state sources were named, and there is no defensible winner.
    TwoStateSources {
        /// The first source, by the name a caller would use.
        first: &'static str,
        /// The second source, by the name a caller would use.
        second: &'static str,
    },
    /// No state source was named and there was nothing on stdin to read.
    NoStateSource,
    /// A text state had no non-whitespace character.
    EmptyState,
    /// `--state-json` was given but the state is not valid JSON.
    StateNotJson {
        /// The parser's own complaint.
        reason: String,
    },
    /// The state was a value the API does not accept.
    StateKindUnsupported {
        /// `a number`, `a boolean`, and the like.
        kind: &'static str,
    },
    /// `--state-json` and `--no-state` disagree about whether there is a state.
    StateJsonWithNoState,
    /// `--state-json` was given, but the request document carries the state itself.
    StateJsonWithDocumentState,
    /// `--state-json` was given with nothing for it to describe.
    StateJsonWithoutSource,
    /// `ask` was given no document and stdin is a terminal.
    NoDocument,
    /// A file named on the command line could not be read.
    UnreadableFile {
        /// The path that was named.
        path: String,
        /// The OS error, verbatim.
        reason: String,
    },
    /// The request document is not valid JSON.
    DocumentNotJson {
        /// The parser's own complaint.
        reason: String,
    },
    /// The request document is JSON, but not an object.
    DocumentNotObject,
    /// Something in the request document is wrong: a key, a shape, or a limit.
    Invalid {
        /// Where in the document the problem is.
        location: String,
        /// What is wrong there.
        problem: String,
    },
    /// The same option name was given twice.
    DuplicateOption {
        /// The repeated name.
        name: String,
    },
    /// A `--select`, `--value`, or `--field` path did not resolve.
    PathNotFound {
        /// The flag the path came from, as the caller spelled it.
        flag: &'static str,
        /// The path, whole, as it was given.
        path: String,
        /// The segment that failed and what was available there.
        problem: String,
    },
    /// `--value` or `--field` was given for a request that did not ask exactly one question.
    OneAnswerRequired {
        /// The flag, as the caller spelled it.
        flag: &'static str,
        /// How many questions the request actually asked.
        count: usize,
    },
    // ---- the evaluation was attempted and did not complete: exit 1 ---------------
    /// The connection failed, and the retries were exhausted.
    Transport {
        /// The transport's own complaint.
        reason: String,
        /// How many attempts were made, including the first.
        attempts: u32,
    },
    /// The attempt took longer than `--timeout` allowed.
    Timeout {
        /// The URL that did not answer in time.
        url: String,
        /// The per-attempt timeout, in seconds.
        seconds: u64,
    },
    /// The API answered with a status that is not a success.
    Status {
        /// The status code.
        status: u16,
        /// The reason phrase, or a stand-in when the status has none.
        reason: String,
        /// The error body, verbatim, capped in length.
        body: String,
    },
    /// The response body was not JSON.
    ResponseNotJson {
        /// The parser's own complaint.
        reason: String,
    },
    /// The response parsed, but disagrees with the request.
    ResponseContract {
        /// What disagreed.
        problem: String,
    },
    /// The answer could not be written to stdout, so the run did not complete.
    Output {
        /// The OS error, verbatim.
        reason: String,
    },
}

/// `attempt` or `attempts`, so that `after 1 attempt` reads.
pub open spec fn attempt_noun(attempts: u32) -> Seq<char> {
    if attempts == 1 {
        "attempt"@
    } else {
        "attempts"@
    }
}

/// `attempt` or `attempts`, so that `after 1 attempt` reads.
pub fn attempt_word(attempts: u32) -> (r: &'static str)
    ensures
        r@ == attempt_noun(attempts),
{
    if attempts == 1 {
        "attempt"
    } else {
        "attempts"
    }
}

impl DecideError {
    /// Whether this error is the caller's invocation being wrong.
    pub open spec fn spec_is_usage(&self) -> bool {
        match self {
            DecideError::Transport { .. }
            | DecideError::Timeout { .. }
            | DecideError::Status { .. }
            | DecideError::ResponseNotJson { .. }
            | DecideError::ResponseContract { .. }
            | DecideError::Output { .. } => false,
            _ => true,
        }
    }

    /// The process exit code this error implies: `2` for a wrong invocation, `1` for a
    /// failed evaluation.
    pub fn exit_code(&self) -> (r: u8)
        ensures
            r == (if self.spec_is_usage() {
                2u8
            } else {
                1u8
            }),
    {
        match self {
            DecideError::Transport { .. }
            | DecideError::Timeout { .. }
            | DecideError::Status { .. }
            | DecideError::ResponseNotJson { .. }
            | DecideError::ResponseContract { .. }
            | DecideError::Output { .. } => 1,
            _ => 2,
        }
    }

    /// Whether this error is the caller's invocation being wrong rather than a failed
    /// evaluation.
    pub fn is_usage(&self) -> (r: bool)
        ensures
            r == self.spec_is_usage(),
    {
        self.exit_code() == 2
    }

    /// The message this error prints, after `decide: `.
    pub open spec fn spec_message(&self) -> Seq<char> {
        match self {
            DecideError::MissingApiKey => "no API key: set TYPESAFE_API_KEY, name a file with --api-key-file or TYPESAFE_API_KEY_FILE, or store one with `decide auth set`"@,
            DecideError::NoCredentialStore => "cannot tell where to keep the credential: neither XDG_CONFIG_HOME nor HOME is set, so set TYPESAFE_API_KEY or name a file with --api-key-file"@,
            DecideError::CredentialUnreadable { path, reason } => "cannot read the stored credential at \""@
                + path@ + "\": "@ + reason@,
            DecideError::CredentialUnwritable { path, reason } => "cannot store the credential at \""@
                + path@ + "\": "@ + reason@,
            DecideError::TokenFromTerminal => "read the token from stdin, not from a terminal: pipe it in, as in `printf %s \"$TOKEN\" | decide auth set`"@,
            DecideError::EmptyToken { typed } => if *typed {
                "the token is empty: nothing was typed, so nothing was stored"@
            } else {
                "the token read from stdin is empty: nothing was piped in, so nothing was stored"@
            },
            DecideError::TokenUnreadable { reason } => "cannot read the token from the terminal: "@
                + reason@,
            DecideError::ApiKeyFileUnreadable { path, reason } => "cannot read the API key file \""@
                + path@ + "\": "@ + reason@,
            DecideError::ApiKeyFileEmpty { path } => "the API key file \""@ + path@
                + "\" is empty"@,
            DecideError::BaseUrlWithoutScheme { url } => "--base-url \""@ + url@
                + "\" has no scheme; a base URL must begin with http:// or https://"@,
            DecideError::TwoStateSources { first, second } => "the state came from two places: "@
                + first@ + " and "@ + second@ + "; name exactly one"@,
            DecideError::NoStateSource => "no state: name --state, --state-file, or --no-state, or pipe one in"@,
            DecideError::EmptyState => "the state is whitespace only; pass --no-state to ask about no state at all"@,
            DecideError::StateNotJson { reason } => "--state-json: the state is not valid JSON: "@
                + reason@,
            DecideError::StateKindUnsupported { kind } => "the state is "@ + kind@
                + "; the API accepts a string, an object, or an array"@,
            DecideError::StateJsonWithNoState => "--state-json and --no-state contradict each other: --no-state sends null"@,
            DecideError::StateJsonWithDocumentState => "--state-json was given, but the request document already carries a \"state\", which is JSON by construction"@,
            DecideError::StateJsonWithoutSource => "--state-json needs a state to describe: give --state, --state-file, or pipe one in"@,
            DecideError::NoDocument => "ask needs a request document: name a file, or pipe one in and pass -"@,
            DecideError::UnreadableFile { path, reason } => "cannot read \""@ + path@ + "\": "@
                + reason@,
            DecideError::DocumentNotJson { reason } => "the request document is not valid JSON: "@
                + reason@,
            DecideError::DocumentNotObject => "the request document is not a JSON object"@,
            DecideError::Invalid { location, problem } => location@ + ": "@ + problem@,
            DecideError::DuplicateOption { name } => "the option \""@ + name@
                + "\" was given twice; a choice's options are keys, and a key cannot be repeated"@,
            DecideError::PathNotFound { flag, path, problem } => flag@ + " \""@ + path@
                + "\" does not resolve: "@ + problem@,
            DecideError::OneAnswerRequired { flag, count } => flag@
                + " needs a request that asked exactly one question (this one asked "@
                + decimal_text(*count as nat) + "); use --select to name one answer"@,
            DecideError::Transport { reason, attempts } => "the request failed after "@
                + decimal_text(*attempts as nat) + " "@ + attempt_noun(*attempts) + ": "@
                + reason@,
            DecideError::Timeout { url, seconds } => "the request to "@ + url@
                + " timed out after "@ + decimal_text(*seconds as nat) + " s"@,
            DecideError::Status { status, reason, body } => "the API answered "@
                + decimal_text(*status as nat) + " "@ + reason@ + ": "@ + body@,
            DecideError::ResponseNotJson { reason } => "the response is not JSON: "@ + reason@,
            DecideError::ResponseContract { problem } => "the response broke the answer contract: "@
                + problem@,
            DecideError::Output { reason } => "could not write the output: "@ + reason@,
        }
    }

    /// The message this error prints, after `decide: `. It names the thing that is wrong.
    pub fn message(&self) -> (r: String)
        ensures
            r@ == self.spec_message(),
    {
        let mut out = String::new();
        match self {
            DecideError::MissingApiKey => {
                out.append("no API key: set TYPESAFE_API_KEY, name a file with --api-key-file or TYPESAFE_API_KEY_FILE, or store one with `decide auth set`");
            },
            DecideError::NoCredentialStore => {
                out.append("cannot tell where to keep the credential: neither XDG_CONFIG_HOME nor HOME is set, so set TYPESAFE_API_KEY or name a file with --api-key-file");
            },
            DecideError::CredentialUnreadable { path, reason } => {
                out.append("cannot read the stored credential at \"");
                out.append(path.as_str());
                out.append("\": ");
                out.append(reason.as_str());
            },
            DecideError::CredentialUnwritable { path, reason } => {
                out.append("cannot store the credential at \"");
                out.append(path.as_str());
                out.append("\": ");
                out.append(reason.as_str());
            },
            DecideError::TokenFromTerminal => {
                out.append("read the token from stdin, not from a terminal: pipe it in, as in `printf %s \"$TOKEN\" | decide auth set`");
            },
            DecideError::EmptyToken { typed } => {
                if *typed {
                    out.append("the token is empty: nothing was typed, so nothing was stored");
                } else {
                    out.append("the token read from stdin is empty: nothing was piped in, so nothing was stored");
                }
            },
            DecideError::TokenUnreadable { reason } => {
                out.append("cannot read the token from the terminal: ");
                out.append(reason.as_str());
            },
            DecideError::ApiKeyFileUnreadable { path, reason } => {
                out.append("cannot read the API key file \"");
                out.append(path.as_str());
                out.append("\": ");
                out.append(reason.as_str());
            },
            DecideError::ApiKeyFileEmpty { path } => {
                out.append("the API key file \"");
                out.append(path.as_str());
                out.append("\" is empty");
            },
            DecideError::BaseUrlWithoutScheme { url } => {
                out.append("--base-url \"");
                out.append(url.as_str());
                out.append("\" has no scheme; a base URL must begin with http:// or https://");
            },
            DecideError::TwoStateSources { first, second } => {
                out.append("the state came from two places: ");
                out.append(first);
                out.append(" and ");
                out.append(second);
                out.append("; name exactly one");
            },
            DecideError::NoStateSource => {
                out.append("no state: name --state, --state-file, or --no-state, or pipe one in");
            },
            DecideError::EmptyState => {
                out.append("the state is whitespace only; pass --no-state to ask about no state at all");
            },
            DecideError::StateNotJson { reason } => {
                out.append("--state-json: the state is not valid JSON: ");
                out.append(reason.as_str());
            },
            DecideError::StateKindUnsupported { kind } => {
                out.append("the state is ");
                out.append(kind);
                out.append("; the API accepts a string, an object, or an array");
            },
            DecideError::StateJsonWithNoState => {
                out.append("--state-json and --no-state contradict each other: --no-state sends null");
            },
            DecideError::StateJsonWithDocumentState => {
                out.append("--state-json was given, but the request document already carries a \"state\", which is JSON by construction");
            },
            DecideError::StateJsonWithoutSource => {
                out.append("--state-json needs a state to describe: give --state, --state-file, or pipe one in");
            },
            DecideError::NoDocument => {
                out.append("ask needs a request document: name a file, or pipe one in and pass -");
            },
            DecideError::UnreadableFile { path, reason } => {
                out.append("cannot read \"");
                out.append(path.as_str());
                out.append("\": ");
                out.append(reason.as_str());
            },
            DecideError::DocumentNotJson { reason } => {
                out.append("the request document is not valid JSON: ");
                out.append(reason.as_str());
            },
            DecideError::DocumentNotObject => {
                out.append("the request document is not a JSON object");
            },
            DecideError::Invalid { location, problem } => {
                out.append(location.as_str());
                out.append(": ");
                out.append(problem.as_str());
            },
            DecideError::DuplicateOption { name } => {
                out.append("the option \"");
                out.append(name.as_str());
                out.append("\" was given twice; a choice's options are keys, and a key cannot be repeated");
            },
            DecideError::PathNotFound { flag, path, problem } => {
                out.append(flag);
                out.append(" \"");
                out.append(path.as_str());
                out.append("\" does not resolve: ");
                out.append(problem.as_str());
            },
            DecideError::OneAnswerRequired { flag, count } => {
                out.append(flag);
                out.append(" needs a request that asked exactly one question (this one asked ");
                out.append(decimal(*count as u64).as_str());
                out.append("); use --select to name one answer");
            },
            DecideError::Transport { reason, attempts } => {
                out.append("the request failed after ");
                out.append(decimal(*attempts as u64).as_str());
                out.append(" ");
                out.append(attempt_word(*attempts));
                out.append(": ");
                out.append(reason.as_str());
            },
            DecideError::Timeout { url, seconds } => {
                out.append("the request to ");
                out.append(url.as_str());
                out.append(" timed out after ");
                out.append(decimal(*seconds).as_str());
                out.append(" s");
            },
            DecideError::Status { status, reason, body } => {
                out.append("the API answered ");
                out.append(decimal(*status as u64).as_str());
                out.append(" ");
                out.append(reason.as_str());
                out.append(": ");
                out.append(body.as_str());
            },
            DecideError::ResponseNotJson { reason } => {
                out.append("the response is not JSON: ");
                out.append(reason.as_str());
            },
            DecideError::ResponseContract { problem } => {
                out.append("the response broke the answer contract: ");
                out.append(problem.as_str());
            },
            DecideError::Output { reason } => {
                out.append("could not write the output: ");
                out.append(reason.as_str());
            },
        }
        out
    }
}

} // verus!
