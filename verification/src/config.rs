//! The stored credential: where it lives, how it is written, and which of the three sources
//! actually supplies it.
//!
//! This is the one file `decide` writes for you, and it holds one secret. It exists because
//! an environment variable is the wrong home for a credential on a developer's machine:
//! `export TYPESAFE_API_KEY=…` in a shell profile leaks into every child process. The
//! variable is still read, and still wins, so a script or a CI runner can override what is
//! stored.
//!
//! The order is fixed: the environment, then a file named on the command line, then the
//! store. The store is last because it is a default rather than a decision.
//!
//! `decide auth set` prompts when a person is running it, and reads a pipe when a script is.

use vstd::prelude::*;

use crate::error::DecideError;
use crate::host::{same_env, Host};
use crate::input::Stdin;
use crate::streams::{flush, write_text};
use crate::text::{blank, is_blank, join2, join3, opt_view, owned, owned_opt_view};

verus! {

/// The directory under the configuration root that `decide` owns.
pub const DIRECTORY: &'static str = "decide";

/// The file the token is stored in, inside [`DIRECTORY`].
pub const FILE: &'static str = "api-key";

/// What the prompt says, before the token is typed.
pub const PROMPT: &'static str = "TYPESAFE API token (it will not be echoed): ";

/// Which of the three places a credential came from.
#[derive(Debug, PartialEq, Eq)]
pub enum Source {
    /// `TYPESAFE_API_KEY`.
    Environment,
    /// A file named by `--api-key-file` or `TYPESAFE_API_KEY_FILE`.
    File(String),
    /// The credential stored by `decide auth set`.
    Stored(String),
}

/// Where a credential came from, by kind and path.
pub enum SourceView {
    /// The environment.
    Environment,
    /// A named file.
    File(Seq<char>),
    /// The store.
    Stored(Seq<char>),
}

impl View for Source {
    type V = SourceView;

    open spec fn view(&self) -> SourceView {
        match self {
            Source::Environment => SourceView::Environment,
            Source::File(path) => SourceView::File(path@),
            Source::Stored(path) => SourceView::Stored(path@),
        }
    }
}

/// How `decide auth status` names a source. It never holds the credential itself.
pub open spec fn source_words(source: SourceView) -> Seq<char> {
    match source {
        SourceView::Environment => "TYPESAFE_API_KEY"@,
        SourceView::File(path) => "the file \""@ + path
            + "\" named by --api-key-file or TYPESAFE_API_KEY_FILE"@,
        SourceView::Stored(path) => "the credential stored at \""@ + path + "\""@,
    }
}

impl Source {
    /// A description for `decide auth status`, which never prints the credential itself.
    pub fn describe(&self) -> (r: String)
        ensures
            r@ == source_words(self@),
    {
        match self {
            Source::Environment => owned("TYPESAFE_API_KEY"),
            Source::File(path) => join3(
                "the file \"",
                path.as_str(),
                "\" named by --api-key-file or TYPESAFE_API_KEY_FILE",
            ),
            Source::Stored(path) => join3("the credential stored at \"", path.as_str(), "\""),
        }
    }
}

/// `dir` with `name` under it, as a path joins a relative name: a separator is added
/// unless `dir` already ends in one.
pub open spec fn joined(dir: Seq<char>, name: Seq<char>) -> Seq<char> {
    if dir.len() > 0 && dir.last() == '/' {
        dir + name
    } else {
        dir + "/"@ + name
    }
}

/// `dir` with `name` under it.
fn join_path(dir: &str, name: &str) -> (r: String)
    ensures
        r@ == joined(dir@, name@),
{
    let n = dir.unicode_len();
    if n > 0 && dir.get_char(n - 1) == '/' {
        join2(dir, name)
    } else {
        join3(dir, "/", name)
    }
}

/// The store's path, given the two variables it is derived from: under
/// `$XDG_CONFIG_HOME`, or under `$HOME/.config` when the first is unset or empty.
pub open spec fn store_path(xdg_config_home: Option<Seq<char>>, home: Option<Seq<char>>) -> Option<
    Seq<char>,
> {
    let base = match xdg_config_home {
        Some(x) if x.len() > 0 => Some(x),
        _ => match home {
            Some(h) if h.len() > 0 => Some(joined(h, ".config"@)),
            _ => None,
        },
    };
    match base {
        Some(b) => Some(joined(joined(b, "decide"@), "api-key"@)),
        None => None,
    }
}

/// The path of the store, given the two variables it is derived from.
///
/// `$XDG_CONFIG_HOME/decide/api-key`, or `$HOME/.config/decide/api-key` when the first is
/// unset or empty — the rule every other tool on the machine already follows.
pub fn path_from(xdg_config_home: Option<&str>, home: Option<&str>) -> (r: Option<String>)
    ensures
        owned_opt_view(r) == store_path(opt_view(xdg_config_home), opt_view(home)),
{
    let base = match xdg_config_home {
        Some(x) if x.unicode_len() > 0 => Some(owned(x)),
        _ => match home {
            Some(h) if h.unicode_len() > 0 => Some(join_path(h, ".config")),
            _ => None,
        },
    };
    match base {
        Some(b) => {
            let dir = join_path(b.as_str(), DIRECTORY);
            Some(join_path(dir.as_str(), FILE))
        },
        None => None,
    }
}

/// The store lives under `XDG_CONFIG_HOME` whenever it is set and not empty, whatever `HOME`
/// is; under `HOME/.config` when `XDG_CONFIG_HOME` is unset or empty and `HOME` is set and not
/// empty; and nowhere when neither is.
pub proof fn lemma_store_follows_xdg(
    xdg: Seq<char>,
    home: Seq<char>,
    either_home: Option<Seq<char>>,
    other_home: Option<Seq<char>>,
)
    ensures
        xdg.len() > 0 ==> store_path(Some(xdg), either_home) == store_path(Some(xdg), other_home),
        xdg.len() > 0 ==> store_path(Some(xdg), either_home) == Some(
            joined(joined(xdg, "decide"@), "api-key"@),
        ),
        store_path(Some(Seq::empty()), either_home) == store_path(None, either_home),
        home.len() > 0 ==> store_path(None, Some(home)) == Some(
            joined(joined(joined(home, ".config"@), "decide"@), "api-key"@),
        ),
        store_path(None, Some(Seq::empty())) is None,
        store_path(None, None) is None,
{
}

/// The path of the store, or `None` when there is no configuration directory for it: the
/// rule of [`store_path`], applied to `XDG_CONFIG_HOME` and `HOME` as the host reads them.
pub fn path<H: Host>(host: &mut H) -> (r: Option<String>)
    ensures
        owned_opt_view(r) == store_path(
            old(host).env("XDG_CONFIG_HOME"@),
            old(host).env("HOME"@),
        ),
        exists|xdg: Option<Seq<char>>, home: Option<Seq<char>>|
            owned_opt_view(r) == #[trigger] store_path(xdg, home),
        same_env(*old(host), *final(host)),
{
    let xdg = host.env_var("XDG_CONFIG_HOME");
    let home = host.env_var("HOME");
    let xdg_text = match &xdg {
        Some(x) => Some(x.as_str()),
        None => None,
    };
    let home_text = match &home {
        Some(h) => Some(h.as_str()),
        None => None,
    };
    let r = path_from(xdg_text, home_text);
    assert(owned_opt_view(r) == store_path(opt_view(xdg_text), opt_view(home_text)));
    r
}

/// `s` without one trailing newline, and then without one trailing carriage return.
pub open spec fn newline_removed(s: Seq<char>) -> Seq<char> {
    let key = if s.len() > 0 && s.last() == '\n' {
        s.drop_last()
    } else {
        s
    };
    if key.len() > 0 && key.last() == '\r' {
        key.drop_last()
    } else {
        key
    }
}

/// One trailing newline, and the carriage return before it, removed.
pub fn one_trailing_newline_removed(text: &str) -> (r: &str)
    ensures
        r@ == newline_removed(text@),
{
    let n = text.unicode_len();
    let key = if n > 0 && text.get_char(n - 1) == '\n' {
        text.substring_char(0, n - 1)
    } else {
        text
    };
    assert(text@.len() > 0 && text@.last() == '\n' ==> key@ =~= text@.drop_last());
    let m = key.unicode_len();
    let trimmed = if m > 0 && key.get_char(m - 1) == '\r' {
        key.substring_char(0, m - 1)
    } else {
        key
    };
    assert(key@.len() > 0 && key@.last() == '\r' ==> trimmed@ =~= key@.drop_last());
    trimmed
}

/// The credential a store holding `text` supplies: the text less one newline, unless
/// that leaves nothing but white space, which reads as nothing stored.
pub open spec fn stored_key_of(text: Seq<char>) -> Option<Seq<char>> {
    let key = newline_removed(text);
    if is_blank(key) {
        None
    } else {
        Some(key)
    }
}

/// The credential a store holding `text` supplies.
pub fn stored_key(text: &str) -> (r: Option<String>)
    ensures
        owned_opt_view(r) == stored_key_of(text@),
{
    let key = one_trailing_newline_removed(text);
    if blank(key) {
        None
    } else {
        Some(owned(key))
    }
}

/// What the store holds once `token` is written to it: the token and a newline.
pub open spec fn store_contents(token: Seq<char>) -> Seq<char> {
    token + "\n"@
}

/// A token written to the store is the credential the store then supplies, unless it is
/// white space only or ends in a carriage return, which reading takes off.
pub proof fn lemma_stored_token_read_back(token: Seq<char>)
    requires
        !is_blank(token),
        !(token.len() > 0 && token.last() == '\r'),
    ensures
        stored_key_of(store_contents(token)) == Some(token),
{
    reveal_strlit("\n");
    assert(store_contents(token).drop_last() =~= token);
}

/// Read the stored token, or `None` when nothing has been stored.
///
/// A store that is not there is not an error: it is the state every user starts in. An
/// empty store reads as no store.
pub fn load_at<H: Host>(path: &str, host: &mut H) -> (r: Result<Option<String>, DecideError>)
    ensures
        same_env(*old(host), *final(host)),
        r matches Ok(Some(k)) ==> !is_blank(k@),
        r matches Ok(Some(k)) ==> exists|text: Seq<char>| stored_key_of(text) == Some(k@),
        r matches Err(e) ==> (e matches DecideError::CredentialUnreadable { path: p, .. } && p@
            == path@),
{
    match host.read_store(path) {
        Ok(Some(text)) => {
            let key = stored_key(text.as_str());
            assert(owned_opt_view(key) == stored_key_of(text@));
            Ok(key)
        },
        Ok(None) => Ok(None),
        Err(reason) => Err(DecideError::CredentialUnreadable { path: owned(path), reason }),
    }
}

/// What the store is written with, for a token.
pub fn store_text(token: &str) -> (r: String)
    ensures
        r@ == store_contents(token@),
{
    join2(token, "\n")
}

/// Write the token to the store, readable only by its owner. What is handed to the host to
/// write is [`store_text`] of the token.
pub fn store_at<H: Host>(path: &str, token: &str, host: &mut H) -> (r: Result<(), DecideError>)
    ensures
        same_env(*old(host), *final(host)),
        r matches Err(e) ==> (e matches DecideError::CredentialUnwritable { path: p, .. } && p@
            == path@),
{
    let contents = store_text(token);
    match host.write_store(path, contents.as_str()) {
        Ok(()) => Ok(()),
        Err(reason) => Err(DecideError::CredentialUnwritable { path: owned(path), reason }),
    }
}

/// Remove the stored token, and say whether there was one.
pub fn clear_at<H: Host>(path: &str, host: &mut H) -> (r: Result<bool, DecideError>)
    ensures
        same_env(*old(host), *final(host)),
        r matches Err(e) ==> (e matches DecideError::CredentialUnwritable { path: p, .. } && p@
            == path@),
{
    match host.remove_store(path) {
        Ok(removed) => Ok(removed),
        Err(reason) => Err(DecideError::CredentialUnwritable { path: owned(path), reason }),
    }
}

/// The credential a named file holding `text` supplies, or the refusal of an empty one.
pub open spec fn file_key_ok(path: Seq<char>, text: Seq<char>, r: Result<String, DecideError>) -> bool {
    let key = newline_removed(text);
    if is_blank(key) {
        r matches Err(e) && (e matches DecideError::ApiKeyFileEmpty { path: p } && p@ == path)
    } else {
        r matches Ok(k) && k@ == key
    }
}

/// The credential a named file holding `text` supplies.
pub fn key_from_file_text(path: &str, text: &str) -> (r: Result<String, DecideError>)
    ensures
        file_key_ok(path@, text@, r),
{
    let key = one_trailing_newline_removed(text);
    if blank(key) {
        return Err(DecideError::ApiKeyFileEmpty { path: owned(path) });
    }
    Ok(owned(key))
}

/// Read a credential file, stripping one trailing newline so a file written by `echo` works.
pub fn api_key_file<H: Host>(path: &str, host: &mut H) -> (r: Result<String, DecideError>)
    ensures
        same_env(*old(host), *final(host)),
        match r {
            Ok(k) => !is_blank(k@),
            Err(e) => (e matches DecideError::ApiKeyFileUnreadable { path: p, .. } && p@ == path@)
                || (e matches DecideError::ApiKeyFileEmpty { path: p } && p@ == path@),
        },
{
    match host.read_file(path) {
        Ok(text) => key_from_file_text(path, text.as_str()),
        Err(reason) => Err(DecideError::ApiKeyFileUnreadable { path: owned(path), reason }),
    }
}

/// What the environment's value makes the credential: nothing when it is unset or empty.
pub open spec fn env_key(value: Option<Seq<char>>) -> Option<Seq<char>> {
    match value {
        Some(k) if k.len() > 0 => Some(k),
        _ => None,
    }
}

/// Whether the environment's value is a credential: an empty variable is not one.
pub open spec fn environment_key(environment: Option<String>) -> Option<Seq<char>> {
    match environment {
        Some(k) if k@.len() > 0 => Some(k@),
        _ => None,
    }
}

/// Resolve the credential, and say where it came from.
///
/// The environment wins when it holds a value; then a named file, which is not optional
/// once named; then the store, when there is one and it holds a token.
pub fn resolve<H: Host>(
    environment: Option<String>,
    file: Option<&str>,
    stored: Option<&str>,
    host: &mut H,
) -> (r: Result<(Source, String), DecideError>)
    ensures
        same_env(*old(host), *final(host)),
        match environment_key(environment) {
            Some(k) => r matches Ok((source, key)) && source@ == SourceView::Environment && key@ == k,
            None => match file {
                Some(p) => match r {
                    Ok((source, key)) => source@ == SourceView::File(p@) && !is_blank(key@),
                    Err(e) => (e matches DecideError::ApiKeyFileUnreadable { path, .. } && path@
                        == p@) || (e matches DecideError::ApiKeyFileEmpty { path } && path@ == p@),
                },
                None => match stored {
                    None => r matches Err(e) && e is MissingApiKey,
                    Some(p) => match r {
                        Ok((source, key)) => source@ == SourceView::Stored(p@) && !is_blank(key@),
                        Err(e) => e is MissingApiKey || (e matches DecideError::CredentialUnreadable {
                            path,
                            ..
                        } && path@ == p@),
                    },
                },
            },
        },
{
    if let Some(key) = environment {
        if key.unicode_len() > 0 {
            return Ok((Source::Environment, key));
        }
    }
    if let Some(path) = file {
        let key = api_key_file(path, host)?;
        return Ok((Source::File(owned(path)), key));
    }
    if let Some(path) = stored {
        if let Some(key) = load_at(path, host)? {
            return Ok((Source::Stored(owned(path)), key));
        }
    }
    Err(DecideError::MissingApiKey)
}

/// Reading a secret without echoing it.
///
/// A trait rather than a bare function so that the interactive branch is testable: the
/// real implementation needs a terminal, and a test has none.
pub trait Secret {
    /// Read one secret, without writing it to the screen.
    fn read_secret(&mut self) -> Result<String, DecideError>;
}

/// The token `text` is, when it came in typed or piped: the text less one newline, or
/// the refusal of one that holds nothing but white space, which says which way it came.
pub open spec fn token_ok(text: Seq<char>, typed: bool, r: Result<String, DecideError>) -> bool {
    let token = newline_removed(text);
    if is_blank(token) {
        r matches Err(e) && (e matches DecideError::EmptyToken { typed: t } && t == typed)
    } else {
        r matches Ok(k) && k@ == token
    }
}

/// The token `text` is.
pub fn token_from(text: &str, typed: bool) -> (r: Result<String, DecideError>)
    ensures
        token_ok(text@, typed, r),
{
    let token = one_trailing_newline_removed(text);
    if blank(token) {
        return Err(DecideError::EmptyToken { typed });
    }
    Ok(owned(token))
}

/// Read the token for `decide auth set`.
///
/// A terminal gets the prompt in `err` and a typed secret; anything else is read as it
/// stands, so a script or a CI runner can pipe one in. The prompt is written here rather
/// than by the reader, so that nothing writes to a stream it was not handed.
pub fn read_token<R: std::io::Read, W: std::io::Write, S: Secret>(
    stdin: &mut Stdin<R>,
    err: &mut W,
    secret: &mut S,
) -> (r: Result<String, DecideError>)
    ensures
        final(stdin).spec_terminal() == old(stdin).spec_terminal(),
        old(stdin).spec_terminal() ==> *final(stdin) == *old(stdin),
        !old(stdin).spec_terminal() ==> *final(err) == *old(err) && *final(secret) == *old(secret),
        r matches Ok(token) ==> !is_blank(token@),
        !old(stdin).spec_terminal() ==> (r matches Err(e) ==> ((e matches DecideError::EmptyToken {
            typed,
        } && !typed) || (e matches DecideError::UnreadableFile { path, .. } && path@ == "-"@))),
{
    if stdin.is_terminal() {
        let prompted = match write_text(err, PROMPT) {
            Ok(()) => flush(err),
            Err(reason) => Err(reason),
        };
        if let Err(reason) = prompted {
            return Err(DecideError::Output { reason });
        }
        let typed = secret.read_secret()?;
        // The return key was not echoed either, so the newline is ours to write.
        let _ = write_text(err, "\n");
        token_from(typed.as_str(), true)
    } else {
        match stdin.read_all() {
            Ok(text) => token_from(text.as_str(), false),
            Err(reason) => Err(DecideError::UnreadableFile { path: owned("-"), reason }),
        }
    }
}

} // verus!
