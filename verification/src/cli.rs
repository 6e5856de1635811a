//! The command line, as values: what an invocation asked for once its arguments are read.
//!
//! Everything else deals in these values, which is what makes a run testable without a
//! process: a test writes the invocation it means as a [`Cli`].

use vstd::prelude::*;

verus! {

/// Where the state comes from, and the knobs that shape one request.
///
/// These are accepted by `ask`, `noul`, `choice`, and `score`, and by none of `models`:
/// `models` has no state to send and no body to name a model in.
#[derive(Debug)]
pub struct EvalArgs {
    /// The state itself; JSON if `--state-json` is given.
    pub state: Option<String>,
    /// Read the state from this file; `-` means stdin.
    pub state_file: Option<String>,
    /// The state is JSON rather than text.
    pub state_json: bool,
    /// Send null as the state, for a self-contained question.
    pub no_state: bool,
    /// The model or alias that handles the call.
    pub model: Option<String>,
    /// Print the request body and make no call.
    pub dry_run: bool,
    /// Print the one answer's own value.
    pub value: bool,
    /// Print a dotted path from the one answer.
    pub field: Option<String>,
}

/// A knob that shapes every request, wherever it appears.
#[derive(Debug)]
pub struct GlobalArgs {
    /// The API endpoint, or the root it lives under.
    pub base_url: String,
    /// Read the API key from a file.
    pub api_key_file: Option<String>,
    /// Give up on one attempt after this many seconds.
    pub timeout: u64,
    /// Retry a failed attempt this many times.
    pub retries: u32,
    /// Delay before the first retry, in milliseconds.
    pub backoff_ms: u64,
    /// Print one value from the response instead of the response.
    pub select: Option<String>,
    /// Indent the JSON output.
    pub pretty: bool,
    /// Report progress on stderr.
    pub verbose: bool,
}

/// One invocation: the knobs that apply everywhere, and what to do.
#[derive(Debug)]
pub struct Cli {
    /// The knobs that apply to every subcommand.
    pub global: GlobalArgs,
    /// What to do.
    pub command: Command,
}

/// The things `decide` can do.
#[derive(Debug)]
pub enum Command {
    /// Evaluate the request document in a file, or on stdin.
    Ask {
        /// The request document; `-` means stdin.
        file: Option<String>,
        /// Where the state comes from, and the knobs that shape the request.
        eval: EvalArgs,
    },
    /// Ask a yes/no question; print the probability that the answer is yes.
    Noul {
        /// What to ask.
        instruction: String,
        /// The question id the answer comes back under.
        id: String,
        /// What a yes means.
        yes: Option<String>,
        /// What a no means.
        no: Option<String>,
        /// Where the state comes from, and the knobs that shape the request.
        eval: EvalArgs,
    },
    /// Ask for one option out of a set you define.
    Choice {
        /// What to ask.
        instruction: String,
        /// The question id the answer comes back under.
        id: String,
        /// The options, as `NAME` or `NAME=DESCRIPTION`, in the order given.
        option: Vec<String>,
        /// Where the state comes from, and the knobs that shape the request.
        eval: EvalArgs,
    },
    /// Ask for a position along levels you define.
    Score {
        /// What to ask.
        instruction: String,
        /// The question id the answer comes back under.
        id: String,
        /// The levels, from first to last.
        level: Vec<String>,
        /// Where the state comes from, and the knobs that shape the request.
        eval: EvalArgs,
    },
    /// List the models this account can send.
    Models,
    /// Keep the API token, so that an environment variable is not needed.
    Auth {
        /// What to do with the store.
        command: AuthCommand,
    },
}

/// What `decide auth` can do with the one secret it keeps.
#[derive(Debug, Clone, Copy, PartialEq, Eq, Structural)]
pub enum AuthCommand {
    /// Read a token and store it.
    Store,
    /// Forget the stored token.
    Unset,
    /// Say where the credential comes from, without printing it.
    Status,
}

impl Command {
    /// Whether this subcommand evaluates a request.
    pub open spec fn evaluates(&self) -> bool {
        match self {
            Command::Ask { .. } | Command::Noul { .. } | Command::Choice { .. } | Command::Score {
                ..
            } => true,
            _ => false,
        }
    }

    /// The evaluation flags, for the subcommands that have them.
    pub open spec fn spec_eval(&self) -> Option<EvalArgs> {
        match self {
            Command::Ask { eval, .. } => Some(*eval),
            Command::Noul { eval, .. } => Some(*eval),
            Command::Choice { eval, .. } => Some(*eval),
            Command::Score { eval, .. } => Some(*eval),
            _ => None,
        }
    }

    /// The evaluation flags, for the subcommands that have them.
    pub fn eval(&self) -> (r: Option<&EvalArgs>)
        ensures
            r is Some <==> self.evaluates(),
            r matches Some(e) ==> self.spec_eval() == Some(*e),
            match self {
                Command::Ask { eval, .. } => r == Some(eval),
                Command::Noul { eval, .. } => r == Some(eval),
                Command::Choice { eval, .. } => r == Some(eval),
                Command::Score { eval, .. } => r == Some(eval),
                _ => true,
            },
    {
        match self {
            Command::Ask { eval, .. } => Some(eval),
            Command::Noul { eval, .. } => Some(eval),
            Command::Choice { eval, .. } => Some(eval),
            Command::Score { eval, .. } => Some(eval),
            Command::Models => None,
            Command::Auth { .. } => None,
        }
    }
}

} // verus!
