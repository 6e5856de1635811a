//! The transport's decisions: what one attempt asks for, how its outcome is classified,
//! which failures are retried and after how long, and the error the last failure becomes.
//!
//! Blocking rather than async, because the API does not stream: one request produces one
//! response body, so the whole transport is one call and a retry loop. The loop is here;
//! the bytes on the wire are the [`Host`]'s to move.
//!
//! Nothing here prints. The caller passes the writer that progress goes to, which is how
//! `--verbose` is asserted without capturing a subprocess.

use vstd::prelude::*;

use crate::error::DecideError;
use crate::host::{same_env, Host};
use crate::json::{parse_json_text, parsed_json, value_get, Json, JsonValue};
use crate::streams::write_line;
use crate::text::{
    blank, decimal, decimal_text, is_blank, join2, join3, opt_view, owned, trim, trimmed,
};
use crate::wire::{text_at, usage_of, Usage};

verus! {

/// The delay before the first retry doubles up to this, in milliseconds.
pub const MAX_BACKOFF_MS: u64 = 5000;

/// The share of each delay that jitter may subtract, as a percent.
pub const JITTER_PERCENT: u64 = 25;

/// The most a `Retry-After` header is believed, in milliseconds.
pub const MAX_RETRY_AFTER_MS: u64 = 60000;

/// The most of an error body is quoted back to the caller, in bytes.
pub const MAX_ERROR_BODY: u64 = 4096;

/// Everything a call needs beyond the request body: where, with which credential, and how
/// hard to try.
pub struct ClientConfig {
    /// The API root, already checked for a scheme and normalised.
    pub base_url: String,
    /// The bearer credential.
    pub api_key: String,
    /// The bound on one attempt, in seconds.
    pub timeout_secs: u64,
    /// The retries after the first attempt.
    pub retries: u32,
    /// The delay before the first retry, in milliseconds.
    pub backoff_ms: u64,
    /// Whether to report progress on the writer passed with each call.
    pub verbose: bool,
}

/// The two calls this program makes.
#[derive(Debug, Clone, Copy, PartialEq, Eq, Structural)]
pub enum Method {
    /// `POST /v1/systemone`.
    Post,
    /// `GET /v1/models`.
    Get,
}

impl Method {
    /// The method as it goes on the request line.
    pub open spec fn spec_str(self) -> Seq<char> {
        match self {
            Method::Post => "POST"@,
            Method::Get => "GET"@,
        }
    }

    /// The method as it goes on the request line.
    pub fn as_str(self) -> (r: &'static str)
        ensures
            r@ == self.spec_str(),
    {
        match self {
            Method::Post => "POST",
            Method::Get => "GET",
        }
    }
}

/// One attempt, as the host is asked to make it.
pub struct HttpRequest {
    /// `POST` or `GET`.
    pub method: Method,
    /// The full URL.
    pub url: String,
    /// The `Authorization` header's value.
    pub authorization: String,
    /// The `Content-Type` header's value, for a request that carries a body.
    pub content_type: Option<String>,
    /// The JSON body a `POST` sends; a `GET` sends none.
    pub body: Option<String>,
    /// The bound on the attempt, in seconds.
    pub timeout_secs: u64,
    /// How many bytes of a body that is not a success to read at most.
    pub error_body_cap: u64,
}

/// What came back from one attempt.
pub enum Exchange {
    /// The server answered with a status.
    Answered {
        /// The status code.
        status: u16,
        /// The body: whole for a success, capped otherwise.
        body: String,
        /// The `retry-after-ms` header's text, if it had one.
        retry_after_ms: Option<String>,
        /// The `Retry-After` header's text, if it had one.
        retry_after: Option<String>,
    },
    /// The attempt hit its timeout.
    TimedOut,
    /// The connection failed before a status arrived.
    Failed {
        /// The transport's own complaint.
        reason: String,
    },
}

/// Why an attempt did not produce a body, and whether it is worth another attempt.
pub enum CallError {
    /// The policy says to try again.
    Retryable(Transient),
    /// The policy says this is the answer.
    Fatal(DecideError),
}

/// A failure the retry policy may repeat.
pub enum Transient {
    /// A status the policy retries: `408`, `429`, and `5xx`.
    Status {
        /// The status code.
        status: u16,
        /// The reason phrase, or a stand-in.
        reason: String,
        /// The error body, capped.
        body: String,
        /// A `Retry-After`, if the server sent one.
        retry_after_ms: Option<u64>,
    },
    /// The connection failed before a status arrived.
    Transport {
        /// The transport's own complaint.
        reason: String,
    },
    /// The attempt hit `--timeout`.
    Timeout,
}

/// The `Authorization` header a credential is sent in.
pub open spec fn bearer(api_key: Seq<char>) -> Seq<char> {
    "Bearer "@ + api_key
}

/// What one attempt of a call asks the host to do.
pub open spec fn is_request_for(
    request: HttpRequest,
    config: ClientConfig,
    method: Method,
    url: Seq<char>,
    body: Option<Seq<char>>,
) -> bool {
    &&& request.method == method
    &&& request.url@ == url
    &&& request.authorization@ == bearer(config.api_key@)
    &&& match (request.content_type, body) {
        (Some(sent), Some(_)) => sent@ == "application/json"@,
        (None, None) => true,
        _ => false,
    }
    &&& match (request.body, body) {
        (Some(sent), Some(given)) => sent@ == given,
        (None, None) => true,
        _ => false,
    }
    &&& request.timeout_secs == config.timeout_secs
    &&& request.error_body_cap == MAX_ERROR_BODY
}

/// What one attempt of a call asks for: the method, the URL, the bearer credential, the
/// body a `POST` carries and its JSON content type, the timeout, and the error-body cap.
pub fn request_for(config: &ClientConfig, method: Method, url: &str, body: Option<&str>) -> (r:
    HttpRequest)
    ensures
        is_request_for(r, *config, method, url@, opt_view(body)),
{
    let (content_type, body) = match body {
        Some(text) => (Some(owned("application/json")), Some(owned(text))),
        None => (None, None),
    };
    HttpRequest {
        method,
        url: owned(url),
        authorization: join2("Bearer ", config.api_key.as_str()),
        content_type,
        body,
        timeout_secs: config.timeout_secs,
        error_body_cap: MAX_ERROR_BODY,
    }
}

/// Whether a status is one the policy retries: `408`, `429`, and `500` to `599`.
pub open spec fn retryable(status: u16) -> bool {
    status == 408 || status == 429 || (500 <= status && status <= 599)
}

/// Whether a status is one the policy retries: `408`, `429`, and `5xx`.
pub fn is_retryable_status(status: u16) -> (r: bool)
    ensures
        r == retryable(status),
{
    status == 408 || status == 429 || (500 <= status && status <= 599)
}

/// Whether a status is a success.
pub open spec fn success(status: u16) -> bool {
    200 <= status && status < 300
}

/// Whether a status is a success, whose body is read whole rather than capped.
pub fn is_success_status(status: u16) -> (r: bool)
    ensures
        r == success(status),
{
    200 <= status && status < 300
}

/// The number a header's text holds, as `u64`'s parse reads it after a trim: an optional
/// `+`, then digits, and small enough.
pub open spec fn header_number(text: Seq<char>) -> Option<u64> {
    let t = trimmed(text);
    let digits = if t.len() > 0 && t[0] == '+' {
        t.drop_first()
    } else {
        t
    };
    crate::json::number_u64(digits)
}

/// The number a header's text holds.
fn parse_header_number(text: &str) -> (r: Option<u64>)
    ensures
        r == header_number(text@),
{
    proof {
        reveal_strlit("+");
    }
    let t = trim(text);
    let length = t.unicode_len();
    let digits = if length > 0 && t.get_char(0) == '+' {
        t.substring_char(1, length)
    } else {
        t
    };
    assert(t@.len() > 0 && t@[0] == '+' ==> digits@ =~= t@.drop_first());
    crate::json::parse_u64(digits)
}

/// The delay the retry headers ask for, in milliseconds: `retry-after-ms` when it holds a
/// number, else `Retry-After` in seconds; either is believed up to a minute.
pub open spec fn retry_after_delay(millis: Option<Seq<char>>, seconds: Option<Seq<char>>) -> Option<
    u64,
> {
    let ms = match millis {
        Some(t) => header_number(t),
        None => None,
    };
    let secs = match seconds {
        Some(t) => header_number(t),
        None => None,
    };
    match ms {
        Some(m) => Some(if m > MAX_RETRY_AFTER_MS {
            MAX_RETRY_AFTER_MS
        } else {
            m
        }),
        None => match secs {
            Some(s) => Some(if s * 1000 > MAX_RETRY_AFTER_MS {
                MAX_RETRY_AFTER_MS
            } else {
                (s * 1000) as u64
            }),
            None => None,
        },
    }
}

/// The `retry-after-ms` or `Retry-After` header, in milliseconds, capped.
pub fn parse_retry_after(millis: Option<&str>, seconds: Option<&str>) -> (r: Option<u64>)
    ensures
        r == retry_after_delay(opt_view(millis), opt_view(seconds)),
        r matches Some(delay) ==> delay <= MAX_RETRY_AFTER_MS,
{
    let ms = match millis {
        Some(t) => parse_header_number(t),
        None => None,
    };
    if let Some(m) = ms {
        return Some(
            if m > MAX_RETRY_AFTER_MS {
                MAX_RETRY_AFTER_MS
            } else {
                m
            },
        );
    }
    let secs = match seconds {
        Some(t) => parse_header_number(t),
        None => None,
    };
    match secs {
        Some(s) => Some(
            if s > MAX_RETRY_AFTER_MS / 1000 {
                MAX_RETRY_AFTER_MS
            } else {
                s * 1000
            },
        ),
        None => None,
    }
}

/// The delay before the first retry, doubled once per further attempt and capped at
/// [`MAX_BACKOFF_MS`]; a first delay above the cap is honoured as given.
pub open spec fn doubled_delay(base: u64, attempt: u32) -> u64
    decreases attempt,
{
    if attempt <= 1 {
        base
    } else {
        let prior = doubled_delay(base, (attempt - 1) as u32);
        if prior * 2 > MAX_BACKOFF_MS {
            MAX_BACKOFF_MS
        } else {
            (prior * 2) as u64
        }
    }
}

/// The first delay is the one given, and every later one, before jitter, is at most the
/// cap: the previous delay doubled, or the cap when doubling would pass it.
pub proof fn lemma_backoff_capped(base: u64, attempt: u32)
    ensures
        attempt <= 1 ==> doubled_delay(base, attempt) == base,
        attempt >= 2 ==> doubled_delay(base, attempt) <= MAX_BACKOFF_MS,
        attempt >= 2 ==> doubled_delay(base, attempt) as int == if 2 * doubled_delay(
            base,
            (attempt - 1) as u32,
        ) > MAX_BACKOFF_MS {
            MAX_BACKOFF_MS as int
        } else {
            2 * doubled_delay(base, (attempt - 1) as u32)
        },
{
}

/// The most jitter may subtract from a delay: a quarter of it, rounded down.
pub open spec fn jitter_of(delay: u64) -> u64 {
    if delay * JITTER_PERCENT > u64::MAX {
        (u64::MAX / 100) as u64
    } else {
        (delay * JITTER_PERCENT / 100) as u64
    }
}

/// The delay for a given draw of noise: the doubled delay, less the noise taken modulo
/// one more than the jitter.
pub open spec fn backoff_value(base: u64, attempt: u32, noise: u64) -> u64 {
    let delay = doubled_delay(base, attempt);
    let jitter = jitter_of(delay);
    let cut = if jitter == 0 {
        0
    } else {
        noise % (jitter + 1) as u64
    };
    (delay - cut) as u64
}

/// The delay before retrying after `attempt` attempts have failed, with `noise` as the
/// unpredictable part: the base doubled `attempt - 1` times, capped, less the noise
/// reduced to at most a quarter of it.
pub fn backoff_with(base_ms: u64, attempt: u32, noise: u64) -> (r: u64)
    ensures
        r == backoff_value(base_ms, attempt, noise),
        doubled_delay(base_ms, attempt) - jitter_of(doubled_delay(base_ms, attempt)) <= r
            <= doubled_delay(base_ms, attempt),
{
    let mut delay = base_ms;
    let mut step: u32 = 1;
    while step < attempt
        invariant
            1 <= step,
            step <= attempt || step == 1,
            delay == doubled_delay(base_ms, step),
        decreases attempt - step,
    {
        delay = if delay > MAX_BACKOFF_MS / 2 {
            MAX_BACKOFF_MS
        } else {
            delay * 2
        };
        step = step + 1;
    }
    if attempt == 0 {
        assert(doubled_delay(base_ms, 1) == base_ms);
        assert(doubled_delay(base_ms, 0) == base_ms);
    }
    assert(delay == doubled_delay(base_ms, attempt));
    let jitter = if delay > u64::MAX / JITTER_PERCENT {
        u64::MAX / 100
    } else {
        delay * JITTER_PERCENT / 100
    };
    assert(jitter == jitter_of(delay));
    let cut = if jitter == 0 {
        0
    } else {
        noise % (jitter + 1)
    };
    delay - cut
}

/// How long ago the Unix epoch was, in whole seconds and the nanoseconds past them, or
/// nothing when the clock reads earlier than the epoch.
///
/// `SystemTime::now().duration_since(UNIX_EPOCH)`: nothing is said of the reading, which
/// is the clock's.
#[verifier::external_body]
fn time_since_epoch() -> Option<(u64, u32)> {
    match std::time::SystemTime::now().duration_since(std::time::UNIX_EPOCH) {
        Ok(elapsed) => Some((elapsed.as_secs(), elapsed.subsec_nanos())),
        Err(_) => None,
    }
}

/// The number a clock reading is mixed into: the whole seconds times a large prime,
/// wrapping, with the nanoseconds folded in; `0` when there is no reading.
pub open spec fn noise_of(reading: Option<(u64, u32)>) -> u64 {
    match reading {
        Some((seconds, nanos)) => seconds.wrapping_mul(1000000007u64) ^ (nanos as u64),
        None => 0,
    }
}

/// An unpredictable number, drawn from the clock.
///
/// The jitter only has to be unpredictable, not unbiased, so a clock is enough. Which
/// reading the clock gives is its own business; the number is that reading, mixed.
pub fn entropy() -> (r: u64)
    ensures
        exists|reading: Option<(u64, u32)>| r == noise_of(reading),
{
    let reading = time_since_epoch();
    let r = match reading {
        Some((seconds, nanos)) => seconds.wrapping_mul(1000000007) ^ (nanos as u64),
        None => 0,
    };
    assert(r == noise_of(reading));
    r
}

/// The delay before retrying after `attempt` attempts have failed: the base doubled
/// `attempt - 1` times, capped, with up to 25% subtracted as jitter drawn from the clock.
pub fn backoff_ms(base_ms: u64, attempt: u32) -> (r: u64)
    ensures
        doubled_delay(base_ms, attempt) - jitter_of(doubled_delay(base_ms, attempt)) <= r
            <= doubled_delay(base_ms, attempt),
{
    backoff_with(base_ms, attempt, entropy())
}

/// The reason phrase the HTTP standard gives a status, if it gives one.
pub uninterp spec fn canonical_reason(status: u16) -> Option<Seq<char>>;

/// `http::StatusCode::from_u16(status)` and then `canonical_reason()`: the standard's
/// reason phrase for the code, or nothing for a code outside `100..=999` or one the
/// standard does not name. The phrase is named by [`canonical_reason`] rather than listed.
#[verifier::external_body]
fn standard_reason(status: u16) -> (r: Option<&'static str>)
    ensures
        opt_view(r) == canonical_reason(status),
{
    match ureq::http::StatusCode::from_u16(status) {
        Ok(code) => code.canonical_reason(),
        Err(_) => None,
    }
}

/// The reason phrase a message gives: the standard's, or `Unknown`.
pub open spec fn reason_text(canonical: Option<Seq<char>>) -> Seq<char> {
    match canonical {
        Some(t) => t,
        None => "Unknown"@,
    }
}

/// The reason phrase to print: the standard's, or `Unknown` when there is none.
pub fn reason_or_unknown(canonical: Option<&str>) -> (r: String)
    ensures
        r@ == reason_text(opt_view(canonical)),
{
    match canonical {
        Some(t) => owned(t),
        None => owned("Unknown"),
    }
}

/// The reason phrase for a status, or a stand-in when the code is not a standard one.
pub fn reason_phrase(status: u16) -> (r: String)
    ensures
        r@ == reason_text(canonical_reason(status)),
{
    reason_or_unknown(standard_reason(status))
}

/// What an error body reads as: itself, or a statement when it holds nothing to read.
pub open spec fn body_text(body: Seq<char>) -> Seq<char> {
    if is_blank(body) {
        "(empty body)"@
    } else {
        body
    }
}

/// An empty body reads better as a statement than as nothing at all.
pub fn non_empty(body: String) -> (r: String)
    ensures
        r@ == body_text(body@),
{
    if blank(body.as_str()) {
        owned("(empty body)")
    } else {
        body
    }
}

/// What an attempt's outcome means for the loop: a body, a failure to retry, or a
/// failure that is the answer.
pub open spec fn classified(outcome: Exchange, r: Result<(u16, String), CallError>) -> bool {
    match outcome {
        Exchange::Answered { status, body, retry_after_ms, retry_after } => if success(status) {
            r matches Ok((s, text)) && s == status && text@ == body@
        } else if retryable(status) {
            r matches Err(CallError::Retryable(Transient::Status { status: s, reason, body: b, retry_after_ms: delay }))
                && s == status && reason@ == reason_text(canonical_reason(status)) && b@ == body@
                && delay == retry_after_delay(
                match retry_after_ms {
                    Some(t) => Some(t@),
                    None => None,
                },
                match retry_after {
                    Some(t) => Some(t@),
                    None => None,
                },
            )
        } else {
            r matches Err(CallError::Fatal(DecideError::Status { status: s, reason, body: b }))
                && s == status && reason@ == reason_text(canonical_reason(status)) && b@ == body_text(
                body@,
            )
        },
        Exchange::TimedOut => r matches Err(CallError::Retryable(Transient::Timeout)),
        Exchange::Failed { reason } => r matches Err(
            CallError::Retryable(Transient::Transport { reason: why }),
        ) && why@ == reason@,
    }
}

/// Classify what one attempt brought back: a success is the body; `408`, `429`, `5xx`, a
/// timeout, and a failed connection are retried; any other status is the answer.
pub fn classify(outcome: Exchange) -> (r: Result<(u16, String), CallError>)
    ensures
        classified(outcome, r),
{
    match outcome {
        Exchange::Answered { status, body, retry_after_ms, retry_after } => {
            if is_success_status(status) {
                return Ok((status, body));
            }
            let reason = reason_phrase(status);
            let millis = match &retry_after_ms {
                Some(t) => Some(t.as_str()),
                None => None,
            };
            let seconds = match &retry_after {
                Some(t) => Some(t.as_str()),
                None => None,
            };
            let delay = parse_retry_after(millis, seconds);
            if is_retryable_status(status) {
                Err(
                    CallError::Retryable(
                        Transient::Status { status, reason, body, retry_after_ms: delay },
                    ),
                )
            } else {
                Err(CallError::Fatal(DecideError::Status { status, reason, body: non_empty(body) }))
            }
        },
        Exchange::TimedOut => Err(CallError::Retryable(Transient::Timeout)),
        Exchange::Failed { reason } => Err(CallError::Retryable(Transient::Transport { reason })),
    }
}

impl Transient {
    /// The words for this failure, for a `--verbose` retry line.
    pub open spec fn spec_describe(&self) -> Seq<char> {
        match self {
            Transient::Status { status, reason, .. } => decimal_text(*status as nat) + " "@
                + reason@,
            Transient::Transport { reason } => "a transport error: "@ + reason@,
            Transient::Timeout => "the attempt timed out"@,
        }
    }

    /// The words for this failure, for a `--verbose` retry line.
    pub fn describe(&self) -> (r: String)
        ensures
            r@ == self.spec_describe(),
    {
        match self {
            Transient::Status { status, reason, .. } => join3(
                decimal(*status as u64).as_str(),
                " ",
                reason.as_str(),
            ),
            Transient::Transport { reason } => join2("a transport error: ", reason.as_str()),
            Transient::Timeout => owned("the attempt timed out"),
        }
    }

    /// How long to wait before the next attempt: what the server asked for, or the backoff.
    pub fn delay_ms(&self, base_ms: u64, attempt: u32) -> (r: u64)
        ensures
            match self {
                Transient::Status { retry_after_ms: Some(delay), .. } => r == delay,
                _ => doubled_delay(base_ms, attempt) - jitter_of(doubled_delay(base_ms, attempt))
                    <= r <= doubled_delay(base_ms, attempt),
            },
    {
        match self {
            Transient::Status { retry_after_ms: Some(delay), .. } => *delay,
            _ => backoff_ms(base_ms, attempt),
        }
    }

    /// The error this failure becomes once the retries are exhausted.
    pub open spec fn spec_error(self, url: Seq<char>, timeout_secs: u64, attempts: u32, e: DecideError) -> bool {
        match self {
            Transient::Status { status, reason, body, .. } => e matches DecideError::Status {
                status: s,
                reason: why,
                body: b,
            } && s == status && why@ == reason@ && b@ == body_text(body@),
            Transient::Transport { reason } => e matches DecideError::Transport {
                reason: why,
                attempts: n,
            } && why@ == reason@ && n == attempts,
            Transient::Timeout => e matches DecideError::Timeout { url: u, seconds } && u@ == url
                && seconds == timeout_secs,
        }
    }

    /// The error this failure becomes once the retries are exhausted.
    pub fn into_error(self, url: &str, timeout_secs: u64, attempts: u32) -> (r: DecideError)
        ensures
            self.spec_error(url@, timeout_secs, attempts, r),
    {
        match self {
            Transient::Status { status, reason, body, .. } => DecideError::Status {
                status,
                reason,
                body: non_empty(body),
            },
            Transient::Transport { reason } => DecideError::Transport { reason, attempts },
            Transient::Timeout => DecideError::Timeout { url: owned(url), seconds: timeout_secs },
        }
    }
}

/// How many attempts a call makes at most: one, and a retry for each `--retries`.
pub open spec fn allowed_attempts(retries: u32) -> u32 {
    if retries == u32::MAX {
        u32::MAX
    } else {
        (retries + 1) as u32
    }
}

/// The failures a call can end in: a status that is not a success, a timeout on this URL
/// after this timeout, or a failed connection after every allowed attempt.
pub open spec fn call_failure(e: DecideError, url: Seq<char>, config: ClientConfig) -> bool {
    match e {
        DecideError::Status { status, .. } => !success(status),
        DecideError::Timeout { url: u, seconds } => u@ == url && seconds == config.timeout_secs,
        DecideError::Transport { attempts, .. } => attempts == allowed_attempts(config.retries),
        _ => false,
    }
}

/// The `--verbose` line a retry prints: what failed, the delay, and which attempt comes
/// next of how many.
pub open spec fn retry_text(described: Seq<char>, delay: u64, next: u32, allowed: u32) -> Seq<char> {
    described + "; retrying in "@ + decimal_text(delay as nat) + " ms (attempt "@ + decimal_text(
        next as nat,
    ) + " of "@ + decimal_text(allowed as nat) + ")"@
}

/// The `--verbose` line a retry prints.
pub fn retry_line(described: &str, delay: u64, next: u32, allowed: u32) -> (r: String)
    ensures
        r@ == retry_text(described@, delay, next, allowed),
{
    let mut out = owned(described);
    out.append("; retrying in ");
    out.append(decimal(delay).as_str());
    out.append(" ms (attempt ");
    out.append(decimal(next as u64).as_str());
    out.append(" of ");
    out.append(decimal(allowed as u64).as_str());
    out.append(")");
    out
}

/// The `--verbose` outcome line: the status and its reason, and in brackets the model and
/// the token usage a JSON body names, when it names either.
pub open spec fn outcome_text(status: u16, reason: Seq<char>, parsed: Option<JsonValue>) -> Seq<
    char,
> {
    let head = decimal_text(status as nat) + " "@ + reason;
    match parsed {
        None => head,
        Some(value) => {
            let model = match text_at(value, "model"@) {
                Some(m) => seq!["model "@ + m],
                None => Seq::empty(),
            };
            let tokens = match usage_of(value) {
                Some(usage) => seq![
                    decimal_text(usage.input_tokens as nat) + " in / "@ + decimal_text(
                        usage.output_tokens as nat,
                    ) + " out tokens"@,
                ],
                None => Seq::empty(),
            };
            let extra = model + tokens;
            if extra.len() == 0 {
                head
            } else if extra.len() == 1 {
                head + " ("@ + extra[0] + ")"@
            } else {
                head + " ("@ + extra[0] + ", "@ + extra[1] + ")"@
            }
        },
    }
}

/// The tokens a usage counted, as the outcome line writes them.
fn tokens_text(usage: Usage) -> (r: String)
    ensures
        r@ == decimal_text(usage.input_tokens as nat) + " in / "@ + decimal_text(
            usage.output_tokens as nat,
        ) + " out tokens"@,
{
    let mut out = decimal(usage.input_tokens);
    out.append(" in / ");
    out.append(decimal(usage.output_tokens).as_str());
    out.append(" out tokens");
    out
}

/// A text that may be there, as the parts of a line it adds.
pub open spec fn part(text: Option<String>) -> Seq<Seq<char>> {
    match text {
        Some(t) => seq![t@],
        None => Seq::empty(),
    }
}

/// The `--verbose` outcome line for a status and the body it came with, already parsed
/// when it was JSON.
pub fn outcome_line(status: u16, parsed: Option<&Json>) -> (r: String)
    ensures
        r@ == outcome_text(
            status,
            reason_text(canonical_reason(status)),
            match parsed {
                Some(v) => Some(v@),
                None => None,
            },
        ),
{
    let mut out = join3(decimal(status as u64).as_str(), " ", reason_phrase(status).as_str());
    let value = match parsed {
        Some(v) => v,
        None => {
            return out;
        },
    };
    let model = match value.get("model") {
        Some(m) => m.as_str(),
        None => None,
    };
    assert(opt_view(model) == text_at(value@, "model"@));
    let usage = crate::wire::usage_in(value);
    let model_part = match model {
        Some(m) => Some(join2("model ", m)),
        None => None,
    };
    let tokens_part = match usage {
        Some(u) => Some(tokens_text(u)),
        None => None,
    };
    let ghost head = out@;
    let ghost extra = part(model_part) + part(tokens_part);
    match (model_part, tokens_part) {
        (Some(a), Some(b)) => {
            out.append(" (");
            out.append(a.as_str());
            out.append(", ");
            out.append(b.as_str());
            out.append(")");
            assert(extra.len() == 2 && extra[0] == a@ && extra[1] == b@);
            assert(out@ =~= head + " ("@ + extra[0] + ", "@ + extra[1] + ")"@);
        },
        (Some(a), None) => {
            out.append(" (");
            out.append(a.as_str());
            out.append(")");
            assert(extra.len() == 1 && extra[0] == a@);
            assert(out@ =~= head + " ("@ + extra[0] + ")"@);
        },
        (None, Some(b)) => {
            out.append(" (");
            out.append(b.as_str());
            out.append(")");
            assert(extra.len() == 1 && extra[0] == b@);
            assert(out@ =~= head + " ("@ + extra[0] + ")"@);
        },
        (None, None) => {
            assert(extra.len() == 0);
        },
    }
    out
}

/// The `--verbose` outcome line: the status, and whatever the body named.
pub fn outcome(status: u16, body: &str) -> (r: String)
    ensures
        r@ == outcome_text(status, reason_text(canonical_reason(status)), parsed_json(body@)),
{
    match parse_json_text(body) {
        Ok(value) => outcome_line(status, Some(&value)),
        Err(_) => outcome_line(status, None),
    }
}

/// What the policy retries: a timeout, a failed connection, and a `408`, a `429`, or any
/// status from `500` to `599`; a success or any other status is the call's answer.
pub proof fn lemma_what_is_retried(outcome: Exchange, r: Result<(u16, String), CallError>)
    requires
        classified(outcome, r),
    ensures
        (r matches Err(CallError::Retryable(_))) <==> match outcome {
            Exchange::Answered { status, .. } => status == 408 || status == 429 || (500 <= status
                && status <= 599),
            _ => true,
        },
{
}

/// Whether a call that failed with `e` gave up on a failure the policy retries: a timeout,
/// a failed connection, or a `408`, `429`, or `5xx`. Such a failure ends a call only once
/// every attempt allowed has been made.
pub open spec fn gave_up(e: DecideError) -> bool {
    match e {
        DecideError::Status { status, .. } => retryable(status),
        DecideError::Timeout { .. } => true,
        DecideError::Transport { .. } => true,
        _ => false,
    }
}

/// What follows one attempt.
pub enum Next {
    /// The call ends, with this result.
    Finish(Result<String, DecideError>),
    /// The call tries again after this failure.
    Retry(Transient),
}

/// What follows attempt `attempt` of `allowed`, once its outcome is classified: a success
/// ends the call with its body; a failure the policy does not repeat ends it with that
/// failure; a failure it repeats ends it on the last attempt allowed, and otherwise leads to
/// another attempt.
pub fn next_step(
    outcome: Result<(u16, String), CallError>,
    attempt: u32,
    allowed: u32,
    url: &str,
    timeout_secs: u64,
) -> (r: Next)
    ensures
        match outcome {
            Ok((_, text)) => r matches Next::Finish(Ok(t)) && t == text,
            Err(CallError::Fatal(error)) => r matches Next::Finish(Err(e)) && e == error,
            Err(CallError::Retryable(transient)) => if attempt >= allowed {
                r matches Next::Finish(Err(e)) && transient.spec_error(url@, timeout_secs, attempt, e)
            } else {
                r matches Next::Retry(t) && t == transient
            },
        },
{
    match outcome {
        Ok((_, text)) => Next::Finish(Ok(text)),
        Err(CallError::Fatal(error)) => Next::Finish(Err(error)),
        Err(CallError::Retryable(transient)) => {
            if attempt >= allowed {
                Next::Finish(Err(transient.into_error(url, timeout_secs, attempt)))
            } else {
                Next::Retry(transient)
            }
        },
    }
}

/// One attempt loop: try, and retry what the policy says to retry, bounded by `--retries`.
///
/// Whatever the host answers, the call ends in a body, in a status that is not a success,
/// in a timeout on this URL, or in a failed connection after every attempt allowed. Each
/// attempt's outcome goes through [`classify`] and [`next_step`], which decide between them.
pub fn call<H: Host, W: std::io::Write>(
    config: &ClientConfig,
    method: Method,
    url: &str,
    body: Option<&str>,
    progress: &mut W,
    host: &mut H,
) -> (r: Result<String, DecideError>)
    ensures
        r matches Err(e) ==> call_failure(e, url@, *config),
        !config.verbose ==> *final(progress) == *old(progress),
        same_env(*old(host), *final(host)),
        old(host).attempts() < final(host).attempts() <= old(host).attempts() + allowed_attempts(
            config.retries,
        ),
        r matches Err(e) && gave_up(e) ==> final(host).attempts() == old(host).attempts()
            + allowed_attempts(config.retries),
{
    let allowed = config.retries.saturating_add(1);
    if config.verbose {
        write_line(progress, join3(method.as_str(), " ", url).as_str());
    }
    let request = request_for(config, method, url, body);
    let mut attempt: u32 = 1;
    loop
        invariant
            1 <= attempt <= allowed,
            allowed == allowed_attempts(config.retries),
            !config.verbose ==> *progress == *old(progress),
            same_env(*old(host), *host),
            host.attempts() == old(host).attempts() + (attempt - 1),
        decreases allowed - attempt,
    {
        let exchange = host.send(&request);
        let classified = classify(exchange);
        if config.verbose {
            if let Ok((status, text)) = &classified {
                let line = outcome(*status, text.as_str());
                write_line(progress, line.as_str());
            }
        }
        match next_step(classified, attempt, allowed, url, config.timeout_secs) {
            Next::Finish(result) => {
                return result;
            },
            Next::Retry(transient) => {
                let delay = transient.delay_ms(config.backoff_ms, attempt);
                if config.verbose {
                    let described = transient.describe();
                    let line = retry_line(described.as_str(), delay, attempt + 1, allowed);
                    write_line(progress, line.as_str());
                }
                host.sleep_ms(delay);
                attempt = attempt + 1;
            },
        }
    }
}

/// The URL a `POST` goes to: the root and the endpoint's path.
pub open spec fn systemone_url(base_url: Seq<char>) -> Seq<char> {
    base_url + "/v1/systemone"@
}

/// The URL the model list is read from.
pub open spec fn models_url(base_url: Seq<char>) -> Seq<char> {
    base_url + "/v1/models"@
}

/// POST one request body to `/v1/systemone` and return the response body.
pub fn post_systemone<H: Host, W: std::io::Write>(
    config: &ClientConfig,
    body: &str,
    progress: &mut W,
    host: &mut H,
) -> (r: Result<String, DecideError>)
    ensures
        r matches Err(e) ==> call_failure(e, systemone_url(config.base_url@), *config),
        !config.verbose ==> *final(progress) == *old(progress),
        same_env(*old(host), *final(host)),
        old(host).attempts() < final(host).attempts() <= old(host).attempts() + allowed_attempts(
            config.retries,
        ),
        r matches Err(e) && gave_up(e) ==> final(host).attempts() == old(host).attempts()
            + allowed_attempts(config.retries),
{
    let url = join2(config.base_url.as_str(), "/v1/systemone");
    call(config, Method::Post, url.as_str(), Some(body), progress, host)
}

/// GET `/v1/models` and return the response body.
pub fn get_models<H: Host, W: std::io::Write>(
    config: &ClientConfig,
    progress: &mut W,
    host: &mut H,
) -> (r: Result<String, DecideError>)
    ensures
        r matches Err(e) ==> call_failure(e, models_url(config.base_url@), *config),
        !config.verbose ==> *final(progress) == *old(progress),
        same_env(*old(host), *final(host)),
        old(host).attempts() < final(host).attempts() <= old(host).attempts() + allowed_attempts(
            config.retries,
        ),
        r matches Err(e) && gave_up(e) ==> final(host).attempts() == old(host).attempts()
            + allowed_attempts(config.retries),
{
    let url = join2(config.base_url.as_str(), "/v1/models");
    call(config, Method::Get, url.as_str(), None, progress, host)
}

} // verus!
