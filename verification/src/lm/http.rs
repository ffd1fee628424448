//! What is common to requests over HTTP: retries, errors, and what headers tell.
use rand::Rng;
use vstd::prelude::*;
use vstd::string::*;

use super::interface::ResponseMetadata;
use crate::error::{ErrorCode, ErrorView, SdkError};
use crate::text::{
    concat3, concat5, opt_text, parse_unsigned, parsed_unsigned, str_eq, trim, trimmed,
};

verus! {

/// How often, and after what delays, a request is sent again.
#[derive(Clone, Copy, Debug, PartialEq, Eq, Structural)]
pub struct RetryConfig {
    /// How often a request is sent again at most.
    pub max_retries: u32,
    /// The delay before the first retry, in milliseconds.
    pub initial_delay_ms: u64,
    /// The longest delay, in milliseconds.
    pub max_delay_ms: u64,
    /// How much a delay varies at random, in millionths of it.
    pub jitter_ppm: u32,
}

/// The configuration where nothing is set.
pub open spec fn default_retries() -> RetryConfig {
    RetryConfig {
        max_retries: 2,
        initial_delay_ms: 500,
        max_delay_ms: 8000,
        jitter_ppm: 250_000,
    }
}

impl Default for RetryConfig {
    fn default() -> (r: Self)
        ensures
            r == default_retries(),
    {
        RetryConfig {
            max_retries: 2,
            initial_delay_ms: 500,
            max_delay_ms: 8000,
            jitter_ppm: 250_000,
        }
    }
}

/// The number that a setting writes, or another where it writes none.
pub open spec fn setting_or(setting: Option<Seq<char>>, max: nat, otherwise: nat) -> nat {
    match setting {
        Some(s) => match parsed_unsigned(s, max) {
            Some(n) => n,
            None => otherwise,
        },
        None => otherwise,
    }
}

/// The text of an optional setting.
pub open spec fn setting_text(s: Option<&str>) -> Option<Seq<char>> {
    match s {
        Some(s) => Some(s@),
        None => None,
    }
}

/// The number that a setting writes, or another where it writes none.
pub fn number_or(setting: Option<&str>, max: u64, otherwise: u64) -> (r: u64)
    requires
        otherwise <= max,
    ensures
        r == setting_or(setting_text(setting), max as nat, otherwise as nat),
        r <= max,
{
    match setting {
        Some(s) => match parse_unsigned(s, max) {
            Some(n) => n,
            None => otherwise,
        },
        None => otherwise,
    }
}

impl RetryConfig {
    /// The configuration that the environment sets, by the values of
    /// `AGNT5_LM_MAX_RETRIES`, `AGNT5_LM_INITIAL_DELAY_MS` and
    /// `AGNT5_LM_MAX_DELAY_MS`. What is not set, or is no number, keeps its default.
    pub fn from_env(
        max_retries: Option<&str>,
        initial_delay_ms: Option<&str>,
        max_delay_ms: Option<&str>,
    ) -> (r: Self)
        ensures
            r.max_retries == setting_or(setting_text(max_retries), u32::MAX as nat, 2),
            r.initial_delay_ms == setting_or(
                setting_text(initial_delay_ms),
                u64::MAX as nat,
                500,
            ),
            r.max_delay_ms == setting_or(setting_text(max_delay_ms), u64::MAX as nat, 8000),
            r.jitter_ppm == 250_000,
    {
        RetryConfig {
            max_retries: number_or(max_retries, 0xffff_ffff, 2) as u32,
            initial_delay_ms: number_or(initial_delay_ms, 0xffff_ffff_ffff_ffff, 500),
            max_delay_ms: number_or(max_delay_ms, 0xffff_ffff_ffff_ffff, 8000),
            jitter_ppm: 250_000,
        }
    }

    /// The configuration without retries.
    pub fn disabled() -> (r: Self)
        ensures
            r == (RetryConfig { max_retries: 0, ..default_retries() }),
    {
        RetryConfig { max_retries: 0, ..RetryConfig::default() }
    }
}

/// Two to a power.
pub open spec fn doubled(n: nat) -> nat
    decreases n,
{
    if n == 0 {
        1
    } else {
        2 * doubled((n - 1) as nat)
    }
}

/// The delay before a retry without its random part: it doubles from one retry to
/// the next, ten times at most, and is no longer than the longest delay.
pub open spec fn base_delay(config: RetryConfig, attempt: u32) -> nat {
    let grown = config.initial_delay_ms as nat * doubled(
        if attempt - 1 < 10 {
            (attempt - 1) as nat
        } else {
            10
        },
    );
    if grown <= config.max_delay_ms {
        grown
    } else {
        config.max_delay_ms as nat
    }
}

/// A delay that varies by so many millionths.
pub open spec fn varied(base: nat, jitter: int) -> nat {
    if 1_000_000 + jitter <= 0 {
        0
    } else {
        (base * (1_000_000 + jitter) / 1_000_000) as nat
    }
}

/// The delay before a retry, in milliseconds: no shorter than the service asks.
pub open spec fn retry_delay(
    config: RetryConfig,
    attempt: u32,
    jitter: int,
    retry_after_ms: Option<u128>,
) -> nat {
    let own = varied(base_delay(config, attempt), jitter);
    match retry_after_ms {
        Some(hint) => if hint > own {
            hint as nat
        } else {
            own
        },
        None => own,
    }
}

proof fn doubled_grows(n: nat)
    requires
        n <= 10,
    ensures
        1 <= doubled(n) <= 1024,
{
    reveal_with_fuel(doubled, 11);
}

fn grown_delay(config: &RetryConfig, attempt: u32) -> (r: u64)
    requires
        attempt >= 1,
    ensures
        r == base_delay(*config, attempt),
{
    let steps: u32 = if attempt - 1 < 10 {
        attempt - 1
    } else {
        10
    };
    let mut factor: u128 = 1;
    let mut i: u32 = 0;
    while i < steps
        invariant
            i <= steps <= 10,
            factor == doubled(i as nat),
        decreases steps - i,
    {
        proof {
            doubled_grows((i + 1) as nat);
        }
        factor = factor * 2;
        i = i + 1;
    }
    let initial: u128 = config.initial_delay_ms as u128;
    proof {
        doubled_grows(steps as nat);
        assert(initial * factor <= 0xffff_ffff_ffff_ffff * 1024) by (nonlinear_arith)
            requires
                initial <= 0xffff_ffff_ffff_ffff,
                factor <= 1024,
        ;
    }
    let grown: u128 = initial * factor;
    if grown <= config.max_delay_ms as u128 {
        grown as u64
    } else {
        config.max_delay_ms
    }
}

/// The delay before a retry, in milliseconds, for a random variation.
pub fn delay_with_jitter(
    config: &RetryConfig,
    attempt: u32,
    jitter: i64,
    retry_after_ms: Option<u128>,
) -> (r: u128)
    requires
        attempt >= 1,
        -4_294_967_295 <= jitter <= 4_294_967_295,
    ensures
        r == retry_delay(*config, attempt, jitter as int, retry_after_ms),
{
    let base: u64 = grown_delay(config, attempt);
    let share: i64 = 1_000_000 + jitter;
    let own: u128 = if share <= 0 {
        0
    } else {
        proof {
            assert(base * share <= 0xffff_ffff_ffff_ffff * 4_296_000_000) by (nonlinear_arith)
                requires
                    0 <= base <= 0xffff_ffff_ffff_ffff,
                    0 <= share <= 4_296_000_000,
            ;
        }
        (base as u128) * (share as u128) / 1_000_000
    };
    match retry_after_ms {
        Some(hint) => if hint > own {
            hint
        } else {
            own
        },
        None => own,
    }
}

/// `rand::rng` with `random_range`: a number drawn at random from `-bound` to
/// `bound`, both among them.
#[verifier::external_body]
fn random_jitter(bound: i64) -> (r: i64)
    requires
        0 <= bound,
    ensures
        -bound <= r <= bound,
{
    rand::rng().random_range(-bound..=bound)
}

/// The delay before a retry, in milliseconds: it varies at random by at most what
/// the configuration says.
pub fn calculate_retry_delay(config: &RetryConfig, attempt: u32, retry_after_ms: Option<u128>) -> (r:
    u128)
    requires
        attempt >= 1,
    ensures
        exists|jitter: int|
            #![trigger varied(base_delay(*config, attempt), jitter)]
            -config.jitter_ppm <= jitter <= config.jitter_ppm && r == retry_delay(
                *config,
                attempt,
                jitter,
                retry_after_ms,
            ),
{
    let jitter: i64 = random_jitter(config.jitter_ppm as i64);
    let r: u128 = delay_with_jitter(config, attempt, jitter, retry_after_ms);
    assert(varied(base_delay(*config, attempt), jitter as int) >= 0);
    r
}

/// A delay is within the bounds of its variation.
pub proof fn delays_are_bounded(config: RetryConfig, attempt: u32, jitter: int)
    requires
        attempt >= 1,
        -config.jitter_ppm <= jitter <= config.jitter_ppm,
    ensures
        base_delay(config, attempt) <= config.max_delay_ms,
        retry_delay(config, attempt, jitter, None) >= varied(
            base_delay(config, attempt),
            -config.jitter_ppm,
        ),
        retry_delay(config, attempt, jitter, None) <= varied(
            base_delay(config, attempt),
            config.jitter_ppm as int,
        ),
        retry_delay(config, attempt, 0, None) == base_delay(config, attempt),
{
    let base = base_delay(config, attempt);
    let f = config.jitter_ppm as int;
    assert(base * 1_000_000 / 1_000_000 == base);
    if 1_000_000 + jitter > 0 {
        assert(base * (1_000_000 + jitter) <= base * (1_000_000 + f)) by (nonlinear_arith)
            requires
                jitter <= f,
                base >= 0,
        ;
        assert(base * (1_000_000 + jitter) >= 0) by (nonlinear_arith)
            requires
                1_000_000 + jitter > 0,
                base >= 0,
        ;
    } else {
        assert(base * (1_000_000 + f) >= 0) by (nonlinear_arith)
            requires
                f >= 0,
                base >= 0,
        ;
    }
    if 1_000_000 - f > 0 {
        assert(base * (1_000_000 - f) <= base * (1_000_000 + jitter)) by (nonlinear_arith)
            requires
                -f <= jitter,
                base >= 0,
        ;
        assert(base * (1_000_000 - f) >= 0) by (nonlinear_arith)
            requires
                1_000_000 - f > 0,
                base >= 0,
        ;
    }
}

/// Delays grow from one retry to the next until they reach the longest.
pub proof fn delays_grow(config: RetryConfig, attempt: u32)
    requires
        1 <= attempt < u32::MAX,
    ensures
        base_delay(config, attempt) <= base_delay(config, (attempt + 1) as u32),
        attempt <= 10 && 2 * base_delay(config, attempt) <= config.max_delay_ms ==> base_delay(
            config,
            (attempt + 1) as u32,
        ) == 2 * base_delay(config, attempt),
{
    let d = config.initial_delay_ms as nat;
    let k = if attempt - 1 < 10 {
        (attempt - 1) as nat
    } else {
        10nat
    };
    if attempt <= 10 {
        let p = doubled(k);
        assert(doubled((k + 1) as nat) == 2 * p);
        assert(d * (2 * p) == 2 * (d * p)) by (nonlinear_arith);
        assert(d * p >= 0) by (nonlinear_arith)
            requires
                d >= 0,
                p >= 0,
        ;
    }
}

/// A header, and its value where it is text.
pub type Header = (String, Option<String>);

/// The value of the first header with a name: nothing where there is none, nothing
/// inside where the value is no text.
pub open spec fn header_value(headers: Seq<Header>, name: Seq<char>) -> Option<Option<Seq<char>>>
    decreases headers.len(),
{
    if headers.len() == 0 {
        None
    } else if headers[0].0@ == name {
        Some(opt_text(headers[0].1))
    } else {
        header_value(headers.drop_first(), name)
    }
}

fn find_header<'a>(headers: &'a Vec<Header>, name: &str) -> (r: Option<&'a Option<String>>)
    ensures
        match r {
            Some(v) => header_value(headers@, name@) == Some(opt_text(*v)),
            None => header_value(headers@, name@) is None,
        },
{
    let mut i: usize = 0;
    assert(headers@.subrange(0, headers@.len() as int) =~= headers@);
    while i < headers.len()
        invariant
            i <= headers@.len(),
            header_value(headers@, name@) == header_value(
                headers@.subrange(i as int, headers@.len() as int),
                name@,
            ),
        decreases headers@.len() - i,
    {
        proof {
            let rest = headers@.subrange(i as int, headers@.len() as int);
            assert(rest[0] == headers@[i as int]);
            assert(rest.drop_first() =~= headers@.subrange(i + 1, headers@.len() as int));
        }
        if str_eq(headers[i].0.as_str(), name) {
            return Some(&headers[i].1);
        }
        i = i + 1;
    }
    None
}

/// The number in a header, where it holds one.
pub open spec fn header_number(value: Option<Option<Seq<char>>>) -> Option<nat> {
    match value {
        Some(Some(s)) => parsed_unsigned(trimmed(s), u64::MAX as nat),
        _ => None,
    }
}

fn number_in(value: Option<&Option<String>>) -> (r: Option<u64>)
    ensures
        ({
            let text = match value {
                Some(v) => Some(opt_text(*v)),
                None => None,
            };
            match r {
                Some(n) => header_number(text) == Some(n as nat),
                None => header_number(text) is None,
            }
        }),
{
    match value {
        Some(Some(s)) => {
            let body = trim(s.as_str());
            parse_unsigned(body.as_str(), 0xffff_ffff_ffff_ffff)
        },
        _ => None,
    }
}

/// How long the service asks to wait, in milliseconds: `retry-after-ms`, or
/// `retry-after` in seconds.
pub open spec fn wait_asked(headers: Seq<Header>) -> Option<nat> {
    match header_number(header_value(headers, "retry-after-ms"@)) {
        Some(ms) => Some(ms),
        None => match header_number(header_value(headers, "retry-after"@)) {
            Some(secs) => Some(secs * 1000),
            None => None,
        },
    }
}

/// How long the service asks to wait, in milliseconds.
pub fn parse_retry_after(headers: &Vec<Header>) -> (r: Option<u128>)
    ensures
        match r {
            Some(ms) => wait_asked(headers@) == Some(ms as nat),
            None => wait_asked(headers@) is None,
        },
{
    if let Some(ms) = number_in(find_header(headers, "retry-after-ms")) {
        return Some(ms as u128);
    }
    match number_in(find_header(headers, "retry-after")) {
        Some(secs) => Some((secs as u128) * 1000),
        None => None,
    }
}

/// The text in a header, where it holds one.
pub open spec fn header_text(headers: Seq<Header>, name: Seq<char>) -> Option<Seq<char>> {
    match header_value(headers, name) {
        Some(v) => v,
        None => None,
    }
}

/// The id of a request: the first of three headers that holds one.
pub open spec fn request_id_in(headers: Seq<Header>) -> Option<Seq<char>> {
    if header_text(headers, "x-request-id"@) is Some {
        header_text(headers, "x-request-id"@)
    } else if header_text(headers, "request-id"@) is Some {
        header_text(headers, "request-id"@)
    } else {
        header_text(headers, "x-amzn-requestid"@)
    }
}

fn text_in(headers: &Vec<Header>, name: &str) -> (r: Option<String>)
    ensures
        opt_text(r) == header_text(headers@, name@),
{
    match find_header(headers, name) {
        Some(Some(s)) => Some(s.clone()),
        _ => None,
    }
}

/// The id of a request.
pub fn extract_request_id(headers: &Vec<Header>) -> (r: Option<String>)
    ensures
        opt_text(r) == request_id_in(headers@),
{
    if let Some(id) = text_in(headers, "x-request-id") {
        return Some(id);
    }
    if let Some(id) = text_in(headers, "request-id") {
        return Some(id);
    }
    text_in(headers, "x-amzn-requestid")
}

/// The value of one of two headers: the second counts where the first is not there.
pub open spec fn either_header(headers: Seq<Header>, first: Seq<char>, second: Seq<char>) -> Option<
    Seq<char>,
> {
    match header_value(headers, first) {
        Some(v) => v,
        None => header_text(headers, second),
    }
}

fn either_of(headers: &Vec<Header>, first: &str, second: &str) -> (r: Option<String>)
    ensures
        opt_text(r) == either_header(headers@, first@, second@),
{
    match find_header(headers, first) {
        Some(Some(s)) => Some(s.clone()),
        Some(None) => None,
        None => text_in(headers, second),
    }
}

/// The header that tells when the limit is lifted.
pub open spec fn reset_told(headers: Seq<Header>) -> Option<Seq<char>> {
    either_header(headers, "x-ratelimit-reset-requests"@, "x-ratelimit-reset"@)
}

/// The header that tells when the limit is lifted: a number of seconds, which need not
/// be whole.
pub fn reset_header(headers: &Vec<Header>) -> (r: Option<String>)
    ensures
        opt_text(r) == reset_told(headers@),
{
    either_of(headers, "x-ratelimit-reset-requests", "x-ratelimit-reset")
}

/// What headers tell of a reply. `reset` is what the header of `reset_header` says, in
/// nanoseconds, where it is a number.
pub fn extract_metadata(status: u16, headers: &Vec<Header>, reset: Option<u128>) -> (r:
    ResponseMetadata)
    ensures
        r.status_code == Some(status),
        opt_text(r.request_id) == request_id_in(headers@),
        match (
            r.rate_limit_remaining,
            either_header(
                headers@,
                "x-ratelimit-remaining-requests"@,
                "x-ratelimit-remaining"@,
            ),
        ) {
            (Some(n), Some(s)) => parsed_unsigned(s, u32::MAX as nat) == Some(n as nat),
            (None, Some(s)) => parsed_unsigned(s, u32::MAX as nat) is None,
            (Some(_), None) => false,
            (None, None) => true,
        },
        r.rate_limit_reset == reset,
{
    let remaining = match either_of(
        headers,
        "x-ratelimit-remaining-requests",
        "x-ratelimit-remaining",
    ) {
        Some(s) => match parse_unsigned(s.as_str(), 0xffff_ffff) {
            Some(n) => Some(n as u32),
            None => None,
        },
        None => None,
    };
    ResponseMetadata {
        status_code: Some(status),
        request_id: extract_request_id(headers),
        rate_limit_remaining: remaining,
        rate_limit_reset: reset,
    }
}

/// An error in a body that holds it in a field of its own.
#[derive(Clone, Debug)]
pub struct NestedError {
    pub error: ErrorDetail,
}

/// What a body tells of an error.
#[derive(Clone, Debug)]
pub struct ErrorDetail {
    pub message: String,
}

/// An error in a body that is the error.
#[derive(Clone, Debug)]
pub struct FlatError {
    pub message: String,
}

/// The text of an error in a body, by what the body reads as: an error in a field
/// counts before the body itself.
pub open spec fn error_told(nested: Option<NestedError>, flat: Option<FlatError>) -> Option<
    Seq<char>,
> {
    match (nested, flat) {
        (Some(body), _) => Some(body.error.message@),
        (None, Some(body)) => Some(body.message@),
        (None, None) => None,
    }
}

/// The text of an error in a body, by what the body reads as.
pub fn parse_error_message(nested: Option<NestedError>, flat: Option<FlatError>) -> (r: Option<
    String,
>)
    ensures
        opt_text(r) == error_told(nested, flat),
{
    match (nested, flat) {
        (Some(body), _) => Some(body.error.message),
        (None, Some(body)) => Some(body.message),
        (None, None) => None,
    }
}

/// What an answer with an error tells.
#[derive(Clone, Debug)]
pub struct ApiErrorInfo {
    pub status: u16,
    pub message: String,
    pub request_id: Option<String>,
    pub retry_after_ms: Option<u128>,
}

/// What an answer with an error tells. `status_text` is the status with its name;
/// `nested` and `flat` are what the body reads as.
pub fn classify_response(
    status: u16,
    status_text: &str,
    headers: &Vec<Header>,
    body: &str,
    nested: Option<NestedError>,
    flat: Option<FlatError>,
    provider: &str,
) -> (r: ApiErrorInfo)
    ensures
        r.status == status,
        opt_text(r.request_id) == request_id_in(headers@),
        match r.retry_after_ms {
            Some(ms) => wait_asked(headers@) == Some(ms as nat),
            None => wait_asked(headers@) is None,
        },
        r.message@ == (match error_told(nested, flat) {
            Some(message) => message,
            None => provider@ + " API error ("@ + status_text@ + "): "@ + body@,
        }),
{
    let message = match parse_error_message(nested, flat) {
        Some(message) => message,
        None => concat5(provider, " API error (", status_text, "): ", body),
    };
    ApiErrorInfo {
        status,
        message,
        request_id: extract_request_id(headers),
        retry_after_ms: parse_retry_after(headers),
    }
}

/// An answer with an error, as an error.
pub fn to_sdk_error(info: &ApiErrorInfo, provider: &str) -> (r: SdkError)
    ensures
        r@ == (ErrorView::LmApiError {
            status: info.status,
            provider: provider@,
            message: info.message@,
            request_id: opt_text(info.request_id),
        }),
{
    SdkError::LmApiError {
        status: info.status,
        provider: provider.to_owned(),
        message: info.message.clone(),
        request_id: match &info.request_id {
            Some(id) => Some(id.clone()),
            None => None,
        },
    }
}

/// How a request can fail without an answer.
#[derive(Clone, Copy, Debug, PartialEq, Eq, Structural)]
pub enum SendFault {
    Timeout,
    Connect,
    Other,
}

/// A request that failed without an answer, as an error.
pub fn classify_send_error(fault: SendFault, reason: &str, provider: &str) -> (r: SdkError)
    ensures
        r@ == (match fault {
            SendFault::Timeout => ErrorView::Timeout {
                message: provider@ + " API request timed out: "@ + reason@,
                operation: "lm_request"@,
                duration_ms: None,
            },
            SendFault::Connect => ErrorView::Connection {
                message: provider@ + " API connection failed: "@ + reason@,
                code: ErrorCode::ConnectionFailed,
            },
            SendFault::Other => ErrorView::Other(provider@ + " API request failed: "@ + reason@),
        }),
{
    match fault {
        SendFault::Timeout => SdkError::Timeout {
            message: concat3(provider, " API request timed out: ", reason),
            operation: "lm_request".to_owned(),
            duration_ms: None,
        },
        SendFault::Connect => SdkError::Connection {
            message: concat3(provider, " API connection failed: ", reason),
            code: ErrorCode::ConnectionFailed,
        },
        SendFault::Other => SdkError::Other(concat3(provider, " API request failed: ", reason)),
    }
}

/// A request that is sent again while that may help.
#[derive(Debug)]
pub struct RetryLoop {
    pub config: RetryConfig,
    /// How often the request has been sent again.
    pub attempt: u32,
    /// How long the service asked to wait, in milliseconds, when it last failed.
    pub retry_after_ms: Option<u128>,
}

/// What to do after a failure.
#[derive(Debug)]
pub enum RetryStep {
    /// Wait, and send the request again.
    Again { delay_ms: u128 },
    /// Report the error.
    GiveUp(SdkError),
}

impl RetryLoop {
    /// A request is not sent again more often than the configuration allows.
    pub open spec fn well_formed(self) -> bool {
        self.attempt <= self.config.max_retries
    }

    /// Whether the request has been sent again once more.
    pub open spec fn sent_again(self, next: RetryLoop) -> bool {
        &&& self.attempt < self.config.max_retries
        &&& next.attempt == self.attempt + 1
        &&& next.config == self.config
    }

    pub fn new(config: RetryConfig) -> (r: Self)
        ensures
            r.well_formed(),
            r.config == config,
            r.attempt == 0,
            r.retry_after_ms is None,
    {
        RetryLoop { config, attempt: 0, retry_after_ms: None }
    }

    /// Decides after a failure: the request is sent again, after a delay, if the
    /// error may pass and retries are left.
    pub fn on_failure(&mut self, error: SdkError, retry_after_ms: Option<u128>) -> (r: RetryStep)
        requires
            old(self).well_formed(),
        ensures
            final(self).well_formed(),
            final(self).config == old(self).config,
            match r {
                RetryStep::GiveUp(e) => {
                    &&& e == error
                    &&& *final(self) == *old(self)
                    &&& !error@.retryable() || old(self).attempt >= old(self).config.max_retries
                },
                RetryStep::Again { delay_ms } => {
                    &&& error@.retryable()
                    &&& old(self).sent_again(*final(self))
                    &&& final(self).retry_after_ms == retry_after_ms
                    &&& exists|jitter: int|
                        #![trigger varied(base_delay(final(self).config, final(self).attempt), jitter)]
                        -old(self).config.jitter_ppm <= jitter <= old(self).config.jitter_ppm
                            && delay_ms == retry_delay(
                            final(self).config,
                            final(self).attempt,
                            jitter,
                            retry_after_ms,
                        )
                },
            },
    {
        if error.is_retryable() && self.attempt < self.config.max_retries {
            self.attempt = self.attempt + 1;
            self.retry_after_ms = retry_after_ms;
            let delay_ms: u128 = calculate_retry_delay(&self.config, self.attempt, retry_after_ms);
            RetryStep::Again { delay_ms }
        } else {
            RetryStep::GiveUp(error)
        }
    }
}

/// However often it fails, a request is sent again no more often than the
/// configuration allows.
pub proof fn retries_are_limited(states: Seq<RetryLoop>)
    requires
        states.len() > 0,
        states[0].attempt == 0,
        forall|i: int, j: int|
            0 <= i && j == i + 1 && j < states.len() ==> #[trigger] states[i].sent_again(states[j]),
    ensures
        states.last().config == states[0].config,
        states.last().attempt == states.len() - 1,
        states.len() - 1 <= states[0].config.max_retries,
    decreases states.len(),
{
    if states.len() > 1 {
        let before = states.drop_last();
        assert forall|i: int, j: int|
            0 <= i && j == i + 1 && j < before.len() implies #[trigger] before[i].sent_again(
            before[j],
        ) by {
            assert(states[i].sent_again(states[j]));
        }
        retries_are_limited(before);
        let last: int = states.len() - 1;
        assert(before.last() == states[last - 1]);
        assert(states[last - 1].sent_again(states[last]));
    }
}

/// The delays are fixed by how they begin and go on: the first is the initial one, each
/// is twice the one before it until that has happened ten times, and none is longer than
/// the longest.
pub proof fn delays_double_from_the_first(config: RetryConfig, attempt: u32)
    requires
        1 <= attempt < u32::MAX,
    ensures
        config.initial_delay_ms <= config.max_delay_ms ==> base_delay(config, 1)
            == config.initial_delay_ms,
        config.initial_delay_ms > config.max_delay_ms ==> base_delay(config, 1)
            == config.max_delay_ms,
        attempt <= 10 && 2 * base_delay(config, attempt) <= config.max_delay_ms ==> base_delay(
            config,
            (attempt + 1) as u32,
        ) == 2 * base_delay(config, attempt),
        attempt <= 10 && 2 * base_delay(config, attempt) > config.max_delay_ms ==> base_delay(
            config,
            (attempt + 1) as u32,
        ) == config.max_delay_ms,
        attempt > 10 ==> base_delay(config, (attempt + 1) as u32) == base_delay(config, attempt),
{
    delays_grow(config, attempt);
    assert(doubled(0) == 1);
    assert(config.initial_delay_ms as nat * 1 == config.initial_delay_ms) by (nonlinear_arith);
    if attempt <= 10 {
        let n = (attempt - 1) as nat;
        let d = doubled(n) as int;
        let i = config.initial_delay_ms as int;
        assert(doubled(attempt as nat) == 2 * doubled(n));
        assert(i * (2 * d) == 2 * (i * d)) by (nonlinear_arith);
        assert(config.initial_delay_ms as nat * doubled(n) == i * d);
        assert(config.initial_delay_ms as nat * doubled(attempt as nat) == i * (2 * d));
        assert(i * d >= 0) by (nonlinear_arith)
            requires
                i >= 0,
                d >= 0,
        ;
    }
}

/// A delay is what its share of the base says, rounded down: so many millionths more or
/// less, and never below nothing.
pub proof fn delays_vary_by_their_share(base: nat, jitter: int)
    ensures
        jitter >= -1_000_000 ==> varied(base, jitter) * 1_000_000 <= base * (1_000_000 + jitter)
            < (varied(base, jitter) + 1) * 1_000_000,
        jitter <= -1_000_000 ==> varied(base, jitter) == 0,
        varied(base, 0) == base,
{
    if jitter > -1_000_000 {
        let n = base * (1_000_000 + jitter);
        assert(n >= 0) by (nonlinear_arith)
            requires
                n == base * (1_000_000 + jitter),
                jitter > -1_000_000,
        ;
    } else {
        assert(base * 0 == 0) by (nonlinear_arith);
    }
}

/// The service's wish is honoured: where it asks to wait longer than the delay is, that
/// is the delay; where it asks for less, or for nothing, it changes nothing.
pub proof fn the_longer_wait_counts(
    config: RetryConfig,
    attempt: u32,
    jitter: int,
    asked: u128,
)
    ensures
        retry_delay(config, attempt, jitter, Some(asked)) >= asked,
        retry_delay(config, attempt, jitter, Some(asked)) >= retry_delay(
            config,
            attempt,
            jitter,
            None,
        ),
        retry_delay(config, attempt, jitter, Some(asked)) == asked || retry_delay(
            config,
            attempt,
            jitter,
            Some(asked),
        ) == retry_delay(config, attempt, jitter, None),
        retry_delay(config, attempt, jitter, None) == varied(base_delay(config, attempt), jitter),
{
}

/// A request is sent again only while retries are left, and each time counts as one.
pub proof fn every_retry_counts(before: RetryLoop, after: RetryLoop)
    ensures
        before.sent_again(after) <==> before.attempt < before.config.max_retries && after.attempt
            == before.attempt + 1 && after.config == before.config,
        before.sent_again(after) ==> after.well_formed(),
        before.config.max_retries == 0 && before.well_formed() ==> !before.sent_again(after),
        before.well_formed() <==> before.attempt <= before.config.max_retries,
{
}

/// Where nothing is set, a request is sent again twice, after half a second at first and
/// eight at most, give or take a quarter. What is set counts where it is a number.
pub proof fn settings_of_retries(setting: Option<Seq<char>>, max: nat, otherwise: nat, n: nat)
    requires
        n <= max,
    ensures
        default_retries().max_retries == 2,
        default_retries().initial_delay_ms == 500,
        default_retries().max_delay_ms == 8000,
        default_retries().jitter_ppm == 250_000,
        setting is None ==> setting_or(setting, max, otherwise) == otherwise,
        setting_or(Some(crate::text::decimal(n)), max, otherwise) == n,
        setting matches Some(s) ==> (parsed_unsigned(s, max) is None ==> setting_or(
            setting,
            max,
            otherwise,
        ) == otherwise),
{
    crate::text::decimal_reads_back(n);
}

/// Of the headers with a name the first counts.
pub proof fn first_header_counts(headers: Seq<Header>, at: int, name: Seq<char>)
    ensures
        0 <= at < headers.len() && headers[at].0@ == name && (forall|j: int|
            0 <= j < at ==> (#[trigger] headers[j]).0@ != name) ==> header_value(headers, name)
            == Some(opt_text(headers[at].1)),
        (forall|j: int| 0 <= j < headers.len() ==> (#[trigger] headers[j]).0@ != name)
            ==> header_value(headers, name) is None,
    decreases headers.len(),
{
    if headers.len() > 0 {
        let rest = headers.drop_first();
        first_header_counts(rest, at - 1, name);
        assert forall|j: int| 0 <= j < rest.len() implies #[trigger] rest[j] == headers[j + 1] by {}
        if 0 < at < headers.len() {
            assert(rest[at - 1] == headers[at]);
            if forall|j: int| 0 <= j < at ==> (#[trigger] headers[j]).0@ != name {
                assert(headers[0].0@ != name);
                assert forall|j: int| 0 <= j < at - 1 implies (#[trigger] rest[j]).0@ != name by {
                    assert(rest[j] == headers[j + 1]);
                }
            }
        }
        if forall|j: int| 0 <= j < headers.len() ==> (#[trigger] headers[j]).0@ != name {
            assert(headers[0].0@ != name);
            assert forall|j: int| 0 <= j < rest.len() implies (#[trigger] rest[j]).0@ != name by {
                assert(rest[j] == headers[j + 1]);
            }
        }
    }
}

proof fn digits_stay_when_trimmed(n: nat)
    ensures
        trimmed(crate::text::decimal(n)) == crate::text::decimal(n),
{
    crate::text::decimal_reads_back(n);
    let s = crate::text::decimal(n);
    assert(crate::text::is_digit(s[0]));
    assert(crate::text::is_digit(s[s.len() - 1]));
}

/// A service that says `retry-after: n` is waited for that many seconds, and one that
/// says `retry-after-ms: n` that many milliseconds, which counts first; one that says
/// neither is not waited for.
pub proof fn waits_are_seconds_or_milliseconds(headers: Seq<Header>, n: nat)
    requires
        n <= u64::MAX,
    ensures
        header_value(headers, "retry-after-ms"@) == Some(Some(crate::text::decimal(n)))
            ==> wait_asked(headers) == Some(n),
        header_value(headers, "retry-after-ms"@) is None && header_value(headers, "retry-after"@)
            == Some(Some(crate::text::decimal(n))) ==> wait_asked(headers) == Some(1000 * n),
        header_value(headers, "retry-after-ms"@) is None && header_value(headers, "retry-after"@)
            is None ==> wait_asked(headers) is None,
{
    crate::text::decimal_reads_back(n);
    digits_stay_when_trimmed(n);
}

/// The id of a request is what `x-request-id` says, then `request-id`, then
/// `x-amzn-requestid`.
pub proof fn request_ids_have_their_order(headers: Seq<Header>, id: Seq<char>)
    ensures
        header_value(headers, "x-request-id"@) == Some(Some(id)) ==> request_id_in(headers) == Some(
            id,
        ),
        header_value(headers, "x-request-id"@) is None && header_value(headers, "request-id"@)
            == Some(Some(id)) ==> request_id_in(headers) == Some(id),
        header_value(headers, "x-request-id"@) is None && header_value(headers, "request-id"@)
            is None && header_value(headers, "x-amzn-requestid"@) == Some(Some(id))
            ==> request_id_in(headers) == Some(id),
        header_value(headers, "x-request-id"@) is None && header_value(headers, "request-id"@)
            is None && header_value(headers, "x-amzn-requestid"@) is None ==> request_id_in(headers)
            is None,
        header_value(headers, "x-ratelimit-reset-requests"@) == Some(Some(id)) ==> reset_told(
            headers,
        ) == Some(id),
        header_value(headers, "x-ratelimit-reset-requests"@) is None && header_value(
            headers,
            "x-ratelimit-reset"@,
        ) == Some(Some(id)) ==> reset_told(headers) == Some(id),
{
}

/// The words of an error are those that the body has for it, and an error in a field of
/// its own is heard before the body as a whole.
pub proof fn errors_are_told_in_their_words(nested: NestedError, flat: FlatError)
    ensures
        error_told(Some(nested), Some(flat)) == Some(nested.error.message@),
        error_told(Some(nested), None) == Some(nested.error.message@),
        error_told(None, Some(flat)) == Some(flat.message@),
        error_told(None, None) is None,
{
}

/// The header for requests counts, and the general one only where that is not there.
pub proof fn headers_for_requests_count_first(headers: Seq<Header>)
    ensures
        header_value(headers, "x-ratelimit-reset-requests"@) matches Some(v) ==> reset_told(headers)
            == v,
        header_value(headers, "x-ratelimit-reset-requests"@) is None ==> reset_told(headers)
            == header_text(headers, "x-ratelimit-reset"@),
{
}

} // verus!
