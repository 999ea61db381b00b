//! The delivery policy for one event: classify what one HTTP attempt came
//! back with, retry failed attempts with exponential backoff, and stop after
//! a fixed budget. All failures are terminal to the single event; nothing is
//! raised to the worker loop.

use vstd::prelude::*;
use crate::models::{AlertEvent, ApiResponse};

verus! {

/// The fixed retry budget: at most this many attempts are made for one event.
pub const MAX_ATTEMPTS: u32 = 3;

/// What parsing a response body as a JSON object and reading one string
/// member yields: `None` when the body is not a JSON object or the member is
/// present but not a string, `Some(None)` when the member is absent, and
/// `Some(Some(s))` when it is the string `s`. The parse depends on the text
/// alone.
pub uninterp spec fn spec_json_str_member(body: Seq<char>, name: Seq<char>) -> Option<
    Option<Seq<char>>,
>;

/// Relies on `serde_json::from_str::<Value>` to parse the body, and on
/// `Value::is_object`, `Value::get` and `Value::as_str` to read one string
/// member of the parsed object.
#[verifier::external_body]
fn json_object_str_member(body: &str, name: &str) -> (r: Option<Option<String>>)
    ensures
        r.deep_view() == spec_json_str_member(body@, name@),
{
    let value: serde_json::Value = match serde_json::from_str(body) {
        Ok(v) => v,
        Err(_) => return None,
    };
    if !value.is_object() {
        return None;
    }
    match value.get(name) {
        None => Some(None),
        Some(member) => match member.as_str() {
            Some(s) => Some(Some(s.to_string())),
            None => None,
        },
    }
}

/// A member read as the empty string when it is absent.
pub open spec fn member_or_empty(member: Option<Seq<char>>) -> Seq<char> {
    match member {
        Some(s) => s,
        None => Seq::empty(),
    }
}

/// What the expected response shape yields for a body: the `error` and
/// `message` strings when the body is a JSON object whose `error` and
/// `message` members are strings or absent (absent members read as empty),
/// and nothing otherwise.
pub open spec fn spec_parse_api_response(body: Seq<char>) -> Option<(Seq<char>, Seq<char>)> {
    match (spec_json_str_member(body, "error"@), spec_json_str_member(body, "message"@)) {
        (Some(e), Some(m)) => Some((member_or_empty(e), member_or_empty(m))),
        _ => None,
    }
}

/// Parses a response body into the expected shape: an `error` and a
/// `message` string, each empty when its member is absent.
pub fn parse_api_response(body: &str) -> (r: Option<ApiResponse>)
    ensures
        r is Some <==> spec_parse_api_response(body@) is Some,
        r matches Some(a) ==> spec_parse_api_response(body@) matches Some(p) && a.error@ == p.0
            && a.message@ == p.1,
{
    let error_member = json_object_str_member(body, "error");
    let message_member = json_object_str_member(body, "message");
    match (error_member, message_member) {
        (Some(e), Some(m)) => {
            let error = match e {
                Some(s) => s,
                None => String::new(),
            };
            let message = match m {
                Some(s) => s,
                None => String::new(),
            };
            Some(ApiResponse { error, message })
        },
        _ => None,
    }
}

/// The classified outcome of one delivery attempt.
#[derive(Debug, Clone)]
pub enum AttemptOutcome {
    /// A 2xx response whose body parsed and reported an empty `error`.
    Delivered,
    /// The request produced no HTTP response: a connection error or timeout.
    TransportFailure,
    /// A response with a non-2xx status.
    HttpFailure { status: u16 },
    /// A 2xx response whose body is not the expected JSON shape.
    MalformedResponse,
    /// A 2xx response that parsed but reported a non-empty `error`.
    ApiFailure { error: String },
}

/// Only a delivered attempt counts as a success; the four failure reasons
/// are indistinguishable to the retry policy.
pub open spec fn outcome_is_success(o: AttemptOutcome) -> bool {
    o is Delivered
}

/// A 2xx HTTP status.
pub open spec fn is_success_status(status: u16) -> bool {
    200 <= status < 300
}

/// When one response counts as a successful delivery: a 2xx status, a body
/// of the expected shape, and an empty `error` field.
pub open spec fn spec_attempt_succeeds(status: u16, parse: Option<(Seq<char>, Seq<char>)>) -> bool {
    is_success_status(status) && (parse matches Some(p) && p.0.len() == 0)
}

/// Classifies one HTTP response: non-2xx fails on the status; a 2xx body
/// that is not the expected shape fails as malformed; a reported non-empty
/// `error` fails with that string; only the rest is a delivery.
pub fn classify_response(status: u16, body: &str) -> (r: AttemptOutcome)
    ensures
        outcome_is_success(r) <==> spec_attempt_succeeds(status, spec_parse_api_response(body@)),
        !is_success_status(status) ==> r == (AttemptOutcome::HttpFailure { status }),
        is_success_status(status) && spec_parse_api_response(body@) is None ==> r
            is MalformedResponse,
        (match spec_parse_api_response(body@) {
            Some(p) => is_success_status(status) && p.0.len() > 0 ==> (r
                matches AttemptOutcome::ApiFailure { error } && error@ == p.0),
            None => true,
        }),
{
    if !(200 <= status && status < 300) {
        return AttemptOutcome::HttpFailure { status };
    }
    match parse_api_response(body) {
        None => AttemptOutcome::MalformedResponse,
        Some(a) => {
            if a.error.as_str().is_empty() {
                AttemptOutcome::Delivered
            } else {
                AttemptOutcome::ApiFailure { error: a.error }
            }
        },
    }
}

/// Classifies one attempt from what the transport handed back: `None` when
/// no HTTP response was obtained at all, otherwise the status and body text.
pub fn classify_attempt(response: Option<(u16, String)>) -> (r: AttemptOutcome)
    ensures
        response is None ==> r is TransportFailure,
        (match response {
            Some(resp) => {
                &&& (outcome_is_success(r) <==> spec_attempt_succeeds(
                    resp.0,
                    spec_parse_api_response(resp.1@),
                ))
                &&& (!is_success_status(resp.0) ==> r == (AttemptOutcome::HttpFailure {
                    status: resp.0,
                }))
                &&& (is_success_status(resp.0) && spec_parse_api_response(resp.1@) is None ==> r
                    is MalformedResponse)
                &&& (match spec_parse_api_response(resp.1@) {
                    Some(p) => is_success_status(resp.0) && p.0.len() > 0 ==> (r
                        matches AttemptOutcome::ApiFailure { error } && error@ == p.0),
                    None => true,
                })
            },
            None => true,
        }),
{
    match response {
        None => AttemptOutcome::TransportFailure,
        Some((status, body)) => classify_response(status, body.as_str()),
    }
}

/// The backoff slept before retry `attempt + 1`: two to the power of the
/// zero-based attempt index, in seconds — 1 s after the first failed
/// attempt, 2 s after the second. The final attempt is never followed by a
/// sleep, so no larger value is ever used.
pub open spec fn spec_backoff_secs(attempt: u32) -> u64 {
    if attempt == 0 {
        1
    } else if attempt == 1 {
        2
    } else {
        0
    }
}

/// What the worker does after one classified attempt.
#[derive(Debug, Clone, Copy, PartialEq, Eq, Structural)]
pub enum DeliveryStep {
    /// Sleep this many seconds, then make the next attempt.
    RetryAfter { sleep_secs: u64 },
    /// The attempt sequence for this event is over; the event is discarded
    /// either way.
    Finished { delivered: bool },
}

/// The retry decision after attempt `attempt` (zero-based) classified with
/// `success`: success halts at once; a failure retries after the backoff
/// unless the attempt was the last of the budget.
pub open spec fn spec_delivery_step(attempt: u32, success: bool) -> DeliveryStep {
    if success {
        DeliveryStep::Finished { delivered: true }
    } else if attempt + 1 < MAX_ATTEMPTS {
        DeliveryStep::RetryAfter { sleep_secs: spec_backoff_secs(attempt) }
    } else {
        DeliveryStep::Finished { delivered: false }
    }
}

/// Decides what follows one classified attempt. Every failure reason is
/// treated alike; nothing is raised to the caller.
pub fn delivery_step(attempt: u32, outcome: &AttemptOutcome) -> (r: DeliveryStep)
    requires
        attempt < MAX_ATTEMPTS,
    ensures
        r == spec_delivery_step(attempt, outcome_is_success(*outcome)),
{
    match outcome {
        AttemptOutcome::Delivered => DeliveryStep::Finished { delivered: true },
        _ => {
            if attempt + 1 < MAX_ATTEMPTS {
                let sleep_secs: u64 = if attempt == 0 {
                    1
                } else {
                    2
                };
                DeliveryStep::RetryAfter { sleep_secs }
            } else {
                DeliveryStep::Finished { delivered: false }
            }
        },
    }
}

/// How many attempts a delivery makes when attempt `i` would classify as
/// `script[i]`: one past the first success, or the whole script when no
/// attempt succeeds.
pub open spec fn spec_attempts_used(script: Seq<AttemptOutcome>) -> nat
    decreases script.len(),
{
    if script.len() == 0 {
        0
    } else if outcome_is_success(script[0]) {
        1
    } else {
        1 + spec_attempts_used(script.drop_first())
    }
}

/// The total backoff slept during a delivery of `attempts` attempts: the sum
/// of the backoffs after each attempt that was followed by another.
pub open spec fn spec_total_backoff(attempts: nat) -> u64 {
    if attempts <= 1 {
        0
    } else if attempts == 2 {
        1
    } else {
        3
    }
}

/// A delivery that fails its first `j` attempts and then either succeeds or
/// runs out of script makes exactly `j + 1` attempts.
proof fn lemma_attempts_used_at(script: Seq<AttemptOutcome>, j: int)
    requires
        0 <= j < script.len(),
        forall|i: int| 0 <= i < j ==> !outcome_is_success(#[trigger] script[i]),
        outcome_is_success(script[j]) || j == script.len() - 1,
    ensures
        spec_attempts_used(script) == j + 1,
    decreases j,
{
    if j == 0 {
        if !outcome_is_success(script[0]) {
            assert(script.len() == 1);
            let rest = script.drop_first();
            assert(rest.len() == 0);
            assert(spec_attempts_used(rest) == 0);
            assert(spec_attempts_used(script) == 1 + spec_attempts_used(rest));
        }
    } else {
        assert(!outcome_is_success(script[0]));
        let rest = script.drop_first();
        assert(forall|i: int| 0 <= i < j - 1 ==> !outcome_is_success(#[trigger] rest[i]));
        assert(outcome_is_success(rest[j - 1]) || j - 1 == rest.len() - 1);
        lemma_attempts_used_at(rest, j - 1);
        assert(spec_attempts_used(rest) == j);
        assert(spec_attempts_used(script) == 1 + spec_attempts_used(rest));
    }
}

/// The report of one complete delivery: how many attempts were made, whether
/// one of them succeeded, and how long the worker slept between them.
#[derive(Debug, Clone, Copy, PartialEq, Eq, Structural)]
pub struct DeliveryReport {
    pub attempts: usize,
    pub delivered: bool,
    pub total_sleep_secs: u64,
}

/// Runs the attempt loop of one delivery against the outcome each attempt
/// would classify to, one outcome per attempt the budget allows. The first
/// success halts the loop; a failure that is not on the last attempt adds
/// its backoff; the event is dropped after the final failure.
pub fn run_delivery(script: &Vec<AttemptOutcome>) -> (r: DeliveryReport)
    requires
        script@.len() == MAX_ATTEMPTS,
    ensures
        r.attempts == spec_attempts_used(script@),
        1 <= r.attempts <= MAX_ATTEMPTS,
        r.total_sleep_secs == spec_total_backoff(r.attempts as nat),
        r.total_sleep_secs <= 3,
        r.delivered <==> exists|i: int|
            0 <= i < script@.len() && outcome_is_success(script@[i]),
        r.delivered ==> outcome_is_success(script@[r.attempts - 1]),
        forall|i: int| 0 <= i < r.attempts - 1 ==> !outcome_is_success(script@[i]),
        !r.delivered ==> r.attempts == MAX_ATTEMPTS,
{
    let mut attempt: u32 = 0;
    let mut slept: u64 = 0;
    loop
        invariant
            script@.len() == MAX_ATTEMPTS,
            attempt < MAX_ATTEMPTS,
            forall|i: int| 0 <= i < attempt ==> !outcome_is_success(#[trigger] script@[i]),
            slept == spec_total_backoff((attempt + 1) as nat),
        decreases MAX_ATTEMPTS - attempt,
    {
        let outcome = &script[attempt as usize];
        match delivery_step(attempt, outcome) {
            DeliveryStep::Finished { delivered } => {
                proof {
                    lemma_attempts_used_at(script@, attempt as int);
                    if delivered {
                        assert(outcome_is_success(script@[attempt as int]));
                    } else {
                        assert(attempt == MAX_ATTEMPTS - 1);
                        assert(forall|i: int|
                            0 <= i < script@.len() ==> !outcome_is_success(#[trigger] script@[i]));
                    }
                }
                return DeliveryReport {
                    attempts: attempt as usize + 1,
                    delivered,
                    total_sleep_secs: slept,
                };
            },
            DeliveryStep::RetryAfter { sleep_secs } => {
                slept = slept + sleep_secs;
                attempt = attempt + 1;
            },
        }
    }
}

/// The worker's draining pass: delivers the queued events one at a time, in
/// order, each to completion before the next is taken up, so no two events
/// of one client are ever in delivery at once. One script of attempt
/// outcomes stands for what the network would answer each event's attempts;
/// every event gets at least one attempt, and none more than the budget.
pub fn drain_deliveries(events: &Vec<AlertEvent>, scripts: &Vec<Vec<AttemptOutcome>>) -> (reports:
    Vec<DeliveryReport>)
    requires
        scripts@.len() == events@.len(),
        forall|i: int| 0 <= i < scripts@.len() ==> (#[trigger] scripts@[i])@.len() == MAX_ATTEMPTS,
    ensures
        reports@.len() == events@.len(),
        forall|i: int|
            0 <= i < reports@.len() ==> 1 <= (#[trigger] reports@[i]).attempts <= MAX_ATTEMPTS,
        forall|i: int|
            0 <= i < reports@.len() ==> (#[trigger] reports@[i]).attempts == spec_attempts_used(
                scripts@[i]@,
            ),
        forall|i: int|
            0 <= i < reports@.len() ==> ((#[trigger] reports@[i]).delivered <==> exists|j: int|
                0 <= j < scripts@[i]@.len() && outcome_is_success(scripts@[i]@[j])),
{
    let mut reports: Vec<DeliveryReport> = Vec::new();
    let mut i: usize = 0;
    while i < events.len()
        invariant
            scripts@.len() == events@.len(),
            forall|k: int|
                0 <= k < scripts@.len() ==> (#[trigger] scripts@[k])@.len() == MAX_ATTEMPTS,
            i <= events@.len(),
            reports@.len() == i,
            forall|k: int|
                0 <= k < i ==> 1 <= (#[trigger] reports@[k]).attempts <= MAX_ATTEMPTS,
            forall|k: int|
                0 <= k < i ==> (#[trigger] reports@[k]).attempts == spec_attempts_used(
                    scripts@[k]@,
                ),
            forall|k: int|
                0 <= k < i ==> ((#[trigger] reports@[k]).delivered <==> exists|j: int|
                    0 <= j < scripts@[k]@.len() && outcome_is_success(scripts@[k]@[j])),
        decreases events@.len() - i,
    {
        let report = run_delivery(&scripts[i]);
        reports.push(report);
        i += 1;
    }
    reports
}

/// Delivery of a single event never exceeds the fixed budget of attempts,
/// and its total backoff never exceeds the 1 s + 2 s the two possible
/// retries cost; the final attempt is never followed by a sleep, so the
/// retry decision after the last allowed attempt is always to finish.
pub proof fn lemma_attempt_budget(script: Seq<AttemptOutcome>, success: bool)
    requires
        script.len() == MAX_ATTEMPTS,
    ensures
        spec_attempts_used(script) <= MAX_ATTEMPTS,
        spec_total_backoff(spec_attempts_used(script)) <= 3,
        spec_delivery_step((MAX_ATTEMPTS - 1) as u32, success) is Finished,
{
    lemma_attempts_used_le(script);
}

/// The attempt count never exceeds the script it runs against.
proof fn lemma_attempts_used_le(script: Seq<AttemptOutcome>)
    ensures
        spec_attempts_used(script) <= script.len(),
    decreases script.len(),
{
    if script.len() > 0 && !outcome_is_success(script[0]) {
        lemma_attempts_used_le(script.drop_first());
    }
}

/// A success halts the retries immediately: the decision after a successful
/// attempt is final, and a delivery whose attempt `j` succeeds makes at most
/// `j + 1` attempts.
pub proof fn lemma_success_halts(script: Seq<AttemptOutcome>, attempt: u32, j: int)
    requires
        0 <= j < script.len(),
        outcome_is_success(script[j]),
    ensures
        spec_delivery_step(attempt, true) == (DeliveryStep::Finished { delivered: true }),
        spec_attempts_used(script) <= j + 1,
    decreases j,
{
    if j > 0 && !outcome_is_success(script[0]) {
        lemma_success_halts(script.drop_first(), attempt, j - 1);
    }
}

/// A 2xx response with a non-empty `error` field drives the retry policy
/// exactly as an HTTP failure does: neither counts as a success, and the
/// decision after the attempt is the same.
pub proof fn lemma_api_error_like_http_failure(attempt: u32, error: String, status: u16)
    ensures
        !outcome_is_success(AttemptOutcome::ApiFailure { error }),
        !outcome_is_success(AttemptOutcome::HttpFailure { status }),
        spec_delivery_step(attempt, outcome_is_success(AttemptOutcome::ApiFailure { error }))
            == spec_delivery_step(
            attempt,
            outcome_is_success(AttemptOutcome::HttpFailure { status }),
        ),
{
}

} // verus!
