//! Single-flight translation requests with bounded retry.
//!
//! The orchestrator decides; it performs no network call itself. A worker
//! makes each attempt and reports what came back with
//! [`Orchestrator::next_step`], which answers with a delay before the next
//! attempt or with the terminal outcome.

use vstd::prelude::*;
use vstd::string::StringExecFns;
use crate::response::{classified, classify, GeminiResponse, Outcome, OutcomeView};
use crate::text::{decimal_digits, push_decimal};

verus! {

/// Attempts made for one request, at most.
pub const MAX_ATTEMPTS: u32 = 3;

/// Unit of the delay between attempts, in milliseconds.
pub const RETRY_DELAY_MS: u64 = 1000;

/// Timeout of one attempt, in seconds.
pub const API_TIMEOUT_SECS: u64 = 30;

/// What a provider status code means to the retry loop.
#[derive(Clone, Copy, Debug, PartialEq, Eq, Structural)]
pub enum StatusClass {
    /// 200 to 299: the body holds a response.
    Success,
    /// 429 or 503: worth another attempt.
    Overload,
    /// Anything else: final.
    Rejection,
}

/// The class of a status code.
pub open spec fn status_class(status: u16) -> StatusClass {
    if 200 <= status < 300 {
        StatusClass::Success
    } else if status == 429 || status == 503 {
        StatusClass::Overload
    } else {
        StatusClass::Rejection
    }
}

/// Classifies a status code.
pub fn classify_status(status: u16) -> (class: StatusClass)
    ensures
        class == status_class(status),
{
    if 200 <= status && status < 300 {
        StatusClass::Success
    } else if status == 429 || status == 503 {
        StatusClass::Overload
    } else {
        StatusClass::Rejection
    }
}

/// What one attempt brought back.
#[derive(Clone, Debug, PartialEq, Eq)]
pub enum AttemptResult {
    /// The call did not complete: the transport's message.
    TransportFailure(String),
    /// The provider answered with a status that is no success, and this
    /// body text.
    HttpError { status: u16, body: String },
    /// A success status with a body that could not be read as a response:
    /// the parser's message.
    Malformed(String),
    /// A success status with this response.
    Response(GeminiResponse),
}

/// What the worker does next.
#[derive(Clone, Debug, PartialEq, Eq)]
pub enum Step {
    /// Wait this long, then attempt again.
    Retry { delay_ms: u64 },
    /// The request is over.
    Done(Outcome),
}

/// The mathematical value of a [`Step`].
pub enum StepView {
    Retry { delay_ms: nat },
    Done(OutcomeView),
}

impl View for Step {
    type V = StepView;

    open spec fn view(&self) -> StepView {
        match self {
            Step::Retry { delay_ms } => StepView::Retry { delay_ms: *delay_ms as nat },
            Step::Done(outcome) => StepView::Done(outcome@),
        }
    }
}

/// A request to translate `source_text`, accepted at `submitted_at`.
#[derive(Clone, Debug, PartialEq, Eq)]
pub struct TranslationRequest {
    pub source_text: String,
    pub submitted_at: u64,
}

/// Progress of the retry loop for one request.
#[derive(Clone, Debug, PartialEq, Eq)]
pub struct RetryState {
    pub attempt_count: u32,
    pub last_error: String,
}

/// The mathematical value of an [`Orchestrator`].
pub struct OrchestratorView {
    /// The in-flight guard.
    pub in_flight: bool,
    /// Text of the request accepted last.
    pub source_text: Seq<char>,
    /// When it was accepted.
    pub submitted_at: u64,
    /// Attempts that have come back for it.
    pub attempts: nat,
    /// Message of the last transient failure.
    pub last_error: Seq<char>,
}

impl OrchestratorView {
    /// No request accepted yet.
    pub open spec fn idle() -> OrchestratorView {
        OrchestratorView {
            in_flight: false,
            source_text: Seq::empty(),
            submitted_at: 0,
            attempts: 0,
            last_error: Seq::empty(),
        }
    }

    /// While a request is in flight, an attempt is still owed.
    pub open spec fn wf(self) -> bool {
        self.attempts <= MAX_ATTEMPTS && (self.in_flight ==> self.attempts < MAX_ATTEMPTS)
    }

    /// The state after `submit(text, now)`: unchanged while a request is in
    /// flight, else a fresh request.
    pub open spec fn submitted(self, text: Seq<char>, now: u64) -> OrchestratorView {
        if self.in_flight {
            self
        } else {
            OrchestratorView {
                in_flight: true,
                source_text: text,
                submitted_at: now,
                attempts: 0,
                last_error: Seq::empty(),
            }
        }
    }

    /// The state after the guard is released.
    pub open spec fn released(self) -> OrchestratorView {
        OrchestratorView { in_flight: false, ..self }
    }
}

/// Message of an overload status.
pub open spec fn overload_message(status: u16) -> Seq<char> {
    "API Error "@ + decimal_digits(status as nat) + ": server overloaded"@
}

/// Message of a rejected call.
pub open spec fn rejection_message(status: u16, body: Seq<char>) -> Seq<char> {
    "API Error "@ + decimal_digits(status as nat) + ": "@ + body
}

/// Message of an unreadable body.
pub open spec fn malformed_message(detail: Seq<char>) -> Seq<char> {
    "malformed response: "@ + detail
}

/// The message of a result that is worth another attempt: a transport
/// failure or an overload status. `None` for every other result.
pub open spec fn transient_error(result: AttemptResult) -> Option<Seq<char>> {
    match result {
        AttemptResult::TransportFailure(message) => Some(message@),
        AttemptResult::HttpError { status, body } => if status_class(status) is Overload {
            Some(overload_message(status))
        } else {
            None
        },
        _ => None,
    }
}

/// The outcome of a result that ends the request at once.
pub open spec fn final_outcome(result: AttemptResult) -> OutcomeView {
    match result {
        AttemptResult::TransportFailure(message) => OutcomeView::Failed(message@),
        AttemptResult::HttpError { status, body } => OutcomeView::Failed(
            rejection_message(status, body@),
        ),
        AttemptResult::Malformed(detail) => OutcomeView::Failed(malformed_message(detail@)),
        AttemptResult::Response(response) => classified(response),
    }
}

/// The delay before attempt number `attempt`, counted from one: the first
/// attempt starts at once, each later one waits its number times the unit.
pub open spec fn backoff_ms(attempt: nat) -> nat {
    if attempt <= 1 {
        0
    } else {
        attempt * RETRY_DELAY_MS as nat
    }
}

/// The orchestrator's transition on the result of one attempt.
pub open spec fn next(o: OrchestratorView, result: AttemptResult) -> (OrchestratorView, StepView) {
    let made = o.attempts + 1;
    match transient_error(result) {
        Some(message) => {
            let failed = OrchestratorView { attempts: made, last_error: message, ..o };
            if made < MAX_ATTEMPTS {
                (failed, StepView::Retry { delay_ms: backoff_ms(made + 1) })
            } else {
                (failed.released(), StepView::Done(OutcomeView::Failed(message)))
            }
        },
        None => (
            OrchestratorView { attempts: made, ..o }.released(),
            StepView::Done(final_outcome(result)),
        ),
    }
}

/// Accepts at most one translation request at a time and drives its retry
/// loop.
pub struct Orchestrator {
    in_flight: bool,
    request: TranslationRequest,
    retry: RetryState,
}

impl View for Orchestrator {
    type V = OrchestratorView;

    closed spec fn view(&self) -> OrchestratorView {
        OrchestratorView {
            in_flight: self.in_flight,
            source_text: self.request.source_text@,
            submitted_at: self.request.submitted_at,
            attempts: self.retry.attempt_count as nat,
            last_error: self.retry.last_error@,
        }
    }
}

impl Orchestrator {
    pub open spec fn wf(&self) -> bool {
        self@.wf()
    }

    /// An idle orchestrator.
    pub fn new() -> (o: Self)
        ensures
            o.wf(),
            o@ == OrchestratorView::idle(),
    {
        Orchestrator {
            in_flight: false,
            request: TranslationRequest { source_text: String::new(), submitted_at: 0 },
            retry: RetryState { attempt_count: 0, last_error: String::new() },
        }
    }

    /// Whether a request is in flight.
    pub fn is_in_flight(&self) -> (b: bool)
        ensures
            b == self@.in_flight,
    {
        self.in_flight
    }

    /// The request accepted last.
    pub fn request(&self) -> (r: &TranslationRequest)
        ensures
            r.source_text@ == self@.source_text,
            r.submitted_at == self@.submitted_at,
    {
        &self.request
    }

    /// Progress of the retry loop.
    pub fn retry_state(&self) -> (r: &RetryState)
        ensures
            r.attempt_count == self@.attempts,
            r.last_error@ == self@.last_error,
    {
        &self.retry
    }

    /// Offers a request. While another one is in flight it is turned down
    /// and nothing changes; else it is accepted and the guard is set.
    pub fn submit(&mut self, text: String, now: u64) -> (accepted: bool)
        requires
            old(self).wf(),
        ensures
            final(self).wf(),
            accepted == !old(self)@.in_flight,
            final(self)@ == old(self)@.submitted(text@, now),
    {
        if self.in_flight {
            return false;
        }
        self.in_flight = true;
        self.request = TranslationRequest { source_text: text, submitted_at: now };
        self.retry = RetryState { attempt_count: 0, last_error: String::new() };
        true
    }

    /// Takes the result of one attempt and says what follows. A transient
    /// failure leads to another attempt while attempts are left; every other
    /// result, and the last transient failure, ends the request and
    /// releases the guard.
    pub fn next_step(&mut self, result: AttemptResult) -> (step: Step)
        requires
            old(self).wf(),
            old(self)@.in_flight,
        ensures
            final(self).wf(),
            final(self)@ == next(old(self)@, result).0,
            step@ == next(old(self)@, result).1,
    {
        let made: u32 = self.retry.attempt_count + 1;
        self.retry.attempt_count = made;
        let transient: Option<String> = match &result {
            AttemptResult::TransportFailure(message) => Some(message.clone()),
            AttemptResult::HttpError { status, body } => match classify_status(*status) {
                StatusClass::Overload => {
                    let mut message = String::from_str("API Error ");
                    push_decimal(&mut message, *status as u64);
                    message.append(": server overloaded");
                    Some(message)
                },
                _ => None,
            },
            _ => None,
        };
        match transient {
            Some(message) => {
                self.retry.last_error = message.clone();
                if made < MAX_ATTEMPTS {
                    Step::Retry { delay_ms: (made as u64 + 1) * RETRY_DELAY_MS }
                } else {
                    self.in_flight = false;
                    Step::Done(Outcome::Failed(message))
                }
            },
            None => {
                self.in_flight = false;
                let outcome = match result {
                    AttemptResult::TransportFailure(message) => Outcome::Failed(message),
                    AttemptResult::HttpError { status, body } => {
                        let mut message = String::from_str("API Error ");
                        push_decimal(&mut message, status as u64);
                        message.append(": ");
                        message.append(body.as_str());
                        Outcome::Failed(message)
                    },
                    AttemptResult::Malformed(detail) => Outcome::Failed(
                        String::from_str("malformed response: ").concat(detail.as_str()),
                    ),
                    AttemptResult::Response(response) => classify(&response),
                };
                Step::Done(outcome)
            },
        }
    }

    /// Ends the request in flight, if any, with a failure that arose
    /// outside the retry loop, and releases the guard.
    pub fn abort(&mut self, message: String) -> (outcome: Outcome)
        requires
            old(self).wf(),
        ensures
            final(self).wf(),
            final(self)@ == old(self)@.released(),
            outcome@ == OutcomeView::Failed(message@),
    {
        self.in_flight = false;
        Outcome::Failed(message)
    }
}

/// The state after the results of `results` came back one after another,
/// for as long as the request stayed in flight.
pub open spec fn run(o: OrchestratorView, results: Seq<AttemptResult>) -> OrchestratorView
    decreases results.len(),
{
    if results.len() == 0 {
        o
    } else {
        let before = run(o, results.drop_last());
        if before.in_flight {
            next(before, results.last()).0
        } else {
            before
        }
    }
}

/// While a request is in flight, a further submit is turned down and
/// changes nothing, so that no second request is started.
pub proof fn lemma_submit_while_in_flight(o: OrchestratorView, text: Seq<char>, now: u64)
    requires
        o.in_flight,
    ensures
        o.submitted(text, now) == o,
{
}

/// The guard is released exactly when a result ends the request: a retry
/// leaves it set, a terminal outcome clears it.
pub proof fn lemma_guard_follows_outcome(o: OrchestratorView, result: AttemptResult)
    requires
        o.in_flight,
    ensures
        next(o, result).0.in_flight == (next(o, result).1 is Retry),
{
}

/// Three transport failures in a row end a fresh request as failed with the
/// last message, after exactly three attempts, with a growing delay before
/// the second and the third, and with the guard released.
pub proof fn lemma_three_transport_failures(
    o: OrchestratorView,
    text: Seq<char>,
    now: u64,
    first: AttemptResult,
    second: AttemptResult,
    third: AttemptResult,
)
    requires
        !o.in_flight,
        first is TransportFailure,
        second is TransportFailure,
        third is TransportFailure,
    ensures
        ({
            let s0 = o.submitted(text, now);
            let (s1, step1) = next(s0, first);
            let (s2, step2) = next(s1, second);
            let (s3, step3) = next(s2, third);
            &&& s0.in_flight && s1.in_flight && s2.in_flight && !s3.in_flight
            &&& step1 == StepView::Retry { delay_ms: 2000 }
            &&& step2 == StepView::Retry { delay_ms: 3000 }
            &&& step3 == StepView::Done(OutcomeView::Failed(third->TransportFailure_0@))
            &&& s3.attempts == 3
        }),
{
}

/// Every request ends within the attempt cap: after any three results the
/// guard is released, whatever they were.
pub proof fn lemma_guard_released_within_cap(
    o: OrchestratorView,
    text: Seq<char>,
    now: u64,
    results: Seq<AttemptResult>,
)
    requires
        !o.in_flight,
        results.len() >= MAX_ATTEMPTS,
    ensures
        !run(o.submitted(text, now), results).in_flight,
{
    let s0 = o.submitted(text, now);
    lemma_run_progress(s0, results);
}

/// Each result either ends the request or uses up one attempt.
proof fn lemma_run_progress(o: OrchestratorView, results: Seq<AttemptResult>)
    requires
        o.wf(),
    ensures
        run(o, results).wf(),
        run(o, results).in_flight ==> run(o, results).attempts == o.attempts + results.len()
            && o.in_flight,
    decreases results.len(),
{
    if results.len() > 0 {
        lemma_run_progress(o, results.drop_last());
    }
}

} // verus!
