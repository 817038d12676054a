//! One operation of the client as a machine that performs nothing itself.
//!
//! An [`Exchange`] is begun with a plan and advanced by events. Each advance
//! returns the next step for the caller to perform: send a request and come
//! back with what the transport said, sleep and come back, or stop with the
//! result. The machine decides the order of things: a usable token first,
//! then the request, repeated within the retry policy, then the decoding of
//! the answer.

use crate::client::{Zuora, ZuoraTrait, ZuoraView};
use crate::decode::{decode, decoded};
use crate::error::{Failure, ZuoraError};
use crate::json::{json_model, json_object, json_string, Json};
use crate::request::{Method, RequestSpec, RequestSpecView};
use crate::retry::{Attempts, Reply, ReplyView, Verdict};
use crate::token::{TokenDecision, TokenStoreView};
use serde_json::Value;
use vstd::prelude::*;

verus! {

/// How long a caller sleeps before asking again while another caller is
/// acquiring a token, in milliseconds.
pub const TOKEN_POLL: u64 = 50;

/// What an operation is to achieve.
#[derive(Debug)]
pub enum Plan {
    /// A token in the store: a new one if `force` is set, else the stored
    /// one where it is still usable.
    Token { force: bool },
    /// The answer of a resource.
    Resource { method: Method, path: String, payload: Option<Value> },
}

pub enum PlanView {
    Token { force: bool },
    Resource { method: Method, path: Seq<char>, payload: Option<Json> },
}

impl View for Plan {
    type V = PlanView;

    open spec fn view(&self) -> PlanView {
        match self {
            Plan::Token { force } => PlanView::Token { force: *force },
            Plan::Resource { method, path, payload } => PlanView::Resource {
                method: *method,
                path: path@,
                payload: match payload {
                    Some(v) => Some(json_model(*v)),
                    None => None,
                },
            },
        }
    }
}

impl Plan {
    /// The plan that reads, creates or replaces a resource.
    pub fn resource(method: Method, path: &str, payload: Value) -> (r: Plan)
        ensures
            r@ == (PlanView::Resource {
                method,
                path: path@,
                payload: Some(json_model(payload)),
            }),
    {
        Plan::Resource { method, path: path.to_owned(), payload: Some(payload) }
    }

    /// The plan that runs a query: the query string is posted as the one
    /// member of a JSON object, as [`ZuoraTrait::query`] writes it.
    pub fn query(query_string: &str) -> (r: Plan)
        ensures
            r@ == (PlanView::Resource {
                method: Method::Post,
                path: "/action/query"@,
                payload: Some(ZuoraView::query_document(query_string@)),
            }),
    {
        Plan::Resource {
            method: Method::Post,
            path: "/action/query".to_owned(),
            payload: Some(json_object("queryString", json_string(query_string))),
        }
    }
}

/// Where an operation stands.
#[derive(Debug, Clone, Copy, PartialEq, Eq, Structural)]
pub enum Phase {
    /// Nothing is outstanding; the next event is a resumption.
    Start,
    /// The token request was handed out; the next event is its reply.
    TokenSent,
    /// A wait before the token request is repeated.
    TokenPause,
    /// The resource request was handed out; the next event is its reply.
    ResourceSent,
    /// The result was handed out.
    Finished,
}

/// What the caller reports.
#[derive(Debug)]
pub enum Event {
    /// The caller begins, or has slept as long as it was told.
    Resume,
    /// The transport's reply to the request last handed out.
    Reply(Reply),
}

pub enum EventView {
    Resume,
    Reply(ReplyView),
}

impl View for Event {
    type V = EventView;

    open spec fn view(&self) -> EventView {
        match self {
            Event::Resume => EventView::Resume,
            Event::Reply(reply) => EventView::Reply(reply@),
        }
    }
}

/// What the caller does next.
#[derive(Debug)]
pub enum Step {
    /// Send the request and report the reply.
    Send(RequestSpec),
    /// Sleep, then resume.
    Sleep { millis: u64 },
    /// Stop. A resource plan ends with the document of the answer, a token
    /// plan with none.
    Done(Result<Option<Value>, ZuoraError>),
}

pub enum StepView {
    Send(RequestSpecView),
    Sleep { millis: u64 },
    Done(Result<Option<Json>, Failure>),
}

impl View for Step {
    type V = StepView;

    open spec fn view(&self) -> StepView {
        match self {
            Step::Send(request) => StepView::Send(request@),
            Step::Sleep { millis } => StepView::Sleep { millis: *millis },
            Step::Done(result) => StepView::Done(
                match result {
                    Ok(Some(v)) => Ok(Some(json_model(*v))),
                    Ok(None) => Ok(None),
                    Err(e) => Err(e@),
                },
            ),
        }
    }
}

/// One operation under way.
#[derive(Debug)]
pub struct Exchange {
    plan: Plan,
    phase: Phase,
    token_attempts: Attempts,
    attempts: Attempts,
}

pub struct ExchangeView {
    pub plan: PlanView,
    pub phase: Phase,
    /// The attempts of the token acquisition that is under way.
    pub token_attempts: Attempts,
    /// The attempts of the resource request.
    pub attempts: Attempts,
}

impl View for Exchange {
    type V = ExchangeView;

    closed spec fn view(&self) -> ExchangeView {
        ExchangeView {
            plan: self.plan@,
            phase: self.phase,
            token_attempts: self.token_attempts,
            attempts: self.attempts,
        }
    }
}

/// The failure that a reply stands for when no further attempt follows it.
pub open spec fn failure_of(reply: ReplyView) -> Failure {
    match reply {
        ReplyView::Answer { status, body } => Failure::Api { status, body },
        ReplyView::Failure(reason) => Failure::Transport(reason),
        ReplyView::Cancelled => Failure::Cancelled,
    }
}

/// The attempts of a token acquisition before its first request. The answer
/// 401 of the token endpoint is final: no other token could change it.
pub open spec fn token_attempts_fresh() -> Attempts {
    Attempts { made: 0, reauthenticated: true }
}

/// A client whose acquisition has ended without a token.
pub open spec fn released(client: ZuoraView) -> ZuoraView {
    ZuoraView { tokens: TokenStoreView { refreshing: false, ..client.tokens }, ..client }
}

/// A client that has taken an acquisition upon itself.
pub open spec fn acquiring(client: ZuoraView) -> ZuoraView {
    ZuoraView { tokens: TokenStoreView { refreshing: true, ..client.tokens }, ..client }
}

/// A client whose token was discarded.
pub open spec fn unauthenticated(client: ZuoraView) -> ZuoraView {
    ZuoraView { tokens: TokenStoreView { token: None, ..client.tokens }, ..client }
}

/// What one advance leads to.
pub struct Turn {
    pub client: ZuoraView,
    pub exchange: ExchangeView,
    pub step: StepView,
}

impl ExchangeView {
    /// An operation before its first event.
    pub open spec fn begun(plan: PlanView) -> ExchangeView {
        ExchangeView {
            plan,
            phase: Phase::Start,
            token_attempts: Attempts::fresh(),
            attempts: Attempts::fresh(),
        }
    }

    /// Whether the operation has a token acquisition under way.
    pub open spec fn owns_acquisition(self) -> bool {
        self.phase == Phase::TokenSent || self.phase == Phase::TokenPause
    }

    /// The operation ends with a result.
    pub open spec fn finish(self, client: ZuoraView, result: Result<Option<Json>, Failure>) -> Turn {
        Turn {
            client,
            exchange: ExchangeView { phase: Phase::Finished, ..self },
            step: StepView::Done(result),
        }
    }

    /// The operation is given up: an acquisition that it has under way ends
    /// without a token, and the result is `Cancelled`.
    pub open spec fn give_up(self, client: ZuoraView) -> Turn {
        self.finish(
            if self.owns_acquisition() {
                released(client)
            } else {
                client
            },
            Err(Failure::Cancelled),
        )
    }

    /// With a token in place: a token plan is done, a resource plan hands out
    /// its request, or fails where the request cannot be written.
    pub open spec fn dispatch(self, client: ZuoraView) -> Turn {
        match self.plan {
            PlanView::Token { .. } => self.finish(client, Ok(None)),
            PlanView::Resource { method, path, payload } => match client.request(
                method,
                path,
                payload,
            ) {
                Ok(request) => Turn {
                    client,
                    exchange: ExchangeView { phase: Phase::ResourceSent, ..self },
                    step: StepView::Send(request),
                },
                Err(failure) => self.finish(client, Err(failure)),
            },
        }
    }

    /// What the token store tells this operation at `now`.
    pub open spec fn token_decision(self, client: ZuoraView, now: u64) -> TokenDecision {
        match self.plan {
            PlanView::Token { force: true } => client.tokens.forced_decision(),
            _ => client.tokens.decision(now),
        }
    }

    /// From the start: go on with a usable token, wait while another caller
    /// acquires one, or take the acquisition and hand out the token request.
    pub open spec fn proceed(self, client: ZuoraView, now: u64) -> Turn {
        match self.token_decision(client, now) {
            TokenDecision::Ready => self.dispatch(client),
            TokenDecision::Wait => Turn {
                client,
                exchange: self,
                step: StepView::Sleep { millis: TOKEN_POLL },
            },
            TokenDecision::Refresh => Turn {
                client: acquiring(client),
                exchange: ExchangeView {
                    phase: Phase::TokenSent,
                    token_attempts: token_attempts_fresh(),
                    ..self
                },
                step: StepView::Send(client.token_request()),
            },
        }
    }

    /// After a reply to the token request: a grant is stored and the
    /// operation goes on; a transient failure is retried within the policy;
    /// anything else ends the operation with an authentication failure.
    pub open spec fn on_token_reply(self, client: ZuoraView, reply: ReplyView, now: u64, jitter: u64) -> Turn {
        let next = ExchangeView {
            token_attempts: client.policy.counted(self.token_attempts, reply),
            ..self
        };
        match (client.policy.verdict(self.token_attempts, reply, jitter), reply) {
            (Verdict::Retry { delay }, _) => Turn {
                client,
                exchange: ExchangeView { phase: Phase::TokenPause, ..next },
                step: StepView::Sleep { millis: delay },
            },
            (Verdict::Exhausted, _) => next.finish(
                released(client),
                Err(
                    Failure::Auth(
                        Box::new(Failure::RetryExhausted(Box::new(failure_of(reply)))),
                    ),
                ),
            ),
            (Verdict::Deliver, ReplyView::Answer { status, body }) => {
                let stored = client.after_token_answer(status, body, now);
                match ZuoraView::token_answer_result(status, body) {
                    Ok(_) => next.dispatch(stored),
                    Err(failure) => next.finish(stored, Err(failure)),
                }
            },
            _ => next.give_up(client),
        }
    }

    /// After a reply to the resource request: a final answer is decoded; a
    /// first 401 discards the token and starts over; a transient failure is
    /// retried within the policy or, with no attempt left, reported.
    pub open spec fn on_resource_reply(self, client: ZuoraView, reply: ReplyView, now: u64, jitter: u64) -> Turn {
        let next = ExchangeView {
            attempts: client.policy.counted(self.attempts, reply),
            ..self
        };
        match (client.policy.verdict(self.attempts, reply, jitter), reply) {
            (Verdict::Deliver, ReplyView::Answer { status, body }) => next.finish(
                client,
                match decoded(status, body) {
                    Ok(doc) => Ok(Some(doc)),
                    Err(failure) => Err(failure),
                },
            ),
            (Verdict::Reauthenticate, _) => (ExchangeView { phase: Phase::Start, ..next }).proceed(
                unauthenticated(client),
                now,
            ),
            (Verdict::Retry { delay }, _) => Turn {
                client,
                exchange: ExchangeView { phase: Phase::Start, ..next },
                step: StepView::Sleep { millis: delay },
            },
            (Verdict::Exhausted, _) => next.finish(
                client,
                Err(Failure::RetryExhausted(Box::new(failure_of(reply)))),
            ),
            _ => next.give_up(client),
        }
    }

    /// One advance. An event that does not answer the step last handed out,
    /// and a reply that reports cancellation, give the operation up.
    pub open spec fn turn(self, client: ZuoraView, event: EventView, now: u64, jitter: u64) -> Turn {
        match (self.phase, event) {
            (_, EventView::Reply(ReplyView::Cancelled)) => self.give_up(client),
            (Phase::Start, EventView::Resume) => self.proceed(client, now),
            (Phase::TokenPause, EventView::Resume) => Turn {
                client,
                exchange: ExchangeView { phase: Phase::TokenSent, ..self },
                step: StepView::Send(client.token_request()),
            },
            (Phase::TokenSent, EventView::Reply(reply)) => self.on_token_reply(
                client,
                reply,
                now,
                jitter,
            ),
            (Phase::ResourceSent, EventView::Reply(reply)) => self.on_resource_reply(
                client,
                reply,
                now,
                jitter,
            ),
            _ => self.give_up(client),
        }
    }
}

/// The error that a reply stands for when no further attempt follows it.
pub fn failure(reply: Reply) -> (r: ZuoraError)
    ensures
        r@ == failure_of(reply@),
{
    match reply {
        Reply::Answer { status, body } => ZuoraError::Api { status, body },
        Reply::Failure(reason) => ZuoraError::Transport(reason),
        Reply::Cancelled => ZuoraError::Cancelled,
    }
}

impl Exchange {
    /// An operation before its first event.
    pub fn begin(plan: Plan) -> (r: Exchange)
        ensures
            r@ == ExchangeView::begun(plan@),
    {
        Exchange { plan, phase: Phase::Start, token_attempts: Attempts::new(), attempts: Attempts::new() }
    }

    pub fn phase(&self) -> (r: Phase)
        ensures
            r == self@.phase,
    {
        self.phase
    }

    /// The attempts of the resource request that count so far.
    pub fn attempts(&self) -> (r: Attempts)
        ensures
            r == self@.attempts,
    {
        self.attempts
    }

    fn finish(&mut self, result: Result<Option<Value>, ZuoraError>) -> (step: Step)
        ensures
            final(self)@ == (ExchangeView { phase: Phase::Finished, ..old(self)@ }),
            step == Step::Done(result),
    {
        self.phase = Phase::Finished;
        Step::Done(result)
    }
}

impl Zuora {
    /// Advances an operation by one event and says what the caller does
    /// next.
    pub fn advance(&mut self, exchange: &mut Exchange, event: Event, now: u64, jitter: u64) -> (step:
        Step)
        ensures
            final(self)@ == old(exchange)@.turn(old(self)@, event@, now, jitter).client,
            final(exchange)@ == old(exchange)@.turn(old(self)@, event@, now, jitter).exchange,
            step@ == old(exchange)@.turn(old(self)@, event@, now, jitter).step,
    {
        match (exchange.phase, event) {
            (_, Event::Reply(Reply::Cancelled)) => self.give_up(exchange),
            (Phase::Start, Event::Resume) => self.proceed(exchange, now),
            (Phase::TokenPause, Event::Resume) => {
                exchange.phase = Phase::TokenSent;
                Step::Send(self.token_request())
            },
            (Phase::TokenSent, Event::Reply(reply)) => self.on_token_reply(
                exchange,
                reply,
                now,
                jitter,
            ),
            (Phase::ResourceSent, Event::Reply(reply)) => self.on_resource_reply(
                exchange,
                reply,
                now,
                jitter,
            ),
            _ => self.give_up(exchange),
        }
    }

    fn give_up(&mut self, exchange: &mut Exchange) -> (step: Step)
        ensures
            final(self)@ == old(exchange)@.give_up(old(self)@).client,
            final(exchange)@ == old(exchange)@.give_up(old(self)@).exchange,
            step@ == old(exchange)@.give_up(old(self)@).step,
    {
        match exchange.phase {
            Phase::TokenSent | Phase::TokenPause => {
                self.abandon_refresh();
            },
            _ => {},
        }
        exchange.finish(Err(ZuoraError::Cancelled))
    }

    fn dispatch(&self, exchange: &mut Exchange) -> (step: Step)
        ensures
            final(exchange)@ == old(exchange)@.dispatch(self@).exchange,
            step@ == old(exchange)@.dispatch(self@).step,
    {
        let built = match &exchange.plan {
            Plan::Token { .. } => None,
            Plan::Resource { method, path, payload } => Some(
                self.build(*method, path.as_str(), payload.as_ref()),
            ),
        };
        match built {
            None => exchange.finish(Ok(None)),
            Some(Ok(request)) => {
                exchange.phase = Phase::ResourceSent;
                Step::Send(request)
            },
            Some(Err(e)) => exchange.finish(Err(e)),
        }
    }

    fn proceed(&mut self, exchange: &mut Exchange, now: u64) -> (step: Step)
        ensures
            final(self)@ == old(exchange)@.proceed(old(self)@, now).client,
            final(exchange)@ == old(exchange)@.proceed(old(self)@, now).exchange,
            step@ == old(exchange)@.proceed(old(self)@, now).step,
    {
        let forced = match &exchange.plan {
            Plan::Token { force } => *force,
            Plan::Resource { .. } => false,
        };
        let request = self.token_request();
        let decision = if forced {
            self.force_refresh()
        } else {
            self.ensure_token(now)
        };
        match decision {
            TokenDecision::Ready => self.dispatch(exchange),
            TokenDecision::Wait => Step::Sleep { millis: TOKEN_POLL },
            TokenDecision::Refresh => {
                exchange.phase = Phase::TokenSent;
                exchange.token_attempts = Attempts { made: 0, reauthenticated: true };
                Step::Send(request)
            },
        }
    }

    fn on_token_reply(&mut self, exchange: &mut Exchange, reply: Reply, now: u64, jitter: u64) -> (step:
        Step)
        requires
            !(reply@ is Cancelled),
        ensures
            final(self)@ == old(exchange)@.on_token_reply(old(self)@, reply@, now, jitter).client,
            final(exchange)@ == old(exchange)@.on_token_reply(
                old(self)@,
                reply@,
                now,
                jitter,
            ).exchange,
            step@ == old(exchange)@.on_token_reply(old(self)@, reply@, now, jitter).step,
    {
        let policy = self.policy();
        let verdict = policy.judge(&mut exchange.token_attempts, &reply, jitter);
        match (verdict, reply) {
            (Verdict::Retry { delay }, _) => {
                exchange.phase = Phase::TokenPause;
                Step::Sleep { millis: delay }
            },
            (Verdict::Exhausted, reply) => {
                self.abandon_refresh();
                exchange.finish(Err(ZuoraError::auth(ZuoraError::exhausted(failure(reply)))))
            },
            (Verdict::Deliver, Reply::Answer { status, body }) => {
                match self.generate_token(status, body.as_str(), now) {
                    Ok(_) => self.dispatch(exchange),
                    Err(e) => exchange.finish(Err(e)),
                }
            },
            _ => self.give_up(exchange),
        }
    }

    fn on_resource_reply(&mut self, exchange: &mut Exchange, reply: Reply, now: u64, jitter: u64) -> (step:
        Step)
        requires
            !(reply@ is Cancelled),
        ensures
            final(self)@ == old(exchange)@.on_resource_reply(old(self)@, reply@, now, jitter).client,
            final(exchange)@ == old(exchange)@.on_resource_reply(
                old(self)@,
                reply@,
                now,
                jitter,
            ).exchange,
            step@ == old(exchange)@.on_resource_reply(old(self)@, reply@, now, jitter).step,
    {
        let policy = self.policy();
        let verdict = policy.judge(&mut exchange.attempts, &reply, jitter);
        match (verdict, reply) {
            (Verdict::Deliver, Reply::Answer { status, body }) => {
                let result = match decode(status, body.as_str()) {
                    Ok(v) => Ok(Some(v)),
                    Err(e) => Err(e),
                };
                exchange.finish(result)
            },
            (Verdict::Reauthenticate, _) => {
                self.invalidate_token();
                exchange.phase = Phase::Start;
                self.proceed(exchange, now)
            },
            (Verdict::Retry { delay }, _) => {
                exchange.phase = Phase::Start;
                Step::Sleep { millis: delay }
            },
            (Verdict::Exhausted, reply) => exchange.finish(
                Err(ZuoraError::exhausted(failure(reply))),
            ),
            _ => self.give_up(exchange),
        }
    }
}

} // verus!
