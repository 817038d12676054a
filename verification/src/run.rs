//! Whole operations: an exchange driven from its first event to its result
//! by a caller that does what each step says, and what holds of every such
//! run.

use crate::client::ZuoraView;
use crate::decode::{decoded, is_success};
use crate::error::{DecodeFault, Failure};
use crate::exchange::{failure_of, EventView, ExchangeView, Phase, PlanView, StepView};
use crate::json::{json_parse, Json};
use crate::request::RequestSpecView;
use crate::retry::{class_of, Attempts, ReplyClass, ReplyView};
use crate::token::{AccessTokenView, Grant, TokenStoreView, REFRESH_MARGIN};
use vstd::prelude::*;

verus! {

/// What a run has come to.
pub struct Run {
    pub client: ZuoraView,
    pub exchange: ExchangeView,
    /// The requests that were handed to the transport.
    pub sends: nat,
    /// The result, if the run has reached one.
    pub result: Option<Result<Option<Json>, Failure>>,
}

/// The result of a resource operation whose last answer has this status and
/// body.
pub open spec fn delivered(status: u16, body: Seq<char>) -> Result<Option<Json>, Failure> {
    match decoded(status, body) {
        Ok(doc) => Ok(Some(doc)),
        Err(failure) => Err(failure),
    }
}

impl ExchangeView {
    /// The run of a caller that reports `event` and then does what each step
    /// says: it answers a request with the next of `replies` and a sleep with
    /// a resumption. The `tick`-th advance happens at the instant
    /// `clock(tick)` with the jitter `dice(tick)`. The run stops at a
    /// result, when the transport has no reply left for a request, and after
    /// `budget` further events.
    pub open spec fn run(
        self,
        client: ZuoraView,
        event: EventView,
        replies: Seq<ReplyView>,
        clock: spec_fn(nat) -> u64,
        dice: spec_fn(nat) -> u64,
        tick: nat,
        budget: nat,
    ) -> Run
        decreases budget,
    {
        let turn = self.turn(client, event, clock(tick), dice(tick));
        match turn.step {
            StepView::Done(result) => Run {
                client: turn.client,
                exchange: turn.exchange,
                sends: 0,
                result: Some(result),
            },
            StepView::Sleep { .. } => if budget == 0 {
                Run { client: turn.client, exchange: turn.exchange, sends: 0, result: None }
            } else {
                turn.exchange.run(
                    turn.client,
                    EventView::Resume,
                    replies,
                    clock,
                    dice,
                    tick + 1,
                    (budget - 1) as nat,
                )
            },
            StepView::Send(_) => if budget == 0 || replies.len() == 0 {
                Run { client: turn.client, exchange: turn.exchange, sends: 1, result: None }
            } else {
                let rest = turn.exchange.run(
                    turn.client,
                    EventView::Reply(replies[0]),
                    replies.drop_first(),
                    clock,
                    dice,
                    tick + 1,
                    (budget - 1) as nat,
                );
                Run { sends: rest.sends + 1, ..rest }
            },
        }
    }
}

/// The attempts that count after `failures` transient failures and one final
/// answer, from `made` on.
pub open spec fn attempts_after(made: usize, failures: nat, max_attempts: usize) -> usize {
    if made + failures < max_attempts {
        (made + failures + 1) as usize
    } else {
        made
    }
}

/// A resource operation of a client whose token stays usable, begun or
/// resumed at the start, whose request meets transient failures and then a
/// final answer: as long as the failures leave one attempt, each is followed
/// by another request, the final answer ends the operation with what it
/// decodes to, and the transport has seen one request per reply, whatever it
/// might have replied afterwards. The client is as before.
pub proof fn retried_until_final(
    exchange: ExchangeView,
    client: ZuoraView,
    failures: Seq<ReplyView>,
    status: u16,
    body: Seq<char>,
    unused: Seq<ReplyView>,
    clock: spec_fn(nat) -> u64,
    dice: spec_fn(nat) -> u64,
    tick: nat,
    budget: nat,
)
    requires
        exchange.phase == Phase::Start,
        exchange.plan is Resource,
        client.request(
            exchange.plan->Resource_method,
            exchange.plan->Resource_path,
            exchange.plan->Resource_payload,
        ) is Ok,
        forall|t: nat| client.tokens.usable_at(#[trigger] clock(t)),
        forall|i: int|
            0 <= i < failures.len() ==> class_of(#[trigger] failures[i]) == ReplyClass::Transient,
        class_of(ReplyView::Answer { status, body }) == ReplyClass::Final,
        failures.len() == 0 || exchange.attempts.made + failures.len() < client.policy.max_attempts,
        budget > 2 * failures.len(),
    ensures
        exchange.run(
            client,
            EventView::Resume,
            failures.push(ReplyView::Answer { status, body }) + unused,
            clock,
            dice,
            tick,
            budget,
        ) == (Run {
            client,
            exchange: ExchangeView {
                phase: Phase::Finished,
                attempts: Attempts {
                    made: attempts_after(
                        exchange.attempts.made,
                        failures.len(),
                        client.policy.max_attempts,
                    ),
                    ..exchange.attempts
                },
                ..exchange
            },
            sends: failures.len() + 1,
            result: Some(delivered(status, body)),
        }),
    decreases failures.len(),
{
    let answer = ReplyView::Answer { status, body };
    let replies = failures.push(answer) + unused;
    assert(client.tokens.usable_at(clock(tick)));
    let first = exchange.turn(client, EventView::Resume, clock(tick), dice(tick));
    assert(first == exchange.dispatch(client));
    let sent = first.exchange;
    let reply = replies[0];
    let second = sent.turn(client, EventView::Reply(reply), clock(tick + 1), dice(tick + 1));
    let whole = exchange.run(client, EventView::Resume, replies, clock, dice, tick, budget);
    let after_send = sent.run(
        client,
        EventView::Reply(reply),
        replies.drop_first(),
        clock,
        dice,
        tick + 1,
        (budget - 1) as nat,
    );
    assert(whole == (Run { sends: after_send.sends + 1, ..after_send }));
    if failures.len() == 0 {
        assert(reply == answer);
        assert(second.step == StepView::Done(delivered(status, body)));
        assert(after_send.sends == 0);
    } else {
        assert(reply == failures[0]);
        assert(class_of(reply) == ReplyClass::Transient);
        assert(second.step is Sleep);
        let paused = second.exchange;
        assert(second.client == client);
        let rest = failures.drop_first();
        assert(replies.drop_first() =~= rest.push(answer) + unused);
        assert forall|i: int| 0 <= i < rest.len() implies class_of(#[trigger] rest[i])
            == ReplyClass::Transient by {
            assert(rest[i] == failures[i + 1]);
        }
        assert(after_send == paused.run(
            client,
            EventView::Resume,
            replies.drop_first(),
            clock,
            dice,
            tick + 2,
            (budget - 2) as nat,
        ));
        retried_until_final(
            paused,
            client,
            rest,
            status,
            body,
            unused,
            clock,
            dice,
            tick + 2,
            (budget - 2) as nat,
        );
    }
}

/// A resource operation of a client whose token stays usable, whose request
/// meets as many transient failures as the policy allows attempts: each
/// failure but the last is followed by another request, and the last ends the
/// operation with the failure it stands for, wrapped as the exhaustion of
/// the attempts. The transport has seen exactly that many requests.
pub proof fn exhausted_after_the_limit(
    exchange: ExchangeView,
    client: ZuoraView,
    failures: Seq<ReplyView>,
    unused: Seq<ReplyView>,
    clock: spec_fn(nat) -> u64,
    dice: spec_fn(nat) -> u64,
    tick: nat,
    budget: nat,
)
    requires
        exchange.phase == Phase::Start,
        exchange.plan is Resource,
        client.request(
            exchange.plan->Resource_method,
            exchange.plan->Resource_path,
            exchange.plan->Resource_payload,
        ) is Ok,
        forall|t: nat| client.tokens.usable_at(#[trigger] clock(t)),
        forall|i: int|
            0 <= i < failures.len() ==> class_of(#[trigger] failures[i]) == ReplyClass::Transient,
        failures.len() >= 1,
        exchange.attempts.made + failures.len() == client.policy.max_attempts,
        budget + 1 >= 2 * failures.len(),
    ensures
        exchange.run(client, EventView::Resume, failures + unused, clock, dice, tick, budget) == (Run {
            client,
            exchange: ExchangeView {
                phase: Phase::Finished,
                attempts: Attempts { made: client.policy.max_attempts, ..exchange.attempts },
                ..exchange
            },
            sends: failures.len(),
            result: Some(
                Err::<Option<Json>, Failure>(
                    Failure::RetryExhausted(Box::new(failure_of(failures.last()))),
                ),
            ),
        }),
    decreases failures.len(),
{
    let replies = failures + unused;
    assert(client.tokens.usable_at(clock(tick)));
    let first = exchange.turn(client, EventView::Resume, clock(tick), dice(tick));
    assert(first == exchange.dispatch(client));
    let sent = first.exchange;
    let reply = replies[0];
    assert(reply == failures[0]);
    assert(class_of(reply) == ReplyClass::Transient);
    let second = sent.turn(client, EventView::Reply(reply), clock(tick + 1), dice(tick + 1));
    let whole = exchange.run(client, EventView::Resume, replies, clock, dice, tick, budget);
    let after_send = sent.run(
        client,
        EventView::Reply(reply),
        replies.drop_first(),
        clock,
        dice,
        tick + 1,
        (budget - 1) as nat,
    );
    assert(whole == (Run { sends: after_send.sends + 1, ..after_send }));
    if failures.len() == 1 {
        assert(failures.last() == reply);
        assert(second.step is Done);
        assert(after_send.sends == 0);
    } else {
        assert(second.step is Sleep);
        let paused = second.exchange;
        assert(second.client == client);
        let rest = failures.drop_first();
        assert(replies.drop_first() =~= rest + unused);
        assert(rest.last() == failures.last());
        assert forall|i: int| 0 <= i < rest.len() implies class_of(#[trigger] rest[i])
            == ReplyClass::Transient by {
            assert(rest[i] == failures[i + 1]);
        }
        assert(after_send == paused.run(
            client,
            EventView::Resume,
            replies.drop_first(),
            clock,
            dice,
            tick + 2,
            (budget - 2) as nat,
        ));
        exhausted_after_the_limit(
            paused,
            client,
            rest,
            unused,
            clock,
            dice,
            tick + 2,
            (budget - 2) as nat,
        );
    }
}

/// The first answer 401 to a resource request discards the token, acquires
/// another and repeats the request with it, once: the answer to the
/// repetition ends the operation, be it 401 again. The transport has seen
/// three requests, and of the two for the resource only one counts against
/// the limit of attempts.
pub proof fn unauthorized_is_repeated_once(
    client: ZuoraView,
    plan: PlanView,
    refusal: Seq<char>,
    grant_status: u16,
    grant_body: Seq<char>,
    status: u16,
    body: Seq<char>,
    unused: Seq<ReplyView>,
    clock: spec_fn(nat) -> u64,
    dice: spec_fn(nat) -> u64,
    budget: nat,
)
    requires
        plan is Resource,
        client.request(plan->Resource_method, plan->Resource_path, plan->Resource_payload) is Ok,
        client.tokens.usable_at(clock(0)),
        !client.tokens.refreshing,
        crate::decode::decoded_as::<Grant>(grant_status, grant_body) is Ok,
        client.after_token_answer(grant_status, grant_body, clock(2)).request(
            plan->Resource_method,
            plan->Resource_path,
            plan->Resource_payload,
        ) is Ok,
        class_of(ReplyView::Answer { status, body }) == ReplyClass::Final || status == 401,
        budget >= 3,
    ensures
        ({
            let run = ExchangeView::begun(plan).run(
                client,
                EventView::Resume,
                seq![
                    ReplyView::Answer { status: 401, body: refusal },
                    ReplyView::Answer { status: grant_status, body: grant_body },
                    ReplyView::Answer { status, body },
                ] + unused,
                clock,
                dice,
                0,
                budget,
            );
            &&& run.sends == 3
            &&& run.result == Some(delivered(status, body))
            &&& run.client == client.after_token_answer(grant_status, grant_body, clock(2))
            &&& run.exchange.phase == Phase::Finished
            &&& run.exchange.attempts.reauthenticated
            &&& run.exchange.attempts.made == attempts_after(0, 0, client.policy.max_attempts)
        }),
{
    let refused = ReplyView::Answer { status: 401, body: refusal };
    let granted = ReplyView::Answer { status: grant_status, body: grant_body };
    let answer = ReplyView::Answer { status, body };
    let replies = seq![refused, granted, answer] + unused;
    let begun = ExchangeView::begun(plan);
    let first = begun.turn(client, EventView::Resume, clock(0), dice(0));
    assert(first == begun.dispatch(client));
    assert(first.step is Send);
    let r1 = replies.drop_first();
    assert(replies[0] == refused);
    let second = first.exchange.turn(client, EventView::Reply(refused), clock(1), dice(1));
    assert(second.step == StepView::Send(client.token_request()));
    assert(second.exchange.phase == Phase::TokenSent);
    let r2 = r1.drop_first();
    assert(r1[0] == granted);
    assert(is_success(grant_status));
    let third = second.exchange.turn(second.client, EventView::Reply(granted), clock(2), dice(2));
    let stored = client.after_token_answer(grant_status, grant_body, clock(2));
    assert(second.client.after_token_answer(grant_status, grant_body, clock(2)) == stored);
    assert(third.client == stored);
    assert(third.step is Send);
    assert(third.exchange.phase == Phase::ResourceSent);
    let r3 = r2.drop_first();
    assert(r2[0] == answer);
    let fourth = third.exchange.turn(stored, EventView::Reply(answer), clock(3), dice(3));
    assert(fourth.step == StepView::Done(delivered(status, body)));
    let run4 = third.exchange.run(stored, EventView::Reply(answer), r3, clock, dice, 3, (budget - 3) as nat);
    assert(run4.sends == 0);
    let run3 = second.exchange.run(second.client, EventView::Reply(granted), r2, clock, dice, 2, (budget - 2) as nat);
    assert(run3 == (Run { sends: 1, ..run4 }));
    let run2 = first.exchange.run(client, EventView::Reply(refused), r1, clock, dice, 1, (budget - 1) as nat);
    assert(run2 == (Run { sends: 2, ..run4 }));
    let run1 = begun.run(client, EventView::Resume, replies, clock, dice, 0, budget);
    assert(run1 == (Run { sends: 3, ..run4 }));
}

/// Server errors that leave one attempt, followed by a success: the
/// operation ends with the document of the successful answer, and the
/// transport has seen one request more than there were failures, never more
/// than the policy allows.
pub proof fn server_errors_then_success(
    client: ZuoraView,
    plan: PlanView,
    failures: Seq<ReplyView>,
    status: u16,
    body: Seq<char>,
    clock: spec_fn(nat) -> u64,
    dice: spec_fn(nat) -> u64,
    budget: nat,
)
    requires
        plan is Resource,
        client.request(plan->Resource_method, plan->Resource_path, plan->Resource_payload) is Ok,
        forall|t: nat| client.tokens.usable_at(#[trigger] clock(t)),
        forall|i: int|
            0 <= i < failures.len() ==> (#[trigger] failures[i]) is Answer && 500
                <= failures[i]->Answer_status < 600,
        failures.len() < client.policy.max_attempts,
        is_success(status),
        budget > 2 * failures.len(),
    ensures
        ({
            let run = ExchangeView::begun(plan).run(
                client,
                EventView::Resume,
                failures.push(ReplyView::Answer { status, body }),
                clock,
                dice,
                0,
                budget,
            );
            &&& run.sends == failures.len() + 1
            &&& run.sends <= client.policy.max_attempts
            &&& run.exchange.attempts.made == failures.len() + 1
            &&& run.exchange.phase == Phase::Finished
            &&& run.client == client
            &&& run.result == Some(delivered(status, body))
            &&& json_parse(body) is Some ==> run.result == Some(
                Ok::<Option<Json>, Failure>(Some(json_parse(body)->Some_0)),
            )
        }),
{
    let answer = ReplyView::Answer { status, body };
    assert(failures.push(answer) + Seq::<ReplyView>::empty() =~= failures.push(answer));
    retried_until_final(
        ExchangeView::begun(plan),
        client,
        failures,
        status,
        body,
        Seq::empty(),
        clock,
        dice,
        0,
        budget,
    );
}

/// A refusal of the request itself, that is a status from 400 up to 499
/// other than 401, ends the operation at once: the result is the failure with
/// that status and the raw body, and the transport has seen one request,
/// whatever it might have replied to another.
pub proof fn client_error_is_final(
    client: ZuoraView,
    plan: PlanView,
    status: u16,
    body: Seq<char>,
    unused: Seq<ReplyView>,
    clock: spec_fn(nat) -> u64,
    dice: spec_fn(nat) -> u64,
    budget: nat,
)
    requires
        plan is Resource,
        client.request(plan->Resource_method, plan->Resource_path, plan->Resource_payload) is Ok,
        forall|t: nat| client.tokens.usable_at(#[trigger] clock(t)),
        400 <= status < 500,
        status != 401,
        budget > 0,
    ensures
        ({
            let run = ExchangeView::begun(plan).run(
                client,
                EventView::Resume,
                seq![ReplyView::Answer { status, body }] + unused,
                clock,
                dice,
                0,
                budget,
            );
            &&& run.sends == 1
            &&& run.exchange.phase == Phase::Finished
            &&& run.client == client
            &&& run.result == Some(
                Err::<Option<Json>, Failure>(Failure::Api { status, body }),
            )
        }),
{
    let answer = ReplyView::Answer { status, body };
    assert(Seq::<ReplyView>::empty().push(answer) =~= seq![answer]);
    retried_until_final(
        ExchangeView::begun(plan),
        client,
        Seq::empty(),
        status,
        body,
        unused,
        clock,
        dice,
        0,
        budget,
    );
}

/// The same request made twice of a service that answers both times alike
/// has both times the same result: the second operation starts from the
/// client that the first one left.
pub proof fn repeated_request_agrees(
    client: ZuoraView,
    plan: PlanView,
    status: u16,
    body: Seq<char>,
    clock: spec_fn(nat) -> u64,
    dice: spec_fn(nat) -> u64,
    later_clock: spec_fn(nat) -> u64,
    later_dice: spec_fn(nat) -> u64,
    budget: nat,
)
    requires
        plan is Resource,
        client.request(plan->Resource_method, plan->Resource_path, plan->Resource_payload) is Ok,
        forall|t: nat| client.tokens.usable_at(#[trigger] clock(t)),
        forall|t: nat| client.tokens.usable_at(#[trigger] later_clock(t)),
        class_of(ReplyView::Answer { status, body }) == ReplyClass::Final,
        budget > 0,
    ensures
        ({
            let once = ExchangeView::begun(plan).run(
                client,
                EventView::Resume,
                seq![ReplyView::Answer { status, body }],
                clock,
                dice,
                0,
                budget,
            );
            let again = ExchangeView::begun(plan).run(
                once.client,
                EventView::Resume,
                seq![ReplyView::Answer { status, body }],
                later_clock,
                later_dice,
                0,
                budget,
            );
            &&& once.result == Some(delivered(status, body))
            &&& again.result == once.result
            &&& again.client == client
        }),
{
    let answer = ReplyView::Answer { status, body };
    assert(Seq::<ReplyView>::empty().push(answer) + Seq::<ReplyView>::empty() =~= seq![answer]);
    retried_until_final(
        ExchangeView::begun(plan),
        client,
        Seq::empty(),
        status,
        body,
        Seq::empty(),
        clock,
        dice,
        0,
        budget,
    );
    retried_until_final(
        ExchangeView::begun(plan),
        client,
        Seq::empty(),
        status,
        body,
        Seq::empty(),
        later_clock,
        later_dice,
        0,
        budget,
    );
}

/// A grant of the token endpoint, taken in at `issued`, is stored with every
/// member as the answer gave it, and serves every operation that begins
/// while more than the margin is left of it: such an operation goes straight
/// to its own request and asks for no token.
pub proof fn granted_token_is_reused(
    client: ZuoraView,
    status: u16,
    body: Seq<char>,
    issued: u64,
    plan: PlanView,
    now: u64,
    jitter: u64,
)
    requires
        crate::decode::decoded_as::<Grant>(status, body) is Ok,
        now + REFRESH_MARGIN < issued + crate::decode::decoded_as::<Grant>(
            status,
            body,
        )->Ok_0.expires_in,
        plan == (PlanView::Token { force: false }) || plan is Resource,
    ensures
        ({
            let grant = crate::decode::decoded_as::<Grant>(status, body)->Ok_0;
            let stored = client.after_token_answer(status, body, issued);
            let turn = ExchangeView::begun(plan).turn(stored, EventView::Resume, now, jitter);
            &&& stored.tokens == (TokenStoreView {
                token: Some(AccessTokenView { grant, issued_at: issued }),
                refreshing: false,
            })
            &&& stored.tokens.decision(now) == crate::token::TokenDecision::Ready
            &&& stored.tokens.after_decision(now) == stored.tokens
            &&& turn == ExchangeView::begun(plan).dispatch(stored)
            &&& turn.client == stored
            &&& turn.step != StepView::Send(stored.token_request())
        }),
{
    let stored = client.after_token_answer(status, body, issued);
    let turn = ExchangeView::begun(plan).dispatch(stored);
    if turn.step == StepView::Send(stored.token_request()) {
        let method = plan->Resource_method;
        let path = plan->Resource_path;
        let payload = plan->Resource_payload;
        let built = stored.request(method, path, payload)->Ok_0;
        assert(built.url == stored.token_request().url);
        assert(built.headers == stored.token_request().headers);
        assert(stored.auth_headers()->Some_0.contains_key("authorization"@));
        if payload is Some {
            assert(built.headers.contains_key("authorization"@));
        }
        assert(!crate::headers::HeaderFields::empty().contains_key("authorization"@));
        assert(false);
    }
}

} // verus!
