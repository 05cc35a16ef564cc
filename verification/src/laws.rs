//! What holds of the bridge as a whole, proved over the spec functions
//! that the contracts of the other modules speak of.

use crate::actuator::{applied, rejection, state_after, ActuatorState, Command};
use crate::connection::{
    brings_lease, elapsed, stepped, Connection, ConnectionAction, ConnectionError,
    ConnectionEvent, ConnectionState, RetryPolicy,
};
use crate::decoder::{
    decimal_value, decoded, is_decimal, route_named, DecodeError, Route, ROUTE_HEADLIGHT,
    ROUTE_SPEED, ROUTE_STEERING,
};
use crate::router::{
    lemma_split_unique, outcome, route_parts, splits_at, Method, STATUS_BAD_REQUEST,
    STATUS_NOT_FOUND, STATUS_OK,
};
use vstd::prelude::*;

verus! {

/// Whether `s` holds no slash.
pub open spec fn slash_free(s: Seq<char>) -> bool {
    forall|i: int| 0 <= i < s.len() ==> #[trigger] s[i] != '/'
}

/// The path `/<name>/<raw>`.
pub open spec fn route_path(name: Seq<char>, raw: Seq<char>) -> Seq<char> {
    seq!['/'] + name + seq!['/'] + raw
}

/// The three route names hold no slash and differ from one another.
pub proof fn lemma_route_names()
    ensures
        slash_free(ROUTE_SPEED@),
        slash_free(ROUTE_STEERING@),
        slash_free(ROUTE_HEADLIGHT@),
        route_named(ROUTE_SPEED@) == Some(Route::Speed),
        route_named(ROUTE_STEERING@) == Some(Route::Steering),
        route_named(ROUTE_HEADLIGHT@) == Some(Route::Headlight),
{
    reveal_strlit("updateSpeed");
    reveal_strlit("updateSteering");
    reveal_strlit("toggleHeadlight");
    assert(ROUTE_SPEED@.len() == 11);
    assert(ROUTE_STEERING@.len() == 14);
    assert(ROUTE_HEADLIGHT@.len() == 15);
}

/// A path built from a name without a slash and a parameter splits into
/// that name and that parameter.
pub proof fn lemma_route_path_parts(name: Seq<char>, raw: Seq<char>)
    requires
        slash_free(name),
    ensures
        route_parts(route_path(name, raw)) == Some((name, raw)),
        route_path(name, raw) != seq!['/'],
{
    let path = route_path(name, raw);
    let i = name.len() as int + 1;
    assert(splits_at(path, i)) by {
        assert forall|j: int| 1 <= j < i implies #[trigger] path[j] != '/' by {
            assert(path[j] == name[j - 1]);
        }
    }
    let k = choose|k: int| splits_at(path, k);
    lemma_split_unique(path, i, k);
    assert(path.subrange(1, i) =~= name);
    assert(path.subrange(i + 1, path.len() as int) =~= raw);
    assert(path.len() >= 2);
}

/// An accepted command keeps every field within bounds, changes only the
/// field it names, and raises the sequence number by exactly one; a refused
/// command changes nothing.
pub proof fn law_apply_is_atomic(s: ActuatorState, cmd: Command)
    requires
        s.in_bounds(),
        s.has_room(),
    ensures
        state_after(s, cmd).in_bounds(),
        applied(s, cmd) is Ok ==> state_after(s, cmd).sequence == s.sequence + 1,
        applied(s, cmd) is Err ==> state_after(s, cmd) == s,
        applied(s, cmd) matches Ok(next) ==> next == state_after(s, cmd),
        state_after(s, cmd).sequence >= s.sequence,
{
}

/// The decoder enforces the bounds that the model enforces: a command that
/// was decoded is never refused by the model.
pub proof fn law_decoded_is_accepted(name: Seq<char>, raw: Seq<char>)
    ensures
        decoded(name, raw) matches Ok(cmd) ==> rejection(cmd) is None,
{
}

/// Every integer from 0 to 100, however it is written, decodes on the speed
/// route and applies: the speed becomes that integer, the other fields stay,
/// and the sequence number rises by exactly one. The router answers 200,
/// echoes the parameter and hands on the new snapshot.
pub proof fn law_speed_in_range_applies(s: ActuatorState, raw: Seq<char>)
    requires
        s.has_room(),
        is_decimal(raw),
        0 <= decimal_value(raw) <= 100,
    ensures
        decoded(ROUTE_SPEED@, raw) == Ok::<Command, DecodeError>(
            Command::SetSpeed(decimal_value(raw) as i32),
        ),
        applied(s, Command::SetSpeed(decimal_value(raw) as i32)) matches Ok(next) && {
            &&& next.speed == decimal_value(raw)
            &&& next.steering == s.steering
            &&& next.headlight == s.headlight
            &&& next.sequence == s.sequence + 1
        },
        ({
            let o = outcome(s, Method::Get, route_path(ROUTE_SPEED@, raw));
            &&& o.reply.status == STATUS_OK
            &&& o.reply.body == raw
            &&& o.state.speed == decimal_value(raw)
            &&& o.state.sequence == s.sequence + 1
            &&& o.update == Some(o.state)
        }),
{
    lemma_route_names();
    lemma_route_path_parts(ROUTE_SPEED@, raw);
}

/// An integer outside 0 to 100 on the speed route is answered with 400, and
/// the state stays as it was.
pub proof fn law_speed_out_of_range_refused(s: ActuatorState, raw: Seq<char>)
    requires
        is_decimal(raw),
        !(0 <= decimal_value(raw) <= 100),
    ensures
        decoded(ROUTE_SPEED@, raw) == Err::<Command, DecodeError>(DecodeError::OutOfRange),
        ({
            let o = outcome(s, Method::Get, route_path(ROUTE_SPEED@, raw));
            &&& o.reply.status == STATUS_BAD_REQUEST
            &&& o.state == s
            &&& o.update is None
        }),
{
    lemma_route_names();
    lemma_route_path_parts(ROUTE_SPEED@, raw);
}

/// A parameter that writes no integer is answered with 400 on the speed
/// route, and the state stays as it was.
pub proof fn law_speed_not_a_number_refused(s: ActuatorState, raw: Seq<char>)
    requires
        !is_decimal(raw),
    ensures
        decoded(ROUTE_SPEED@, raw) == Err::<Command, DecodeError>(DecodeError::NotANumber),
        ({
            let o = outcome(s, Method::Get, route_path(ROUTE_SPEED@, raw));
            &&& o.reply.status == STATUS_BAD_REQUEST
            &&& o.state == s
            &&& o.update is None
        }),
{
    lemma_route_names();
    lemma_route_path_parts(ROUTE_SPEED@, raw);
}

/// A request whose answer is not 200 changes nothing, and one that changes
/// the state is answered with 200, raises the sequence number by exactly one
/// and hands on the new state.
pub proof fn law_request_is_atomic(s: ActuatorState, method: Method, path: Seq<char>)
    requires
        s.in_bounds(),
        s.has_room(),
    ensures
        ({
            let o = outcome(s, method, path);
            &&& o.state.in_bounds()
            &&& o.update is None ==> o.state == s
            &&& o.reply.status != STATUS_OK ==> o.update is None
            &&& o.update is Some ==> o.update == Some(o.state) && o.state.sequence == s.sequence
                + 1 && o.reply.status == STATUS_OK
        }),
{
}

/// A path whose action is none of the three routes is answered with 404,
/// whatever the method, the parameter and the state, and changes nothing.
/// The connection has no part in the answer.
pub proof fn law_unknown_action_not_found(
    s: ActuatorState,
    method: Method,
    name: Seq<char>,
    raw: Seq<char>,
)
    requires
        slash_free(name),
        route_named(name) is None,
    ensures
        ({
            let o = outcome(s, method, route_path(name, raw));
            &&& o.reply.status == STATUS_NOT_FOUND
            &&& o.state == s
            &&& o.update is None
        }),
{
    lemma_route_path_parts(name, raw);
}

/// A join that is never answered does not stay under way: once more than
/// the allowed time has passed since it started, any event that brings
/// neither a lease nor a rejection ends it in exactly `Failed(Timeout)`.
pub proof fn law_unanswered_join_times_out(
    policy: RetryPolicy,
    c: Connection,
    event: ConnectionEvent,
    now: u64,
)
    requires
        c.state matches ConnectionState::Connecting { started, .. } && elapsed(started, now)
            > policy.timeout,
        !brings_lease(event),
        event != ConnectionEvent::Rejected,
    ensures
        stepped(policy, c, event, now).0.state == (ConnectionState::Failed {
            reason: ConnectionError::Timeout,
        }),
        stepped(policy, c, event, now).1 == ConnectionAction::Abandon,
{
}

/// The attempts never exceed the policy's cap, and once the cap is spent the
/// connection stays failed for good, whatever happens.
pub proof fn law_retries_are_bounded(
    policy: RetryPolicy,
    c: Connection,
    event: ConnectionEvent,
    now: u64,
)
    requires
        c.consistent(policy),
    ensures
        stepped(policy, c, event, now).0.consistent(policy),
        stepped(policy, c, event, now).0.attempts >= c.attempts,
        c.halted() ==> stepped(policy, c, event, now) == (c, ConnectionAction::Halt),
        c.state is Failed && c.attempts >= policy.max_attempts ==> stepped(
            policy,
            c,
            event,
            now,
        ).0.halted(),
{
}

/// A request, as the router sees it.
pub struct Request {
    pub method: Method,
    pub path: Seq<char>,
}

/// The state after `requests` were handled one after another from `s` on.
pub open spec fn state_after_all(s: ActuatorState, requests: Seq<Request>) -> ActuatorState
    decreases requests.len(),
{
    if requests.len() == 0 {
        s
    } else {
        let before = state_after_all(s, requests.drop_last());
        outcome(before, requests.last().method, requests.last().path).state
    }
}

/// How many of `requests`, handled one after another from `s` on, changed
/// the state.
pub open spec fn accepted_among(s: ActuatorState, requests: Seq<Request>) -> nat
    decreases requests.len(),
{
    if requests.len() == 0 {
        0
    } else {
        let before = state_after_all(s, requests.drop_last());
        let earlier = accepted_among(s, requests.drop_last());
        if outcome(before, requests.last().method, requests.last().path).update is Some {
            earlier + 1
        } else {
            earlier
        }
    }
}

/// Requests handled one after another leave a state within bounds whose
/// sequence number has risen by exactly the number of requests that
/// changed the state.
pub proof fn law_sequence_counts_accepted(s: ActuatorState, requests: Seq<Request>)
    requires
        s.in_bounds(),
        s.sequence + requests.len() <= u64::MAX,
    ensures
        state_after_all(s, requests).in_bounds(),
        state_after_all(s, requests).sequence == s.sequence + accepted_among(s, requests),
        accepted_among(s, requests) <= requests.len(),
    decreases requests.len(),
{
    if requests.len() > 0 {
        law_sequence_counts_accepted(s, requests.drop_last());
        let before = state_after_all(s, requests.drop_last());
        law_request_is_atomic(before, requests.last().method, requests.last().path);
    }
}

} // verus!
