//! What becomes of a message while something is awaited: the answer to a
//! token, the reply to a request, or the end of a contract.

use vstd::prelude::*;

use crate::failure::Failure;
use crate::json::{
    body_of_text, has_key, has_text, json, json_of_text, json_text, read_message, Json, Message,
};

verus! {

/// The type of the messages that report on an open contract.
pub const OPEN_CONTRACT: &'static str = "proposal_open_contract";

/// How long the answer to a token is awaited, in seconds.
pub const AUTHORIZE_SECS: u64 = 10;

/// How long the end of a contract is awaited, in seconds.
pub const SETTLE_SECS: u64 = 90;

/// How long a silence lasts before it is reported, in milliseconds: while the
/// answer to a token is awaited,
pub const AUTHORIZE_POLL_MILLIS: u64 = 100;

/// while a reply is awaited,
pub const REPLY_POLL_MILLIS: u64 = 200;

/// and while a contract is running.
pub const SETTLE_POLL_MILLIS: u64 = 500;

/// What happened on the socket.
pub enum WireEvent {
    /// A message came, with this text.
    Text(String),
    /// A message came that has no text, for this reason.
    Unreadable(String),
    /// The socket failed, for this reason.
    Broken(String),
    /// The connection is closed.
    Closed,
    /// Nothing came for a while.
    Tick,
}

/// Whether more time has passed than was allowed.
pub open spec fn overdue(elapsed_nanos: u128, limit_secs: u64) -> bool {
    elapsed_nanos > limit_secs * 1_000_000_000
}

/// Whether more time has passed than was allowed.
pub fn is_overdue(elapsed_nanos: u128, limit_secs: u64) -> (r: bool)
    ensures
        r == overdue(elapsed_nanos, limit_secs),
{
    elapsed_nanos > limit_secs as u128 * 1_000_000_000
}

// Every event comes with the nanoseconds that have passed since the request
// was sent. A message that settles the matter is taken even when it is late;
// whatever else happens once the time is up ends the wait.

// ---------------------------------------------------------------------------
// The answer to a token
// ---------------------------------------------------------------------------

/// What to do while the answer to a token is awaited.
pub enum AuthorizeStep {
    Wait,
    Authorized,
    Fail(Failure),
}

/// An answer of the type `authorize` settles it; an error in any other
/// message is a refusal.
pub open spec fn authorize_verdict(message: Message) -> AuthorizeStep {
    if message.has_type("authorize"@) {
        AuthorizeStep::Authorized
    } else {
        match message.error {
            Some(error) => AuthorizeStep::Fail(Failure::Authorize(error)),
            None => AuthorizeStep::Wait,
        }
    }
}

/// What a message means while the answer to a token is awaited.
pub fn authorize_on_message(message: Message) -> (r: AuthorizeStep)
    ensures
        r == authorize_verdict(message),
{
    if message.is_of_type("authorize") {
        return AuthorizeStep::Authorized;
    }
    match message.error {
        Some(error) => AuthorizeStep::Fail(Failure::Authorize(error)),
        None => AuthorizeStep::Wait,
    }
}

/// What an event means while the answer to a token is awaited: `r` is the
/// step that follows.
pub open spec fn authorize_follows(
    event: WireEvent,
    elapsed_nanos: u128,
    r: AuthorizeStep,
) -> bool {
    match event {
        WireEvent::Text(text) => {
            let body = body_of_text(text@);
            if body.text_member("msg_type"@) == Some("authorize"@) {
                r is Authorized
            } else {
                match body.member("error"@) {
                    Some(error) => r matches AuthorizeStep::Fail(Failure::Authorize(report))
                        && report@ == json_text(error),
                    None => authorize_goes_on(elapsed_nanos, r),
                }
            }
        },
        WireEvent::Unreadable(error) => r == AuthorizeStep::Fail(Failure::Transport(error)),
        WireEvent::Broken(error) => r == AuthorizeStep::Fail(Failure::Transport(error)),
        WireEvent::Closed => r == AuthorizeStep::Fail(Failure::Closed),
        WireEvent::Tick => authorize_goes_on(elapsed_nanos, r),
    }
}

/// Nothing was decided: the wait goes on until the time is up.
pub open spec fn authorize_goes_on(elapsed_nanos: u128, r: AuthorizeStep) -> bool {
    if overdue(elapsed_nanos, AUTHORIZE_SECS) {
        r == AuthorizeStep::Fail(Failure::AuthorizeTimeout)
    } else {
        r is Wait
    }
}

/// What to do after an event while the answer to a token is awaited.
pub fn authorize_on_event(event: WireEvent, elapsed_nanos: u128) -> (r: AuthorizeStep)
    ensures
        authorize_follows(event, elapsed_nanos, r),
{
    let step = match event {
        WireEvent::Text(text) => authorize_on_message(read_message(text.as_str())),
        WireEvent::Unreadable(error) => AuthorizeStep::Fail(Failure::Transport(error)),
        WireEvent::Broken(error) => AuthorizeStep::Fail(Failure::Transport(error)),
        WireEvent::Closed => AuthorizeStep::Fail(Failure::Closed),
        WireEvent::Tick => AuthorizeStep::Wait,
    };
    match step {
        AuthorizeStep::Wait if is_overdue(elapsed_nanos, AUTHORIZE_SECS) => AuthorizeStep::Fail(
            Failure::AuthorizeTimeout,
        ),
        step => step,
    }
}

// ---------------------------------------------------------------------------
// The reply to a request
// ---------------------------------------------------------------------------

/// What to do while a reply is awaited.
pub enum ReplyStep {
    Wait,
    /// Keep waiting; this update on a contract came in between.
    Update(serde_json::Value),
    /// The awaited reply.
    Reply(serde_json::Value),
    /// The wait is over. The message that ended it is passed on where it is an
    /// update on a contract.
    Fail { failure: Failure, update: Option<serde_json::Value> },
}

/// A message of the awaited type is the reply, whatever it holds; an error in
/// any other message ends the wait.
pub open spec fn reply_verdict(expect: Seq<char>, message: Message) -> ReplyStep {
    let update = if message.has_type(OPEN_CONTRACT@) {
        Some(message.body)
    } else {
        None
    };
    if message.has_type(expect) {
        ReplyStep::Reply(message.body)
    } else {
        match (message.error, update) {
            (Some(error), _) => ReplyStep::Fail { failure: Failure::Api(error), update },
            (None, Some(update)) => ReplyStep::Update(update),
            (None, None) => ReplyStep::Wait,
        }
    }
}

/// What a message means while a reply of the type `expect` is awaited.
pub fn reply_on_message(expect: &str, message: Message) -> (r: ReplyStep)
    ensures
        r == reply_verdict(expect@, message),
{
    if message.is_of_type(expect) {
        return ReplyStep::Reply(message.body);
    }
    let update = if message.is_of_type(OPEN_CONTRACT) {
        Some(message.body)
    } else {
        None
    };
    match message.error {
        Some(error) => ReplyStep::Fail { failure: Failure::Api(error), update },
        None => match update {
            Some(update) => ReplyStep::Update(update),
            None => ReplyStep::Wait,
        },
    }
}

/// `update` is the message with this body where that is an update on a
/// contract, and nothing otherwise.
pub open spec fn is_update_of(body: Json, update: Option<serde_json::Value>) -> bool {
    if body.text_member("msg_type"@) == Some(OPEN_CONTRACT@) {
        update matches Some(value) && json(value) == body
    } else {
        update is None
    }
}

/// What an event means while a reply of the type `expect` is awaited for at
/// most `timeout_secs`: `r` is the step that follows.
pub open spec fn reply_follows(
    expect: Seq<char>,
    timeout_secs: u64,
    event: WireEvent,
    elapsed_nanos: u128,
    r: ReplyStep,
) -> bool {
    match event {
        WireEvent::Text(text) => {
            let body = body_of_text(text@);
            if body.text_member("msg_type"@) == Some(expect) {
                r matches ReplyStep::Reply(value) && json(value) == body
            } else {
                match body.member("error"@) {
                    Some(error) => {
                        &&& r matches ReplyStep::Fail { failure: Failure::Api(report), update }
                        &&& report@ == json_text(error)
                        &&& is_update_of(body, update)
                    },
                    None => if overdue(elapsed_nanos, timeout_secs) {
                        &&& r matches ReplyStep::Fail {
                            failure: Failure::ReplyTimeout(msg_type),
                            update,
                        }
                        &&& msg_type@ == expect
                        &&& is_update_of(body, update)
                    } else if body.text_member("msg_type"@) == Some(OPEN_CONTRACT@) {
                        r matches ReplyStep::Update(value) && json(value) == body
                    } else {
                        r is Wait
                    },
                }
            }
        },
        WireEvent::Unreadable(error) => r == (ReplyStep::Fail {
            failure: Failure::Transport(error),
            update: None,
        }),
        WireEvent::Broken(error) => r == (ReplyStep::Fail {
            failure: Failure::WebSocket(error),
            update: None,
        }),
        WireEvent::Closed => r == (ReplyStep::Fail { failure: Failure::Closed, update: None }),
        WireEvent::Tick => if overdue(elapsed_nanos, timeout_secs) {
            &&& r matches ReplyStep::Fail { failure: Failure::ReplyTimeout(msg_type), update }
            &&& msg_type@ == expect
            &&& update is None
        } else {
            r is Wait
        },
    }
}

/// What to do after an event while a reply is awaited.
pub fn reply_on_event(
    expect: &str,
    timeout_secs: u64,
    event: WireEvent,
    elapsed_nanos: u128,
) -> (r: ReplyStep)
    ensures
        reply_follows(expect@, timeout_secs, event, elapsed_nanos, r),
{
    let step = match event {
        WireEvent::Text(text) => reply_on_message(expect, read_message(text.as_str())),
        WireEvent::Unreadable(error) => ReplyStep::Fail {
            failure: Failure::Transport(error),
            update: None,
        },
        WireEvent::Broken(error) => ReplyStep::Fail {
            failure: Failure::WebSocket(error),
            update: None,
        },
        WireEvent::Closed => ReplyStep::Fail { failure: Failure::Closed, update: None },
        WireEvent::Tick => ReplyStep::Wait,
    };
    if !is_overdue(elapsed_nanos, timeout_secs) {
        return step;
    }
    match step {
        ReplyStep::Wait => ReplyStep::Fail {
            failure: Failure::ReplyTimeout(expect.to_owned()),
            update: None,
        },
        ReplyStep::Update(value) => ReplyStep::Fail {
            failure: Failure::ReplyTimeout(expect.to_owned()),
            update: Some(value),
        },
        step => step,
    }
}

// ---------------------------------------------------------------------------
// The end of a contract
// ---------------------------------------------------------------------------

/// What to do while a contract is running.
pub enum ContractStep {
    Wait,
    /// An update on a contract.
    Update(serde_json::Value),
    Fail(Failure),
}

/// An update on a contract is looked into, whatever it holds; an error in any
/// other message ends the wait.
pub open spec fn contract_verdict(message: Message) -> ContractStep {
    if message.has_type(OPEN_CONTRACT@) {
        ContractStep::Update(message.body)
    } else {
        match message.error {
            Some(error) => ContractStep::Fail(Failure::Poc(error)),
            None => ContractStep::Wait,
        }
    }
}

/// What a message means while a contract is running.
pub fn contract_on_message(message: Message) -> (r: ContractStep)
    ensures
        r == contract_verdict(message),
{
    if message.is_of_type(OPEN_CONTRACT) {
        return ContractStep::Update(message.body);
    }
    match message.error {
        Some(error) => ContractStep::Fail(Failure::Poc(error)),
        None => ContractStep::Wait,
    }
}

/// What an event means while a contract is running: `r` is the step that
/// follows.
pub open spec fn contract_follows(event: WireEvent, elapsed_nanos: u128, r: ContractStep) -> bool {
    match event {
        WireEvent::Text(text) => {
            let body = body_of_text(text@);
            if body.text_member("msg_type"@) == Some(OPEN_CONTRACT@) {
                r matches ContractStep::Update(value) && json(value) == body
            } else {
                match body.member("error"@) {
                    Some(error) => r matches ContractStep::Fail(Failure::Poc(report)) && report@
                        == json_text(error),
                    None => contract_goes_on(elapsed_nanos, r),
                }
            }
        },
        WireEvent::Unreadable(error) => r == ContractStep::Fail(Failure::Transport(error)),
        WireEvent::Broken(error) => r == ContractStep::Fail(Failure::WebSocket(error)),
        WireEvent::Closed => r == ContractStep::Fail(Failure::ClosedDuringContract),
        WireEvent::Tick => contract_goes_on(elapsed_nanos, r),
    }
}

/// Nothing was decided: the wait goes on until the time is up.
pub open spec fn contract_goes_on(elapsed_nanos: u128, r: ContractStep) -> bool {
    if overdue(elapsed_nanos, SETTLE_SECS) {
        r == ContractStep::Fail(Failure::SettleTimeout)
    } else {
        r is Wait
    }
}

/// What to do after an event while a contract is running.
pub fn contract_on_event(event: WireEvent, elapsed_nanos: u128) -> (r: ContractStep)
    ensures
        contract_follows(event, elapsed_nanos, r),
{
    let step = match event {
        WireEvent::Text(text) => contract_on_message(read_message(text.as_str())),
        WireEvent::Unreadable(error) => ContractStep::Fail(Failure::Transport(error)),
        WireEvent::Broken(error) => ContractStep::Fail(Failure::WebSocket(error)),
        WireEvent::Closed => ContractStep::Fail(Failure::ClosedDuringContract),
        WireEvent::Tick => ContractStep::Wait,
    };
    match step {
        ContractStep::Wait if is_overdue(elapsed_nanos, SETTLE_SECS) => ContractStep::Fail(
            Failure::SettleTimeout,
        ),
        step => step,
    }
}

// ---------------------------------------------------------------------------
// What holds of all three
// ---------------------------------------------------------------------------

/// The reply that is awaited, and an update on a contract that is running, are
/// taken even when they report an error.
pub proof fn law_awaited_type_comes_before_error(expect: Seq<char>, message: Message)
    ensures
        message.has_type(expect) ==> reply_verdict(expect, message) == ReplyStep::Reply(
            message.body,
        ),
        message.has_type(OPEN_CONTRACT@) ==> contract_verdict(message) == ContractStep::Update(
            message.body,
        ),
{
}

/// An error in a message of any other type is never passed over.
pub proof fn law_error_of_another_type_fails(expect: Seq<char>, message: Message)
    requires
        message.error is Some,
    ensures
        !message.has_type("authorize"@) ==> authorize_verdict(message) == AuthorizeStep::Fail(
            Failure::Authorize(message.error->0),
        ),
        !message.has_type(expect) ==> (reply_verdict(expect, message) matches ReplyStep::Fail {
            failure,
            ..
        } && failure == Failure::Api(message.error->0)),
        !message.has_type(OPEN_CONTRACT@) ==> contract_verdict(message) == ContractStep::Fail(
            Failure::Poc(message.error->0),
        ),
{
}

/// Before the time is up, a message of another type that reports no error is
/// passed over; while a reply is awaited, an update on a contract is passed on.
pub proof fn law_other_messages_are_passed_over(
    text: String,
    expect: Seq<char>,
    timeout_secs: u64,
    elapsed_nanos: u128,
)
    requires
        body_of_text(text@).member("error"@) is None,
    ensures
        ({
            let event = WireEvent::Text(text);
            let msg_type = body_of_text(text@).text_member("msg_type"@);
            &&& msg_type != Some("authorize"@) && !overdue(elapsed_nanos, AUTHORIZE_SECS)
                ==> forall|r: AuthorizeStep| #[trigger]
                authorize_follows(event, elapsed_nanos, r) ==> r is Wait
            &&& msg_type != Some(expect) && !overdue(elapsed_nanos, timeout_secs) ==> forall|
                r: ReplyStep,
            | #[trigger]
                reply_follows(expect, timeout_secs, event, elapsed_nanos, r) ==> if msg_type
                    == Some(OPEN_CONTRACT@) {
                    r is Update
                } else {
                    r is Wait
                }
            &&& msg_type != Some(OPEN_CONTRACT@) && !overdue(elapsed_nanos, SETTLE_SECS)
                ==> forall|r: ContractStep| #[trigger]
                contract_follows(event, elapsed_nanos, r) ==> r is Wait
        }),
{
}

/// Before the time is up, a text that is no JSON is passed over.
pub proof fn law_garbage_is_passed_over(
    text: String,
    expect: Seq<char>,
    timeout_secs: u64,
    elapsed_nanos: u128,
)
    requires
        json_of_text(text@) is None,
    ensures
        ({
            let event = WireEvent::Text(text);
            &&& !overdue(elapsed_nanos, AUTHORIZE_SECS) ==> forall|r: AuthorizeStep| #[trigger]
                authorize_follows(event, elapsed_nanos, r) ==> r is Wait
            &&& !overdue(elapsed_nanos, timeout_secs) ==> forall|r: ReplyStep| #[trigger]
                reply_follows(expect, timeout_secs, event, elapsed_nanos, r) ==> r is Wait
            &&& !overdue(elapsed_nanos, SETTLE_SECS) ==> forall|r: ContractStep| #[trigger]
                contract_follows(event, elapsed_nanos, r) ==> r is Wait
        }),
{
    law_other_messages_are_passed_over(text, expect, timeout_secs, elapsed_nanos);
}

/// The waits for the answer to a token and for a reply are bounded, whatever
/// the socket does: once the time is up, the next event ends them. So it is
/// while a contract is running, but that an update is looked into first.
pub proof fn law_waits_are_bounded(
    expect: Seq<char>,
    timeout_secs: u64,
    event: WireEvent,
    elapsed_nanos: u128,
)
    ensures
        overdue(elapsed_nanos, AUTHORIZE_SECS) ==> forall|r: AuthorizeStep| #[trigger]
            authorize_follows(event, elapsed_nanos, r) ==> r is Authorized || r is Fail,
        overdue(elapsed_nanos, timeout_secs) ==> forall|r: ReplyStep| #[trigger]
            reply_follows(expect, timeout_secs, event, elapsed_nanos, r) ==> r is Reply
                || r is Fail,
        overdue(elapsed_nanos, SETTLE_SECS) ==> forall|r: ContractStep| #[trigger]
            contract_follows(event, elapsed_nanos, r) ==> r is Update || r is Fail,
{
}

/// A closed connection ends every wait at once.
pub proof fn law_closed_connection_ends_wait(
    expect: Seq<char>,
    timeout_secs: u64,
    elapsed_nanos: u128,
)
    ensures
        forall|r: AuthorizeStep| #[trigger]
            authorize_follows(WireEvent::Closed, elapsed_nanos, r) ==> r is Fail,
        forall|r: ReplyStep| #[trigger]
            reply_follows(expect, timeout_secs, WireEvent::Closed, elapsed_nanos, r) ==> r is Fail,
        forall|r: ContractStep| #[trigger]
            contract_follows(WireEvent::Closed, elapsed_nanos, r) ==> r is Fail,
{
}

/// Silence ends a wait exactly when more time has passed than was allowed: it
/// does so at every later moment too.
pub proof fn law_silence_ends_wait_once_overdue(
    expect: Seq<char>,
    timeout_secs: u64,
    elapsed_nanos: u128,
    later: u128,
)
    requires
        elapsed_nanos <= later,
    ensures
        overdue(elapsed_nanos, timeout_secs) ==> overdue(later, timeout_secs),
        forall|r: AuthorizeStep| #[trigger]
            authorize_follows(WireEvent::Tick, elapsed_nanos, r) ==> (r is Fail <==> overdue(
                elapsed_nanos,
                AUTHORIZE_SECS,
            )),
        forall|r: ReplyStep| #[trigger]
            reply_follows(expect, timeout_secs, WireEvent::Tick, elapsed_nanos, r) ==> (r is Fail
                <==> overdue(elapsed_nanos, timeout_secs)),
        forall|r: ContractStep| #[trigger]
            contract_follows(WireEvent::Tick, elapsed_nanos, r) ==> (r is Fail <==> overdue(
                elapsed_nanos,
                SETTLE_SECS,
            )),
{
}

/// What a message that parses to `value` means while a reply is awaited,
/// whatever other members it has. The reply is every message of the awaited
/// type and nothing else, at any time, and it is handed on as it came. Any
/// other message that holds an error ends the wait with that error. The rest
/// is passed over while there is time, and a timeout after that. An update on
/// a contract is passed on in every case.
pub proof fn law_reply_by_type(
    expect: Seq<char>,
    timeout_secs: u64,
    text: String,
    value: Json,
    elapsed_nanos: u128,
    r: ReplyStep,
)
    requires
        json_of_text(text@) == Some(value),
        reply_follows(expect, timeout_secs, WireEvent::Text(text), elapsed_nanos, r),
    ensures
        ({
            let awaited = has_text(value, "msg_type"@, expect);
            let is_update = has_text(value, "msg_type"@, "proposal_open_contract"@);
            let has_error = has_key(value, "error"@);
            let in_time = elapsed_nanos <= timeout_secs * 1_000_000_000;
            &&& match r {
                ReplyStep::Reply(reply) => awaited && json(reply) == value,
                ReplyStep::Update(update) => !awaited && !has_error && in_time && is_update && json(
                    update,
                ) == value,
                ReplyStep::Wait => !awaited && !has_error && in_time && !is_update,
                ReplyStep::Fail { failure, update } => {
                    &&& !awaited
                    &&& is_update <==> update is Some
                    &&& update is Some ==> json(update->0) == value
                    &&& match failure {
                        Failure::Api(report) => has_error && report@ == json_text(
                            value->Object_0["error"@],
                        ),
                        Failure::ReplyTimeout(msg_type) => !has_error && !in_time && msg_type@
                            == expect,
                        _ => false,
                    }
                },
            }
        }),
{
}

/// What a message that parses to `value` means while the answer to a token is
/// awaited: every message of the type `authorize` is the answer, any other
/// that holds an error is a refusal, and the rest is passed over for ten
/// seconds.
pub proof fn law_authorized_by_type(
    text: String,
    value: Json,
    elapsed_nanos: u128,
    r: AuthorizeStep,
)
    requires
        json_of_text(text@) == Some(value),
        authorize_follows(WireEvent::Text(text), elapsed_nanos, r),
    ensures
        ({
            let answer = has_text(value, "msg_type"@, "authorize"@);
            let has_error = has_key(value, "error"@);
            let in_time = elapsed_nanos <= 10_000_000_000;
            match r {
                AuthorizeStep::Authorized => answer,
                AuthorizeStep::Wait => !answer && !has_error && in_time,
                AuthorizeStep::Fail(Failure::Authorize(report)) => !answer && has_error && report@
                    == json_text(value->Object_0["error"@]),
                AuthorizeStep::Fail(Failure::AuthorizeTimeout) => !answer && !has_error && !in_time,
                AuthorizeStep::Fail(_) => false,
            }
        }),
{
}

/// What a message that parses to `value` means while a contract is running:
/// every update on a contract is looked into, as it came, any other message
/// that holds an error is a failure, and the rest is passed over for ninety
/// seconds.
pub proof fn law_updated_by_type(text: String, value: Json, elapsed_nanos: u128, r: ContractStep)
    requires
        json_of_text(text@) == Some(value),
        contract_follows(WireEvent::Text(text), elapsed_nanos, r),
    ensures
        ({
            let is_update = has_text(value, "msg_type"@, "proposal_open_contract"@);
            let has_error = has_key(value, "error"@);
            let in_time = elapsed_nanos <= 90_000_000_000;
            match r {
                ContractStep::Update(update) => is_update && json(update) == value,
                ContractStep::Wait => !is_update && !has_error && in_time,
                ContractStep::Fail(Failure::Poc(report)) => !is_update && has_error && report@
                    == json_text(value->Object_0["error"@]),
                ContractStep::Fail(Failure::SettleTimeout) => !is_update && !has_error && !in_time,
                ContractStep::Fail(_) => false,
            }
        }),
{
}

/// A text that does not parse, and silence, are waited out, and are a timeout
/// once the time is up.
pub proof fn law_nothing_said_is_waited_out(
    expect: Seq<char>,
    timeout_secs: u64,
    event: WireEvent,
    elapsed_nanos: u128,
)
    requires
        event is Tick || (event matches WireEvent::Text(text) && json_of_text(text@) is None),
    ensures
        forall|r: AuthorizeStep| #[trigger]
            authorize_follows(event, elapsed_nanos, r) ==> if elapsed_nanos <= 10_000_000_000 {
                r is Wait
            } else {
                r == AuthorizeStep::Fail(Failure::AuthorizeTimeout)
            },
        forall|r: ReplyStep| #[trigger]
            reply_follows(expect, timeout_secs, event, elapsed_nanos, r) ==> if elapsed_nanos
                <= timeout_secs * 1_000_000_000 {
                r is Wait
            } else {
                r matches ReplyStep::Fail { failure: Failure::ReplyTimeout(msg_type), update }
                    && msg_type@ == expect && update is None
            },
        forall|r: ContractStep| #[trigger]
            contract_follows(event, elapsed_nanos, r) ==> if elapsed_nanos <= 90_000_000_000 {
                r is Wait
            } else {
                r == ContractStep::Fail(Failure::SettleTimeout)
            },
{
}

/// A socket that fails ends every wait, at any time, with its own reason; a
/// closed one ends it as closed.
pub proof fn law_socket_failure_is_reported(
    expect: Seq<char>,
    timeout_secs: u64,
    reason: String,
    elapsed_nanos: u128,
)
    ensures
        forall|r: AuthorizeStep| #[trigger]
            authorize_follows(WireEvent::Broken(reason), elapsed_nanos, r) ==> r
                == AuthorizeStep::Fail(Failure::Transport(reason)),
        forall|r: AuthorizeStep| #[trigger]
            authorize_follows(WireEvent::Unreadable(reason), elapsed_nanos, r) ==> r
                == AuthorizeStep::Fail(Failure::Transport(reason)),
        forall|r: AuthorizeStep| #[trigger]
            authorize_follows(WireEvent::Closed, elapsed_nanos, r) ==> r == AuthorizeStep::Fail(
                Failure::Closed,
            ),
        forall|r: ReplyStep| #[trigger]
            reply_follows(expect, timeout_secs, WireEvent::Broken(reason), elapsed_nanos, r) ==> r
                == (ReplyStep::Fail { failure: Failure::WebSocket(reason), update: None }),
        forall|r: ReplyStep| #[trigger]
            reply_follows(expect, timeout_secs, WireEvent::Unreadable(reason), elapsed_nanos, r)
                ==> r == (ReplyStep::Fail { failure: Failure::Transport(reason), update: None }),
        forall|r: ReplyStep| #[trigger]
            reply_follows(expect, timeout_secs, WireEvent::Closed, elapsed_nanos, r) ==> r == (
            ReplyStep::Fail { failure: Failure::Closed, update: None }),
        forall|r: ContractStep| #[trigger]
            contract_follows(WireEvent::Broken(reason), elapsed_nanos, r) ==> r
                == ContractStep::Fail(Failure::WebSocket(reason)),
        forall|r: ContractStep| #[trigger]
            contract_follows(WireEvent::Unreadable(reason), elapsed_nanos, r) ==> r
                == ContractStep::Fail(Failure::Transport(reason)),
        forall|r: ContractStep| #[trigger]
            contract_follows(WireEvent::Closed, elapsed_nanos, r) ==> r == ContractStep::Fail(
                Failure::ClosedDuringContract,
            ),
{
}

/// What is made of a message rests on its type and its error: by the type that
/// it names, to the letter, and by nothing that its body holds besides.
pub proof fn law_verdicts_by_type_and_error(expect: Seq<char>, message: Message)
    ensures
        ({
            let is_of = |t: Seq<char>| message.msg_type is Some && message.msg_type->0@ == t;
            let is_update = is_of("proposal_open_contract"@);
            &&& match authorize_verdict(message) {
                AuthorizeStep::Authorized => is_of("authorize"@),
                AuthorizeStep::Wait => !is_of("authorize"@) && message.error is None,
                AuthorizeStep::Fail(failure) => !is_of("authorize"@) && message.error is Some
                    && failure == Failure::Authorize(message.error->0),
            }
            &&& match reply_verdict(expect, message) {
                ReplyStep::Reply(value) => is_of(expect) && value == message.body,
                ReplyStep::Update(value) => !is_of(expect) && message.error is None && is_update
                    && value == message.body,
                ReplyStep::Wait => !is_of(expect) && message.error is None && !is_update,
                ReplyStep::Fail { failure, update } => {
                    &&& !is_of(expect) && message.error is Some
                    &&& failure == Failure::Api(message.error->0)
                    &&& is_update ==> update == Some(message.body)
                    &&& !is_update ==> update is None
                },
            }
            &&& match contract_verdict(message) {
                ContractStep::Update(value) => is_update && value == message.body,
                ContractStep::Wait => !is_update && message.error is None,
                ContractStep::Fail(failure) => !is_update && message.error is Some && failure
                    == Failure::Poc(message.error->0),
            }
        }),
{
}

/// The times: ten seconds for a token and ninety for a contract of one minute;
/// silence is reported every tenth, every fifth and every half of a second.
pub proof fn law_times()
    ensures
        AUTHORIZE_SECS == 10,
        SETTLE_SECS == 90,
        AUTHORIZE_POLL_MILLIS == 100,
        REPLY_POLL_MILLIS == 200,
        SETTLE_POLL_MILLIS == 500,
{
}

/// Time is up once more has passed than the limit, to the nanosecond.
pub proof fn law_time_is_up(elapsed_nanos: u128, limit_secs: u64)
    ensures
        overdue(elapsed_nanos, limit_secs) <==> elapsed_nanos > limit_secs * 1_000_000_000,
{
}

} // verus!
