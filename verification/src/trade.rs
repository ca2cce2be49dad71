//! One trade, from the request for a proposal to the end of the contract.

use vstd::prelude::*;

use crate::client::WsClient;
use crate::failure::Failure;
use crate::json::{has_key, has_text, json, json_of_text, json_text, Json};
use crate::listen::{
    contract_follows, contract_on_event, is_overdue, overdue, reply_follows, reply_on_event,
    ContractStep, ReplyStep, WireEvent, REPLY_POLL_MILLIS, SETTLE_POLL_MILLIS, SETTLE_SECS,
};
use crate::price::Price;
use crate::request::{
    buy_json, buy_request, lemma_keys, proposal_json, proposal_request, subscribe_json,
    subscribe_request, tagged, tagged_request, Direction,
};
use crate::response::{BuyResponse, PocResp, ProposalResp, Settlement};

verus! {

/// How long the reply to a request is awaited, in seconds.
pub const REPLY_SECS: u64 = 20;

/// How far a trade has come.
pub enum Stage {
    /// A proposal was asked for.
    Proposing,
    /// A proposal came, and the most to pay for it is being worked out.
    Quoting { proposal_id: String },
    /// The proposal is being bought.
    Buying,
    /// The contract is running.
    Settling { contract_id: u64, buy_price: Price },
    /// The trade is over.
    Over,
}

/// A trade under way.
pub struct Trade {
    /// The amount staked.
    pub stake: Price,
    pub stage: Stage,
}

/// What a trade is told.
pub enum Event {
    /// The text was sent.
    Sent,
    /// The text could not be sent, for this reason.
    SendFailed(String),
    /// Something happened on the socket, so many nanoseconds after the latest
    /// text was sent.
    Wire { event: WireEvent, elapsed_nanos: u128 },
    /// The value handed over is not of the shape asked for.
    Undecodable(String),
    /// The value handed over is this reply to the request for a proposal.
    Proposal(ProposalResp),
    /// The most to pay, as a JSON number.
    MaxPrice(serde_json::Value),
    /// The value handed over is this reply to the purchase.
    Purchase(BuyResponse),
    /// The value handed over is this update on a contract; so many nanoseconds
    /// have passed since the latest text was sent.
    Contract { update: PocResp, elapsed_nanos: u128 },
}

/// What a trade asks for.
pub enum Command {
    /// Send the text.
    Send(String),
    /// Wait for the socket, for at most so many milliseconds. An update on a
    /// contract that came in between is passed on for the log.
    Listen { poll_millis: u64, update: Option<serde_json::Value> },
    /// Decode the reply to the request for a proposal.
    ReadProposal(serde_json::Value),
    /// Work out the most to pay for what is offered at this price.
    Quote(Price),
    /// Decode the reply to the purchase.
    ReadPurchase(serde_json::Value),
    /// Decode an update on a contract.
    ReadContract(serde_json::Value),
    /// The trade is over: the contract ended like this.
    Finish(Settlement),
    /// The trade is over: it failed. An update on a contract that came with
    /// the failure is passed on for the log.
    Abort { failure: Failure, update: Option<serde_json::Value> },
    /// The event is not one that the trade is waiting for.
    Unexpected,
}

/// The command to wait for a reply.
pub open spec fn listen_for_reply(update: Option<serde_json::Value>) -> Command {
    Command::Listen { poll_millis: REPLY_POLL_MILLIS, update }
}

/// The command to wait for the end of a contract.
pub open spec fn listen_for_end() -> Command {
    Command::Listen { poll_millis: SETTLE_POLL_MILLIS, update: None }
}

/// A trade is opened: the trade, the latest request id of the connection after
/// it, and the command.
pub open spec fn opens(
    req_id: u64,
    direction: Direction,
    stake: Price,
    amount: Json,
    currency: Seq<char>,
    trade: Trade,
    req_id_after: u64,
    command: Command,
) -> bool {
    &&& req_id_after == req_id + 1
    &&& trade == (Trade { stake, stage: Stage::Proposing })
    &&& command matches Command::Send(text) && text@ == json_text(
        tagged(proposal_json(direction, amount, currency), req_id_after),
    )
}

impl Trade {
    /// The trade at another stage.
    pub open spec fn at(self, stage: Stage) -> Trade {
        Trade { stage, ..self }
    }

    /// A failure ends the trade.
    pub open spec fn aborted(self, failure: Failure, after: Trade, command: Command) -> bool {
        after == self.at(Stage::Over) && command == (Command::Abort { failure, update: None })
    }

    /// What follows when a reply is awaited and something happens on the
    /// socket.
    pub open spec fn reply_step(
        self,
        expect: Seq<char>,
        event: WireEvent,
        elapsed_nanos: u128,
        after: Trade,
        command: Command,
    ) -> bool {
        exists|step: ReplyStep| #[trigger]
            reply_follows(expect, REPLY_SECS, event, elapsed_nanos, step) && match step {
                ReplyStep::Wait => after == self && command == listen_for_reply(None),
                ReplyStep::Update(value) => after == self && command == listen_for_reply(
                    Some(value),
                ),
                ReplyStep::Reply(value) => after == self && command == if self.stage is Proposing {
                    Command::ReadProposal(value)
                } else {
                    Command::ReadPurchase(value)
                },
                ReplyStep::Fail { failure, update } => after == self.at(Stage::Over) && command
                    == (Command::Abort { failure, update }),
            }
    }

    /// What follows when a contract is running and something happens on the
    /// socket.
    pub open spec fn contract_step(
        self,
        event: WireEvent,
        elapsed_nanos: u128,
        after: Trade,
        command: Command,
    ) -> bool {
        exists|step: ContractStep| #[trigger]
            contract_follows(event, elapsed_nanos, step) && match step {
                ContractStep::Wait => after == self && command == listen_for_end(),
                ContractStep::Update(value) => after == self && command == Command::ReadContract(
                    value,
                ),
                ContractStep::Fail(failure) => self.aborted(failure, after, command),
            }
    }

    /// What follows when an event reaches the trade: the trade `after` it, the
    /// latest request id of the connection after it, and the command.
    pub open spec fn follows(
        self,
        req_id: u64,
        event: Event,
        after: Trade,
        req_id_after: u64,
        command: Command,
    ) -> bool {
        match (self.stage, event) {
            (Stage::Quoting { proposal_id }, Event::MaxPrice(price)) => {
                &&& after == self.at(Stage::Buying)
                &&& req_id_after == req_id + 1
                &&& command matches Command::Send(text) && text@ == json_text(
                    tagged(buy_json(proposal_id@, json(price)), req_id_after),
                )
            },
            (stage, event) => {
                &&& req_id_after == req_id
                &&& match (stage, event) {
                    (Stage::Proposing | Stage::Buying, Event::Sent) => after == self && command
                        == listen_for_reply(None),
                    (Stage::Settling { .. }, Event::Sent) => after == self && command
                        == listen_for_end(),
                    (
                        Stage::Proposing | Stage::Buying | Stage::Settling { .. },
                        Event::SendFailed(error),
                    ) => self.aborted(Failure::Transport(error), after, command),
                    (
                        Stage::Proposing | Stage::Buying | Stage::Settling { .. },
                        Event::Undecodable(error),
                    ) => self.aborted(Failure::Undecodable(error), after, command),
                    (Stage::Proposing, Event::Wire { event, elapsed_nanos }) => self.reply_step(
                        "proposal"@,
                        event,
                        elapsed_nanos,
                        after,
                        command,
                    ),
                    (Stage::Buying, Event::Wire { event, elapsed_nanos }) => self.reply_step(
                        "buy"@,
                        event,
                        elapsed_nanos,
                        after,
                        command,
                    ),
                    (Stage::Settling { .. }, Event::Wire { event, elapsed_nanos }) => self.contract_step(
                        event,
                        elapsed_nanos,
                        after,
                        command,
                    ),
                    (Stage::Proposing, Event::Proposal(reply)) => match reply.spec_terms(
                        self.stake,
                    ) {
                        Ok((proposal_id, ask_price)) => after == self.at(
                            Stage::Quoting { proposal_id },
                        ) && command == Command::Quote(ask_price),
                        Err(failure) => self.aborted(failure, after, command),
                    },
                    (Stage::Buying, Event::Purchase(reply)) => match reply.spec_purchase() {
                        Ok((contract_id, buy_price)) => {
                            &&& after == self.at(Stage::Settling { contract_id, buy_price })
                            &&& command matches Command::Send(text) && text@ == json_text(
                                subscribe_json(contract_id),
                            )
                        },
                        Err(failure) => self.aborted(failure, after, command),
                    },
                    (
                        Stage::Settling { contract_id, buy_price },
                        Event::Contract { update, elapsed_nanos },
                    ) => match update.spec_settlement(contract_id, buy_price) {
                        Some(settlement) => after == self.at(Stage::Over) && command
                            == Command::Finish(settlement),
                        None => if overdue(elapsed_nanos, SETTLE_SECS) {
                            self.aborted(Failure::SettleTimeout, after, command)
                        } else {
                            after == self && command == listen_for_end()
                        },
                    },
                    _ => after == self && command is Unexpected,
                }
            },
        }
    }

    /// Opens a trade: asks for a proposal in the given direction. `amount` is
    /// the stake as a JSON number.
    pub fn open(
        client: &mut WsClient,
        direction: Direction,
        stake: Price,
        amount: serde_json::Value,
        currency: &str,
    ) -> (r: (Trade, Command))
        requires
            old(client).req_id < u64::MAX,
        ensures
            *final(client) == (WsClient {
                req_id: (old(client).req_id + 1) as u64,
                ..*old(client)
            }),
            opens(
                old(client).req_id,
                direction,
                stake,
                json(amount),
                currency@,
                r.0,
                final(client).req_id,
                r.1,
            ),
            r.0 == (Trade { stake, stage: Stage::Proposing }),
            r.1 matches Command::Send(text) && text@ == json_text(
                tagged(proposal_json(direction, json(amount), currency@), final(client).req_id),
            ),
    {
        let text = tagged_request(client, proposal_request(direction, amount, currency));
        (Trade { stake, stage: Stage::Proposing }, Command::Send(text))
    }

    fn abort(self, failure: Failure) -> (r: (Trade, Command))
        ensures
            self.aborted(failure, r.0, r.1),
    {
        (
            Trade { stake: self.stake, stage: Stage::Over },
            Command::Abort { failure, update: None },
        )
    }

    fn await_reply(self, expect: &str, event: WireEvent, elapsed_nanos: u128) -> (r: (
        Trade,
        Command,
    ))
        requires
            self.stage is Proposing || self.stage is Buying,
        ensures
            self.reply_step(expect@, event, elapsed_nanos, r.0, r.1),
    {
        match reply_on_event(expect, REPLY_SECS, event, elapsed_nanos) {
            ReplyStep::Wait => (
                self,
                Command::Listen { poll_millis: REPLY_POLL_MILLIS, update: None },
            ),
            ReplyStep::Update(value) => (
                self,
                Command::Listen { poll_millis: REPLY_POLL_MILLIS, update: Some(value) },
            ),
            ReplyStep::Reply(value) => match self.stage {
                Stage::Proposing => (self, Command::ReadProposal(value)),
                _ => (self, Command::ReadPurchase(value)),
            },
            ReplyStep::Fail { failure, update } => (
                Trade { stake: self.stake, stage: Stage::Over },
                Command::Abort { failure, update },
            ),
        }
    }

    fn await_end(self, event: WireEvent, elapsed_nanos: u128) -> (r: (Trade, Command))
        ensures
            self.contract_step(event, elapsed_nanos, r.0, r.1),
    {
        match contract_on_event(event, elapsed_nanos) {
            ContractStep::Wait => (
                self,
                Command::Listen { poll_millis: SETTLE_POLL_MILLIS, update: None },
            ),
            ContractStep::Update(value) => (self, Command::ReadContract(value)),
            ContractStep::Fail(failure) => self.abort(failure),
        }
    }

    /// Takes the trade one step further.
    pub fn step(self, client: &mut WsClient, event: Event) -> (r: (Trade, Command))
        requires
            self.stage is Quoting && event is MaxPrice ==> old(client).req_id < u64::MAX,
        ensures
            self.follows(old(client).req_id, event, r.0, final(client).req_id, r.1),
            final(client).current_mode == old(client).current_mode,
    {
        let stake = self.stake;
        match self.stage {
            Stage::Proposing => match event {
                Event::Sent => (
                    self,
                    Command::Listen { poll_millis: REPLY_POLL_MILLIS, update: None },
                ),
                Event::SendFailed(error) => self.abort(Failure::Transport(error)),
                Event::Undecodable(error) => self.abort(Failure::Undecodable(error)),
                Event::Wire { event, elapsed_nanos } => self.await_reply(
                    "proposal",
                    event,
                    elapsed_nanos,
                ),
                Event::Proposal(reply) => match reply.terms(stake) {
                    Ok((proposal_id, ask_price)) => (
                        Trade { stake, stage: Stage::Quoting { proposal_id } },
                        Command::Quote(ask_price),
                    ),
                    Err(failure) => self.abort(failure),
                },
                _ => (self, Command::Unexpected),
            },
            Stage::Quoting { proposal_id } => match event {
                Event::MaxPrice(price) => {
                    let text = tagged_request(client, buy_request(proposal_id.as_str(), price));
                    (Trade { stake, stage: Stage::Buying }, Command::Send(text))
                },
                _ => (
                    Trade { stake, stage: Stage::Quoting { proposal_id } },
                    Command::Unexpected,
                ),
            },
            Stage::Buying => match event {
                Event::Sent => (
                    self,
                    Command::Listen { poll_millis: REPLY_POLL_MILLIS, update: None },
                ),
                Event::SendFailed(error) => self.abort(Failure::Transport(error)),
                Event::Undecodable(error) => self.abort(Failure::Undecodable(error)),
                Event::Wire { event, elapsed_nanos } => self.await_reply(
                    "buy",
                    event,
                    elapsed_nanos,
                ),
                Event::Purchase(reply) => match reply.purchase() {
                    Ok((contract_id, buy_price)) => (
                        Trade { stake, stage: Stage::Settling { contract_id, buy_price } },
                        Command::Send(subscribe_request(contract_id)),
                    ),
                    Err(failure) => self.abort(failure),
                },
                _ => (self, Command::Unexpected),
            },
            Stage::Settling { contract_id, buy_price } => match event {
                Event::Sent => (
                    self,
                    Command::Listen { poll_millis: SETTLE_POLL_MILLIS, update: None },
                ),
                Event::SendFailed(error) => self.abort(Failure::Transport(error)),
                Event::Undecodable(error) => self.abort(Failure::Undecodable(error)),
                Event::Wire { event, elapsed_nanos } => self.await_end(event, elapsed_nanos),
                Event::Contract { update, elapsed_nanos } => {
                    match update.settlement(contract_id, buy_price) {
                        Some(settlement) => (
                            Trade { stake, stage: Stage::Over },
                            Command::Finish(settlement),
                        ),
                        None => if is_overdue(elapsed_nanos, SETTLE_SECS) {
                            self.abort(Failure::SettleTimeout)
                        } else {
                            (
                                self,
                                Command::Listen { poll_millis: SETTLE_POLL_MILLIS, update: None },
                            )
                        },
                    }
                },
                _ => (self, Command::Unexpected),
            },
            Stage::Over => (self, Command::Unexpected),
        }
    }
}

impl Stage {
    /// The place of the stage in a trade.
    pub open spec fn rank(self) -> int {
        match self {
            Stage::Proposing => 0,
            Stage::Quoting { .. } => 1,
            Stage::Buying => 2,
            Stage::Settling { .. } => 3,
            Stage::Over => 4,
        }
    }
}

/// A trade never goes back, nor does it skip a stage but to end; its stake
/// stays the same.
pub proof fn law_trade_goes_forward(
    trade: Trade,
    req_id: u64,
    event: Event,
    after: Trade,
    req_id_after: u64,
    command: Command,
)
    requires
        trade.follows(req_id, event, after, req_id_after, command),
    ensures
        after.stake == trade.stake,
        after.stage == trade.stage || after.stage is Over || after.stage.rank()
            == trade.stage.rank() + 1,
        trade.stage is Over ==> after == trade && command is Unexpected,
{
}

/// A trade ends with the settlement of the contract that it bought, at the
/// price that it was bought for, or with a failure, and in no other way.
pub proof fn law_trade_ends_settled_or_failed(
    trade: Trade,
    req_id: u64,
    event: Event,
    after: Trade,
    req_id_after: u64,
    command: Command,
)
    requires
        trade.follows(req_id, event, after, req_id_after, command),
        !(trade.stage is Over),
    ensures
        after.stage is Over <==> command is Finish || command is Abort,
        command matches Command::Finish(settlement) ==> {
            &&& trade.stage is Settling
            &&& event matches Event::Contract { update, .. }
            &&& update.poc matches Some(contract) && contract.concerns(trade.stage->contract_id)
            &&& update.spec_settlement(trade.stage->contract_id, trade.stage->buy_price) == Some(
                settlement,
            )
            &&& settlement.buy_price == trade.stage->buy_price
        },
{
}

/// An update that names another contract leaves a trade as it is: it goes on
/// listening until the time is up.
pub proof fn law_other_contract_leaves_trade_alone(
    trade: Trade,
    req_id: u64,
    update: PocResp,
    elapsed_nanos: u128,
    after: Trade,
    req_id_after: u64,
    command: Command,
)
    requires
        trade.follows(
            req_id,
            Event::Contract { update, elapsed_nanos },
            after,
            req_id_after,
            command,
        ),
        trade.stage is Settling,
        update.poc matches Some(contract) && contract.contract_id matches Some(other) && other
            != trade.stage->contract_id,
        !overdue(elapsed_nanos, SETTLE_SECS),
    ensures
        after == trade,
        command == listen_for_end(),
{
}

/// A trade listens for no longer than it may, whatever the socket does: once
/// the time is up, no event makes it listen on.
pub proof fn law_trade_waits_are_bounded(
    trade: Trade,
    req_id: u64,
    event: Event,
    after: Trade,
    req_id_after: u64,
    command: Command,
)
    requires
        trade.follows(req_id, event, after, req_id_after, command),
        match event {
            Event::Wire { elapsed_nanos, .. } | Event::Contract { elapsed_nanos, .. } => overdue(
                elapsed_nanos,
                if trade.stage is Settling {
                    SETTLE_SECS
                } else {
                    REPLY_SECS
                },
            ),
            _ => false,
        },
    ensures
        !(command is Listen),
{
}

/// Something is sent only to buy a proposal that was received and to follow a
/// contract that was bought; only the purchase takes a new request id, which
/// is the next one.
pub proof fn law_trade_sends(
    trade: Trade,
    req_id: u64,
    event: Event,
    after: Trade,
    req_id_after: u64,
    command: Command,
)
    requires
        trade.follows(req_id, event, after, req_id_after, command),
    ensures
        command is Send <==> after.stage.rank() == trade.stage.rank() + 1 && (after.stage is Buying
            || after.stage is Settling),
        after.stage is Buying && trade.stage is Quoting ==> req_id_after == req_id + 1,
        !(after.stage is Buying && trade.stage is Quoting) ==> req_id_after == req_id,
{
}

/// A moment of a trade: the trade, the latest request id of the connection,
/// and the command that was given.
pub struct Moment {
    pub trade: Trade,
    pub req_id: u64,
    pub command: Command,
}

/// The moments of a trade under these events, from its opening under the
/// request id `first_id`.
pub open spec fn is_history(first_id: u64, events: Seq<Event>, moments: Seq<Moment>) -> bool {
    &&& moments.len() == events.len() + 1
    &&& moments[0].trade.stage is Proposing
    &&& moments[0].req_id == first_id
    &&& moments[0].command is Send
    &&& forall|i: int|
        0 <= i < events.len() ==> (#[trigger] moments[i]).trade.follows(
            moments[i].req_id,
            events[i],
            moments[i + 1].trade,
            moments[i + 1].req_id,
            moments[i + 1].command,
        )
}

/// A trade takes one request id for its proposal and one for its purchase,
/// and no more: it buys at most once. One that ends with a settlement has
/// bought exactly once.
pub proof fn law_trade_buys_at_most_once(
    first_id: u64,
    events: Seq<Event>,
    moments: Seq<Moment>,
    n: int,
)
    requires
        is_history(first_id, events, moments),
        0 <= n < moments.len(),
    ensures
        match moments[n].trade.stage {
            Stage::Proposing | Stage::Quoting { .. } => moments[n].req_id == first_id,
            Stage::Buying | Stage::Settling { .. } => moments[n].req_id == first_id + 1,
            Stage::Over => first_id <= moments[n].req_id <= first_id + 1,
        },
        moments[n].trade.stake == moments[0].trade.stake,
        moments[n].command is Finish ==> moments[n].req_id == first_id + 1,
    decreases n,
{
    if n > 0 {
        law_trade_buys_at_most_once(first_id, events, moments, n - 1);
        let before = moments[n - 1];
        assert(before.trade.follows(
            before.req_id,
            events[n - 1],
            moments[n].trade,
            moments[n].req_id,
            moments[n].command,
        ));
    }
}

/// The reply to a purchase is the `m`-th event, and it tells of the given
/// contract, bought at the given price.
pub open spec fn bought_at(events: Seq<Event>, m: int, contract_id: u64, price: Price) -> bool {
    events[m] matches Event::Purchase(reply) && reply.spec_purchase() == Ok::<
        (u64, Price),
        Failure,
    >((contract_id, price))
}

/// A trade that waits for a contract to end waits for one that it has bought.
proof fn lemma_settles_what_it_bought(
    first_id: u64,
    events: Seq<Event>,
    moments: Seq<Moment>,
    n: int,
)
    requires
        is_history(first_id, events, moments),
        0 <= n < moments.len(),
    ensures
        moments[n].trade.stage matches Stage::Settling { contract_id, buy_price } ==> exists|m: int|
            0 <= m < n && #[trigger] bought_at(events, m, contract_id, buy_price),
    decreases n,
{
    if n > 0 {
        lemma_settles_what_it_bought(first_id, events, moments, n - 1);
        let before = moments[n - 1];
        assert(before.trade.follows(
            before.req_id,
            events[n - 1],
            moments[n].trade,
            moments[n].req_id,
            moments[n].command,
        ));
        if let Stage::Settling { contract_id, buy_price } = moments[n].trade.stage {
            if before.trade.stage is Buying {
                assert(bought_at(events, n - 1, contract_id, buy_price));
            }
        }
    }
}

/// The outcome of a trade is that of its own contract: the update that it is
/// taken from is on the contract that the trade has bought, at the price that
/// was paid.
pub proof fn law_outcome_is_of_own_contract(
    first_id: u64,
    events: Seq<Event>,
    moments: Seq<Moment>,
    n: int,
)
    requires
        is_history(first_id, events, moments),
        0 <= n < moments.len(),
        moments[n].command is Finish,
    ensures
        n > 0,
        exists|m: int, contract_id: u64, price: Price|
            0 <= m < n - 1 && #[trigger] bought_at(events, m, contract_id, price) && (
            events[n - 1] matches Event::Contract { update, .. } && update.spec_settlement(
                contract_id,
                price,
            ) == Some(moments[n].command->Finish_0)),
{
    if n > 0 {
        let before = moments[n - 1];
        assert(before.trade.follows(
            before.req_id,
            events[n - 1],
            moments[n].trade,
            moments[n].req_id,
            moments[n].command,
        ));
        lemma_settles_what_it_bought(first_id, events, moments, n - 1);
    }
}

/// How a trade takes the reply to its request for a proposal: it goes on to
/// the proposal with the id that was offered, at the price asked, whatever it
/// is, or at its own stake where none is asked; without such a proposal it
/// fails, and an error comes first.
pub proof fn law_trade_takes_proposal(
    trade: Trade,
    req_id: u64,
    reply: ProposalResp,
    after: Trade,
    req_id_after: u64,
    command: Command,
)
    requires
        trade.stage is Proposing,
        trade.follows(req_id, Event::Proposal(reply), after, req_id_after, command),
    ensures
        req_id_after == req_id,
        after.stake == trade.stake,
        match command {
            Command::Quote(price) => {
                &&& reply.error is None
                &&& reply.proposal matches Some(proposal)
                &&& after.stage matches Stage::Quoting { proposal_id }
                &&& proposal.id == Some(proposal_id)
                &&& proposal.ask_price is Some ==> proposal.ask_price == Some(price)
                &&& proposal.ask_price is None ==> price == trade.stake
            },
            Command::Abort { failure, update } => {
                &&& after.stage is Over
                &&& update is None
                &&& match failure {
                    Failure::Proposal(error) => reply.error == Some(error),
                    Failure::NoProposal => reply.error is None && reply.proposal is None,
                    Failure::NoProposalId => reply.error is None && reply.proposal is Some
                        && reply.proposal->0.id is None,
                    _ => false,
                }
            },
            _ => false,
        },
{
}

/// What a trade buys: the proposal that it was offered, at the price that was
/// worked out, under the next request id, and nothing else is in the request.
pub proof fn law_trade_buys_what_was_offered(
    trade: Trade,
    proposal_id: String,
    req_id: u64,
    price: serde_json::Value,
    after: Trade,
    req_id_after: u64,
    command: Command,
)
    requires
        trade.stage == (Stage::Quoting { proposal_id }),
        trade.follows(req_id, Event::MaxPrice(price), after, req_id_after, command),
    ensures
        req_id_after == req_id + 1,
        after == (Trade { stage: Stage::Buying, ..trade }),
        command matches Command::Send(text) && exists|request: Json|
            {
                &&& text@ == #[trigger] json_text(request)
                &&& has_text(request, "buy"@, proposal_id@)
                &&& request->Object_0["price"@] == json(price)
                &&& req_id_after <= 0x7FFF_FFFF_FFFF_FFFF ==> request->Object_0["req_id"@]
                    == Json::Unsigned(req_id_after)
                &&& forall|key: Seq<char>| #[trigger]
                    has_key(request, key) <==> key == "buy"@ || key == "price"@ || key == "req_id"@
            },
{
    let request = tagged(buy_json(proposal_id@, json(price)), req_id_after);
    lemma_keys();
    assert(command->Send_0@ == json_text(request));
}

/// How a trade takes the reply to its purchase: it follows the contract that
/// the reply names, whichever it is, bought at the price named, zero where
/// none is, and asks for updates on that contract; without one it fails, and
/// an error comes first.
pub proof fn law_trade_follows_purchase(
    trade: Trade,
    req_id: u64,
    reply: BuyResponse,
    after: Trade,
    req_id_after: u64,
    command: Command,
)
    requires
        trade.stage is Buying,
        trade.follows(req_id, Event::Purchase(reply), after, req_id_after, command),
    ensures
        req_id_after == req_id,
        after.stake == trade.stake,
        match command {
            Command::Send(text) => {
                &&& reply.error is None
                &&& reply.buy matches Some(buy)
                &&& after.stage matches Stage::Settling { contract_id, buy_price }
                &&& buy.contract_id == Some(contract_id)
                &&& buy.buy_price is Some ==> buy.buy_price == Some(buy_price)
                &&& buy.buy_price is None ==> buy_price.bits == 0
                &&& exists|request: Json|
                    {
                        &&& text@ == #[trigger] json_text(request)
                        &&& request is Object
                        &&& request->Object_0["contract_id"@] == Json::Unsigned(contract_id)
                        &&& request->Object_0["proposal_open_contract"@] == Json::Unsigned(1)
                        &&& request->Object_0["subscribe"@] == Json::Unsigned(1)
                        &&& forall|key: Seq<char>| #[trigger]
                            has_key(request, key) <==> key == "contract_id"@ || key
                                == "proposal_open_contract"@ || key == "subscribe"@
                    }
            },
            Command::Abort { failure, update } => {
                &&& after.stage is Over
                &&& update is None
                &&& match failure {
                    Failure::Buy(error) => reply.error == Some(error),
                    Failure::NoBuy => reply.error is None && reply.buy is None,
                    Failure::NoContractId => reply.error is None && reply.buy is Some
                        && reply.buy->0.contract_id is None,
                    _ => false,
                }
            },
            _ => false,
        },
{
    lemma_keys();
    if let Command::Send(text) = command {
        let request = subscribe_json(after.stage->contract_id);
        assert(text@ == json_text(request));
    }
}

/// How a trade takes an update on a contract: it is over once the update is on
/// its own contract, or names none, and says that it is sold, at any time. It
/// is won if the status says so, or by a named profit above zero, or, where no
/// profit is named, by a sell price above what was paid. Until then it listens
/// on, for ninety seconds.
pub proof fn law_trade_takes_update(
    trade: Trade,
    contract_id: u64,
    buy_price: Price,
    req_id: u64,
    update: PocResp,
    elapsed_nanos: u128,
    after: Trade,
    req_id_after: u64,
    command: Command,
)
    requires
        trade.stage == (Stage::Settling { contract_id, buy_price }),
        trade.follows(
            req_id,
            Event::Contract { update, elapsed_nanos },
            after,
            req_id_after,
            command,
        ),
    ensures
        req_id_after == req_id,
        ({
            let settled = {
                &&& update.poc is Some
                &&& update.poc->0.is_sold is Some
                &&& update.poc->0.is_sold->0 == 1
                &&& update.poc->0.contract_id is Some ==> update.poc->0.contract_id->0
                    == contract_id
            };
            let contract = update.poc->0;
            let says_won = contract.status is Some && contract.status->0@ == "won"@;
            match command {
                Command::Finish(settlement) => {
                    &&& settled
                    &&& after == (Trade { stage: Stage::Over, ..trade })
                    &&& settlement.buy_price == buy_price
                    &&& contract.sell_price is Some ==> settlement.sell_price
                        == contract.sell_price->0
                    &&& contract.sell_price is None ==> settlement.sell_price.bits == 0
                    &&& settlement.won <==> {
                        ||| says_won
                        ||| contract.profit is Some && 0 < contract.profit->0.bits
                            <= 0x7FF0_0000_0000_0000
                        ||| contract.profit is None && settlement.sell_price.above(buy_price)
                    }
                },
                Command::Listen { poll_millis, update: passed_on } => {
                    &&& !settled
                    &&& elapsed_nanos <= 90_000_000_000
                    &&& after == trade
                    &&& poll_millis == 500
                    &&& passed_on is None
                },
                Command::Abort { failure, update: passed_on } => {
                    &&& !settled
                    &&& elapsed_nanos > 90_000_000_000
                    &&& after == (Trade { stage: Stage::Over, ..trade })
                    &&& failure == Failure::SettleTimeout
                    &&& passed_on is None
                },
                _ => false,
            }
        }),
{
}

/// How a trade that awaits a reply takes a message that parses to `value`,
/// whatever other members it has: one of the type `proposal`, or `buy` once
/// the purchase was sent, is handed on as it came, at any time; any other that
/// holds an error ends the trade with that error; and the rest is passed over
/// for twenty seconds. An update on a contract is passed on in every case.
pub proof fn law_trade_awaits_reply(
    trade: Trade,
    req_id: u64,
    text: String,
    value: Json,
    elapsed_nanos: u128,
    after: Trade,
    req_id_after: u64,
    command: Command,
)
    requires
        trade.stage is Proposing || trade.stage is Buying,
        json_of_text(text@) == Some(value),
        trade.follows(
            req_id,
            Event::Wire { event: WireEvent::Text(text), elapsed_nanos },
            after,
            req_id_after,
            command,
        ),
    ensures
        req_id_after == req_id,
        ({
            let expect = if trade.stage is Proposing {
                "proposal"@
            } else {
                "buy"@
            };
            let awaited = has_text(value, "msg_type"@, expect);
            let is_update = has_text(value, "msg_type"@, "proposal_open_contract"@);
            let has_error = has_key(value, "error"@);
            let in_time = elapsed_nanos <= 20_000_000_000;
            match command {
                Command::ReadProposal(reply) => awaited && trade.stage is Proposing && after
                    == trade && json(reply) == value,
                Command::ReadPurchase(reply) => awaited && trade.stage is Buying && after == trade
                    && json(reply) == value,
                Command::Listen { poll_millis, update } => {
                    &&& !awaited && !has_error && in_time
                    &&& after == trade
                    &&& poll_millis == 200
                    &&& is_update <==> update is Some
                    &&& update is Some ==> json(update->0) == value
                },
                Command::Abort { failure, update } => {
                    &&& !awaited
                    &&& after == (Trade { stage: Stage::Over, ..trade })
                    &&& is_update <==> update is Some
                    &&& update is Some ==> json(update->0) == value
                    &&& match failure {
                        Failure::Api(report) => has_error && report@ == json_text(
                            value->Object_0["error"@],
                        ),
                        Failure::ReplyTimeout(msg_type) => !has_error && !in_time && msg_type@
                            == expect,
                        _ => false,
                    }
                },
                _ => false,
            }
        }),
{
}

/// How a trade whose contract is running takes a message that parses to
/// `value`, whatever other members it has: an update on a contract is handed
/// on as it came, at any time; any other message that holds an error ends the
/// trade with that error; and the rest is passed over for ninety seconds.
pub proof fn law_trade_awaits_end(
    trade: Trade,
    req_id: u64,
    text: String,
    value: Json,
    elapsed_nanos: u128,
    after: Trade,
    req_id_after: u64,
    command: Command,
)
    requires
        trade.stage is Settling,
        json_of_text(text@) == Some(value),
        trade.follows(
            req_id,
            Event::Wire { event: WireEvent::Text(text), elapsed_nanos },
            after,
            req_id_after,
            command,
        ),
    ensures
        req_id_after == req_id,
        ({
            let is_update = has_text(value, "msg_type"@, "proposal_open_contract"@);
            let has_error = has_key(value, "error"@);
            let in_time = elapsed_nanos <= 90_000_000_000;
            match command {
                Command::ReadContract(update) => is_update && after == trade && json(update)
                    == value,
                Command::Listen { poll_millis, update } => {
                    &&& !is_update && !has_error && in_time
                    &&& after == trade
                    &&& poll_millis == 500
                    &&& update is None
                },
                Command::Abort { failure, update } => {
                    &&& !is_update
                    &&& after == (Trade { stage: Stage::Over, ..trade })
                    &&& update is None
                    &&& match failure {
                        Failure::Poc(report) => has_error && report@ == json_text(
                            value->Object_0["error"@],
                        ),
                        Failure::SettleTimeout => !has_error && !in_time,
                        _ => false,
                    }
                },
                _ => false,
            }
        }),
{
}

/// How a trade takes silence, a text that does not parse, and a socket that
/// fails. The first two are waited out, for twenty seconds while a reply is
/// awaited and for ninety while a contract is running. The last ends the trade
/// with its own reason.
pub proof fn law_trade_takes_socket(
    trade: Trade,
    req_id: u64,
    event: WireEvent,
    elapsed_nanos: u128,
    after: Trade,
    req_id_after: u64,
    command: Command,
)
    requires
        trade.stage is Proposing || trade.stage is Buying || trade.stage is Settling,
        event matches WireEvent::Text(text) ==> json_of_text(text@) is None,
        trade.follows(
            req_id,
            Event::Wire { event, elapsed_nanos },
            after,
            req_id_after,
            command,
        ),
    ensures
        req_id_after == req_id,
        ({
            let settling = trade.stage is Settling;
            let in_time = elapsed_nanos <= if settling {
                90_000_000_000int
            } else {
                20_000_000_000int
            };
            match command {
                Command::Listen { poll_millis, update } => {
                    &&& event is Tick || event is Text
                    &&& in_time
                    &&& after == trade
                    &&& settling ==> poll_millis == 500
                    &&& !settling ==> poll_millis == 200
                    &&& update is None
                },
                Command::Abort { failure, update } => {
                    &&& after == (Trade { stage: Stage::Over, ..trade })
                    &&& update is None
                    &&& match event {
                        WireEvent::Tick | WireEvent::Text(_) => {
                            &&& !in_time
                            &&& settling ==> failure == Failure::SettleTimeout
                            &&& trade.stage is Proposing ==> (
                            failure matches Failure::ReplyTimeout(msg_type) && msg_type@
                                == "proposal"@)
                            &&& trade.stage is Buying ==> (
                            failure matches Failure::ReplyTimeout(msg_type) && msg_type@ == "buy"@)
                        },
                        WireEvent::Unreadable(reason) => failure == Failure::Transport(reason),
                        WireEvent::Broken(reason) => failure == Failure::WebSocket(reason),
                        WireEvent::Closed => failure == if settling {
                            Failure::ClosedDuringContract
                        } else {
                            Failure::Closed
                        },
                    }
                },
                _ => false,
            }
        }),
{
}

/// A text that was sent is followed by listening; one that could not be sent,
/// and a value that could not be read, end the trade with that reason. Before
/// the purchase is sent there is nothing to listen for.
pub proof fn law_trade_after_sending(
    trade: Trade,
    req_id: u64,
    reason: String,
    after: Trade,
    req_id_after: u64,
    command: Command,
)
    requires
        trade.stage is Proposing || trade.stage is Buying || trade.stage is Settling,
    ensures
        trade.follows(req_id, Event::Sent, after, req_id_after, command) ==> {
            &&& after == trade
            &&& req_id_after == req_id
            &&& command matches Command::Listen { poll_millis, update }
            &&& trade.stage is Settling ==> poll_millis == 500
            &&& !(trade.stage is Settling) ==> poll_millis == 200
            &&& update is None
        },
        trade.follows(req_id, Event::SendFailed(reason), after, req_id_after, command) ==> {
            &&& after == (Trade { stage: Stage::Over, ..trade })
            &&& req_id_after == req_id
            &&& command == (Command::Abort { failure: Failure::Transport(reason), update: None })
        },
        trade.follows(req_id, Event::Undecodable(reason), after, req_id_after, command) ==> {
            &&& after == (Trade { stage: Stage::Over, ..trade })
            &&& req_id_after == req_id
            &&& command == (Command::Abort { failure: Failure::Undecodable(reason), update: None })
        },
{
}

/// A trade heeds only what its stage calls for: any other event is unexpected,
/// and changes nothing.
pub proof fn law_trade_heeds_its_stage(
    trade: Trade,
    req_id: u64,
    event: Event,
    after: Trade,
    req_id_after: u64,
    command: Command,
)
    requires
        trade.follows(req_id, event, after, req_id_after, command),
    ensures
        ({
            let heeded = match event {
                Event::Sent
                | Event::SendFailed(_)
                | Event::Undecodable(_)
                | Event::Wire { .. } => trade.stage is Proposing || trade.stage is Buying
                    || trade.stage is Settling,
                Event::Proposal(_) => trade.stage is Proposing,
                Event::MaxPrice(_) => trade.stage is Quoting,
                Event::Purchase(_) => trade.stage is Buying,
                Event::Contract { .. } => trade.stage is Settling,
            };
            &&& command is Unexpected <==> !heeded
            &&& !heeded ==> after == trade && req_id_after == req_id
        }),
{
}

/// A reply is awaited for twenty seconds.
pub proof fn law_reply_time()
    ensures
        REPLY_SECS == 20,
{
}

/// What a trade opens with: a request for a contract in the direction, with
/// the amount and in the currency that were given, under the next request id;
/// and a trade of the stake that was given, which awaits the reply.
pub proof fn law_opening_asks_for_what_was_given(
    req_id: u64,
    direction: Direction,
    stake: Price,
    amount: Json,
    currency: Seq<char>,
    trade: Trade,
    req_id_after: u64,
    command: Command,
)
    requires
        opens(req_id, direction, stake, amount, currency, trade, req_id_after, command),
    ensures
        req_id_after == req_id + 1,
        trade.stake == stake,
        trade.stage is Proposing,
        command matches Command::Send(text) && exists|request: Json|
            {
                &&& text@ == #[trigger] json_text(request)
                &&& request is Object
                &&& request->Object_0["amount"@] == amount
                &&& has_text(request, "currency"@, currency)
                &&& direction == Direction::Rise ==> has_text(request, "contract_type"@, "CALL"@)
                &&& direction == Direction::Fall ==> has_text(request, "contract_type"@, "PUT"@)
                &&& has_text(request, "symbol"@, "R_10"@)
                &&& has_text(request, "basis"@, "stake"@)
                &&& has_text(request, "duration_unit"@, "m"@)
                &&& request->Object_0["duration"@] == Json::Unsigned(1)
                &&& request->Object_0["proposal"@] == Json::Unsigned(1)
                &&& req_id_after <= 0x7FFF_FFFF_FFFF_FFFF ==> request->Object_0["req_id"@]
                    == Json::Unsigned(req_id_after)
            },
{
    let request = tagged(proposal_json(direction, amount, currency), req_id_after);
    lemma_keys();
    assert(command->Send_0@ == json_text(request));
}

} // verus!
