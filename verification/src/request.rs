//! The requests that go to the API.

use vstd::prelude::*;

use crate::client::WsClient;
use crate::json::{
    has_key, has_text, json, json_text, new_object, no_members, set_member, value_from_i64,
    value_from_str, value_from_u64, value_text, with_member, Json,
};

verus! {

/// The market traded: Volatility 10. (Its one-second sibling is `1HZ10V`.)
pub const SYMBOL: &'static str = "R_10";

/// The contract type of a bet on a fall.
pub const CONTRACT_TYPE_FALL: &'static str = "PUT";

/// The contract type of a bet on a rise.
pub const CONTRACT_TYPE_RISE: &'static str = "CALL";

/// How long a contract runs, in minutes.
pub const DURATION_MINUTES: u32 = 1;

/// What a contract bets on.
#[derive(Debug, Clone, Copy, PartialEq, Eq, Structural)]
pub enum Direction {
    Rise,
    Fall,
}

impl Direction {
    /// The contract type of a bet in this direction.
    pub open spec fn spec_contract_type(self) -> Seq<char> {
        match self {
            Direction::Rise => CONTRACT_TYPE_RISE@,
            Direction::Fall => CONTRACT_TYPE_FALL@,
        }
    }

    /// The contract type of a bet in this direction.
    pub fn contract_type(self) -> (r: &'static str)
        ensures
            r@ == self.spec_contract_type(),
    {
        match self {
            Direction::Rise => CONTRACT_TYPE_RISE,
            Direction::Fall => CONTRACT_TYPE_FALL,
        }
    }
}

/// The address at which the API is reached under an application id.
pub open spec fn address(app_id: Seq<char>) -> Seq<char> {
    "wss://ws.derivws.com/websockets/v3?app_id="@ + app_id
}

/// The address at which the API is reached under an application id.
pub fn connect_url(app_id: &str) -> (r: String)
    ensures
        r@ == address(app_id@),
        r@ == "wss://ws.derivws.com/websockets/v3?app_id="@ + app_id@,
{
    "wss://ws.derivws.com/websockets/v3?app_id=".to_owned().concat(app_id)
}

/// The request that authorizes a connection with a token.
pub open spec fn authorize_json(token: Seq<char>) -> Json {
    Json::Object(map!["authorize"@ => Json::Text(token)])
}

/// The text of the request that authorizes a connection with a token.
pub fn authorize_request(token: &str) -> (r: String)
    ensures
        r@ == json_text(authorize_json(token@)),
{
    let mut request = new_object();
    set_member(&mut request, "authorize", value_from_str(token));
    value_text(&request)
}

/// The request for a proposal: a contract of one minute in the given
/// direction, with the amount as its stake.
pub open spec fn proposal_json(direction: Direction, amount: Json, currency: Seq<char>) -> Json {
    Json::Object(
        map![
            "proposal"@ => Json::Unsigned(1),
            "amount"@ => amount,
            "basis"@ => Json::Text("stake"@),
            "contract_type"@ => Json::Text(direction.spec_contract_type()),
            "currency"@ => Json::Text(currency),
            "duration"@ => Json::Unsigned(DURATION_MINUTES as u64),
            "duration_unit"@ => Json::Text("m"@),
            "symbol"@ => Json::Text(SYMBOL@),
        ],
    )
}

/// The request for a proposal.
pub fn proposal_request(direction: Direction, amount: serde_json::Value, currency: &str) -> (r:
    serde_json::Value)
    ensures
        json(r) == proposal_json(direction, json(amount), currency@),
{
    let mut request = new_object();
    set_member(&mut request, "proposal", value_from_u64(1));
    set_member(&mut request, "amount", amount);
    set_member(&mut request, "basis", value_from_str("stake"));
    set_member(&mut request, "contract_type", value_from_str(direction.contract_type()));
    set_member(&mut request, "currency", value_from_str(currency));
    set_member(&mut request, "duration", value_from_u64(DURATION_MINUTES as u64));
    set_member(&mut request, "duration_unit", value_from_str("m"));
    set_member(&mut request, "symbol", value_from_str(SYMBOL));
    request
}

/// The request that buys a proposal for at most the given price.
pub open spec fn buy_json(proposal_id: Seq<char>, price: Json) -> Json {
    Json::Object(map!["buy"@ => Json::Text(proposal_id), "price"@ => price])
}

/// The request that buys a proposal for at most the given price.
pub fn buy_request(proposal_id: &str, price: serde_json::Value) -> (r: serde_json::Value)
    ensures
        json(r) == buy_json(proposal_id@, json(price)),
{
    let mut request = new_object();
    set_member(&mut request, "buy", value_from_str(proposal_id));
    set_member(&mut request, "price", price);
    request
}

/// The request for updates on a contract until it ends.
pub open spec fn subscribe_json(contract_id: u64) -> Json {
    Json::Object(
        map![
            "proposal_open_contract"@ => Json::Unsigned(1),
            "contract_id"@ => Json::Unsigned(contract_id),
            "subscribe"@ => Json::Unsigned(1),
        ],
    )
}

/// The text of the request for updates on a contract until it ends.
pub fn subscribe_request(contract_id: u64) -> (r: String)
    ensures
        r@ == json_text(subscribe_json(contract_id)),
{
    let mut request = new_object();
    set_member(&mut request, "proposal_open_contract", value_from_u64(1));
    set_member(&mut request, "contract_id", value_from_u64(contract_id));
    set_member(&mut request, "subscribe", value_from_u64(1));
    value_text(&request)
}

/// A request id as the signed number that goes over the wire: ids beyond the
/// signed range wrap around.
pub open spec fn wire_id(req_id: u64) -> int {
    if req_id <= i64::MAX {
        req_id as int
    } else {
        req_id - 0x1_0000_0000_0000_0000
    }
}

/// A request that carries its id. What is no object carries none.
pub open spec fn tagged(payload: Json, req_id: u64) -> Json {
    with_member(payload, "req_id"@, Json::integer(wire_id(req_id) as i64))
}

/// The text of a request under the next id of its connection.
pub fn tagged_request(client: &mut WsClient, payload: serde_json::Value) -> (r: String)
    requires
        old(client).req_id < u64::MAX,
    ensures
        *final(client) == (WsClient { req_id: (old(client).req_id + 1) as u64, ..*old(client) }),
        r@ == json_text(tagged(json(payload), final(client).req_id)),
{
    let mut request = payload;
    let req_id: u64 = client.next_req_id();
    let id: i64 = req_id as i64;
    proof {
        assert(req_id > 0x7FFF_FFFF_FFFF_FFFF ==> (req_id as i64) == req_id
            - 0x1_0000_0000_0000_0000) by (bit_vector);
    }
    set_member(&mut request, "req_id", value_from_i64(id));
    value_text(&request)
}

/// A request that is an object carries its id, and is otherwise unchanged.
pub proof fn law_tag_adds_id_only(payload: Json, req_id: u64, key: Seq<char>)
    requires
        payload is Object,
    ensures
        tagged(payload, req_id).member("req_id"@) == Some(
            Json::integer(wire_id(req_id) as i64),
        ),
        key != "req_id"@ ==> tagged(payload, req_id).member(key) == payload.member(key),
{
}

/// Different ids are different on the wire.
pub proof fn law_wire_ids_differ(a: u64, b: u64)
    requires
        a != b,
    ensures
        i64::MIN <= wire_id(a) <= i64::MAX,
        wire_id(a) != wire_id(b),
        Json::integer(wire_id(a) as i64) != Json::integer(wire_id(b) as i64),
{
}

/// The requests for a rise and for a fall differ in the contract type, and in
/// nothing else.
pub proof fn law_directions_differ_in_type_only(amount: Json, currency: Seq<char>, key: Seq<char>)
    ensures
        key != "contract_type"@ ==> proposal_json(Direction::Rise, amount, currency).member(key)
            == proposal_json(Direction::Fall, amount, currency).member(key),
        proposal_json(Direction::Rise, amount, currency).text_member("contract_type"@) == Some(
            CONTRACT_TYPE_RISE@,
        ),
        proposal_json(Direction::Fall, amount, currency).text_member("contract_type"@) == Some(
            CONTRACT_TYPE_FALL@,
        ),
        CONTRACT_TYPE_RISE@ != CONTRACT_TYPE_FALL@,
{
    lemma_keys_differ();
    reveal_strlit("CALL");
    reveal_strlit("PUT");
    assert(CONTRACT_TYPE_RISE@.len() != CONTRACT_TYPE_FALL@.len());
}

/// No other member of a request for a proposal has the key of its contract
/// type.
proof fn lemma_keys_differ()
    ensures
        "contract_type"@ != "proposal"@,
        "contract_type"@ != "amount"@,
        "contract_type"@ != "basis"@,
        "contract_type"@ != "currency"@,
        "contract_type"@ != "duration"@,
        "contract_type"@ != "duration_unit"@,
        "contract_type"@ != "symbol"@,
{
    reveal_strlit("contract_type");
    reveal_strlit("proposal");
    reveal_strlit("amount");
    reveal_strlit("basis");
    reveal_strlit("currency");
    reveal_strlit("duration");
    reveal_strlit("duration_unit");
    reveal_strlit("symbol");
    assert("contract_type"@.len() == 13);
    assert("currency"@.len() == 8);
    assert("contract_type"@[0] == 'c');
    assert("duration_unit"@[0] == 'd');
}

/// The keys of the requests, told apart by their first letters and lengths.
pub(crate) proof fn lemma_keys()
    ensures
        "proposal"@.len() == 8 && "proposal"@[0] == 'p',
        "amount"@.len() == 6 && "amount"@[0] == 'a',
        "basis"@.len() == 5 && "basis"@[0] == 'b',
        "contract_type"@.len() == 13 && "contract_type"@[0] == 'c',
        "currency"@.len() == 8 && "currency"@[0] == 'c',
        "duration"@.len() == 8 && "duration"@[0] == 'd',
        "duration_unit"@.len() == 13 && "duration_unit"@[0] == 'd',
        "symbol"@.len() == 6 && "symbol"@[0] == 's',
        "req_id"@.len() == 6 && "req_id"@[0] == 'r',
        "buy"@.len() == 3 && "buy"@[0] == 'b',
        "price"@.len() == 5 && "price"@[0] == 'p',
        "proposal_open_contract"@.len() == 22 && "proposal_open_contract"@[0] == 'p',
        "contract_id"@.len() == 11 && "contract_id"@[0] == 'c',
        "subscribe"@.len() == 9 && "subscribe"@[0] == 's',
{
    reveal_strlit("proposal");
    reveal_strlit("amount");
    reveal_strlit("basis");
    reveal_strlit("contract_type");
    reveal_strlit("currency");
    reveal_strlit("duration");
    reveal_strlit("duration_unit");
    reveal_strlit("symbol");
    reveal_strlit("req_id");
    reveal_strlit("buy");
    reveal_strlit("price");
    reveal_strlit("proposal_open_contract");
    reveal_strlit("contract_id");
    reveal_strlit("subscribe");
}

/// What a request for a proposal asks for: a contract on `R_10` of one minute,
/// `CALL` for a rise and `PUT` for a fall, with the amount and the currency as
/// they were given; and it asks for nothing else.
pub proof fn law_proposal_asks_for(
    direction: Direction,
    amount: Json,
    currency: Seq<char>,
    key: Seq<char>,
)
    ensures
        ({
            let request = proposal_json(direction, amount, currency);
            let members = request->Object_0;
            &&& request is Object
            &&& members["amount"@] == amount
            &&& has_text(request, "currency"@, currency)
            &&& direction == Direction::Rise ==> has_text(request, "contract_type"@, "CALL"@)
            &&& direction == Direction::Fall ==> has_text(request, "contract_type"@, "PUT"@)
            &&& has_text(request, "basis"@, "stake"@)
            &&& has_text(request, "duration_unit"@, "m"@)
            &&& has_text(request, "symbol"@, "R_10"@)
            &&& members["proposal"@] == Json::Unsigned(1)
            &&& members["duration"@] == Json::Unsigned(1)
            &&& has_key(request, key) <==> {
                ||| key == "proposal"@
                ||| key == "amount"@
                ||| key == "basis"@
                ||| key == "contract_type"@
                ||| key == "currency"@
                ||| key == "duration"@
                ||| key == "duration_unit"@
                ||| key == "symbol"@
            }
        }),
{
    lemma_keys();
}

/// What a purchase asks for: the proposal with this id, whichever it is, at
/// this price, and nothing else.
pub proof fn law_purchase_asks_for(proposal_id: Seq<char>, price: Json, key: Seq<char>)
    ensures
        has_text(buy_json(proposal_id, price), "buy"@, proposal_id),
        has_key(buy_json(proposal_id, price), "price"@),
        buy_json(proposal_id, price)->Object_0["price"@] == price,
        has_key(buy_json(proposal_id, price), key) <==> key == "buy"@ || key == "price"@,
{
    lemma_keys();
}

/// What a subscription asks for: updates on this contract, whichever it is,
/// and nothing else.
pub proof fn law_subscription_asks_for(contract_id: u64, key: Seq<char>)
    ensures
        ({
            let request = subscribe_json(contract_id);
            let members = request->Object_0;
            &&& request is Object
            &&& members["contract_id"@] == Json::Unsigned(contract_id)
            &&& members["proposal_open_contract"@] == Json::Unsigned(1)
            &&& members["subscribe"@] == Json::Unsigned(1)
            &&& has_key(request, key) <==> {
                ||| key == "contract_id"@
                ||| key == "proposal_open_contract"@
                ||| key == "subscribe"@
            }
        }),
{
    lemma_keys();
}

/// What authorizes a connection: this token, in full, and nothing else.
pub proof fn law_authorization_names_token(token: Seq<char>, key: Seq<char>)
    ensures
        has_text(authorize_json(token), "authorize"@, token),
        has_key(authorize_json(token), key) <==> key == "authorize"@,
{
}

/// The address begins with that of the API and ends in the application id, in
/// full.
pub proof fn law_address_names_application(app_id: Seq<char>)
    ensures
        ({
            let api = "wss://ws.derivws.com/websockets/v3?app_id="@;
            let url = address(app_id);
            &&& url.len() == api.len() + app_id.len()
            &&& url.take(api.len() as int) == api
            &&& url.skip(api.len() as int) == app_id
        }),
{
}

/// A request carries its id: as it is where it fits a signed number, and two
/// to the sixty-fourth less where it does not.
pub proof fn law_request_carries_id(payload: Json, req_id: u64)
    requires
        payload is Object,
    ensures
        has_key(tagged(payload, req_id), "req_id"@),
        req_id <= 0x7FFF_FFFF_FFFF_FFFF ==> tagged(payload, req_id)->Object_0["req_id"@]
            == Json::Unsigned(req_id),
        req_id > 0x7FFF_FFFF_FFFF_FFFF ==> (tagged(
            payload,
            req_id,
        )->Object_0["req_id"@] matches Json::Negative(n) && n == req_id
            - 0x1_0000_0000_0000_0000),
{
}

/// Every other member of a request is what it was, and what is no object is
/// sent as it is.
pub proof fn law_request_keeps_members(payload: Json, req_id: u64, key: Seq<char>)
    ensures
        payload is Object && key != "req_id"@ ==> {
            &&& has_key(tagged(payload, req_id), key) <==> has_key(payload, key)
            &&& has_key(payload, key) ==> tagged(payload, req_id)->Object_0[key]
                == payload->Object_0[key]
        },
        !(payload is Object) ==> tagged(payload, req_id) == payload,
{
}

} // verus!
