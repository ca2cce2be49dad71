use serde_json::Value;
use sunderiv::client::{Mode, WsClient};
use sunderiv::listen::WireEvent;
use sunderiv::price::Price;
use sunderiv::request::Direction;
use sunderiv::response::{
    BuyInner, BuyResponse, PocInner, PocResp, ProposalInner, ProposalResp, Settlement,
};
use sunderiv::trade::{Command, Event, Stage, Trade};

fn price(value: f64) -> Price {
    Price { bits: value.to_bits() }
}

fn parse(text: &str) -> Value {
    serde_json::from_str(text).unwrap()
}

fn wire(text: &str) -> Event {
    Event::Wire { event: WireEvent::Text(text.to_string()), elapsed_nanos: 0 }
}

fn silence(elapsed_nanos: u128) -> Event {
    Event::Wire { event: WireEvent::Tick, elapsed_nanos }
}

fn open(client: &mut WsClient) -> Trade {
    let (trade, command) =
        Trade::open(client, Direction::Rise, price(0.35), Value::from(0.35), "USD");
    match command {
        Command::Send(text) => assert_eq!(
            parse(&text),
            parse(
                "{\"proposal\":1,\"amount\":0.35,\"basis\":\"stake\",\"contract_type\":\"CALL\",\
                 \"currency\":\"USD\",\"duration\":1,\"duration_unit\":\"m\",\"symbol\":\"R_10\",\
                 \"req_id\":1}"
            )
        ),
        _ => panic!("nothing sent"),
    }
    trade
}

fn proposal(id: Option<&str>) -> Event {
    Event::Proposal(ProposalResp {
        msg_type: "proposal".to_string(),
        proposal: Some(ProposalInner { id: id.map(|s| s.to_string()), ask_price: None }),
        error: None,
    })
}

fn purchase(contract_id: Option<u64>) -> Event {
    Event::Purchase(BuyResponse {
        msg_type: "buy".to_string(),
        buy: Some(BuyInner { contract_id, longcode: None, buy_price: Some(price(0.36)) }),
        error: None,
    })
}

fn update(contract_id: u64, is_sold: i64, sell_price: f64, elapsed_nanos: u128) -> Event {
    let update = PocResp {
        msg_type: "proposal_open_contract".to_string(),
        poc: Some(PocInner {
            contract_id: Some(contract_id),
            is_sold: Some(is_sold),
            buy_price: None,
            sell_price: Some(price(sell_price)),
            status: None,
            currency: None,
            payout: None,
            profit: None,
        }),
        error: None,
    };
    Event::Contract { update, elapsed_nanos }
}

fn contract(is_sold: i64) -> Event {
    update(7, is_sold, 0.66, 0)
}

fn buying(client: &mut WsClient) -> Trade {
    let trade = open(client);
    let (trade, _) = trade.step(client, proposal(Some("p")));
    trade.step(client, Event::MaxPrice(Value::from(0.39))).0
}

fn settling(client: &mut WsClient) -> Trade {
    buying(client).step(client, purchase(Some(7))).0
}

fn failure(step: (Trade, Command)) -> String {
    assert!(matches!(step.0.stage, Stage::Over));
    match step.1 {
        Command::Abort { failure, .. } => failure.message(),
        _ => panic!("no failure"),
    }
}

#[test]
fn a_trade_from_end_to_end() {
    let client = &mut WsClient::new(Mode::Real);
    let trade = open(client);
    let (trade, command) = trade.step(client, Event::Sent);
    assert!(matches!(command, Command::Listen { poll_millis: 200, update: None }));
    let (trade, command) = trade.step(client, wire("{\"msg_type\":\"proposal\"}"));
    match command {
        Command::ReadProposal(value) => assert_eq!(value, parse("{\"msg_type\":\"proposal\"}")),
        _ => panic!("no proposal"),
    }
    let (trade, command) = trade.step(client, proposal(Some("p")));
    assert!(matches!(command, Command::Quote(ask) if ask == price(0.35)));
    let (trade, command) = trade.step(client, Event::MaxPrice(Value::from(0.39)));
    match command {
        Command::Send(text) => {
            assert_eq!(parse(&text), parse("{\"buy\":\"p\",\"price\":0.39,\"req_id\":2}"))
        }
        _ => panic!("nothing sent"),
    }
    let (trade, _) = trade.step(client, Event::Sent);
    let (trade, command) = trade.step(client, wire("{\"msg_type\":\"buy\"}"));
    assert!(matches!(command, Command::ReadPurchase(_)));
    let (trade, command) = trade.step(client, purchase(Some(7)));
    match command {
        Command::Send(text) => assert_eq!(
            parse(&text),
            parse("{\"proposal_open_contract\":1,\"contract_id\":7,\"subscribe\":1}")
        ),
        _ => panic!("nothing sent"),
    }
    let (trade, command) = trade.step(client, Event::Sent);
    assert!(matches!(command, Command::Listen { poll_millis: 500, update: None }));
    let (trade, command) = trade.step(client, wire("{\"msg_type\":\"proposal_open_contract\"}"));
    assert!(matches!(command, Command::ReadContract(_)));
    let (trade, command) = trade.step(client, contract(0));
    assert!(matches!(command, Command::Listen { poll_millis: 500, update: None }));
    let (trade, command) = trade.step(client, contract(1));
    match command {
        Command::Finish(settlement) => assert_eq!(
            settlement,
            Settlement { won: true, buy_price: price(0.36), sell_price: price(0.66) }
        ),
        _ => panic!("not settled"),
    }
    assert!(matches!(trade.stage, Stage::Over));
    assert_eq!(*client, WsClient { req_id: 2, current_mode: Mode::Real });
    assert!(matches!(trade.step(client, Event::Sent).1, Command::Unexpected));
}

#[test]
fn updates_are_passed_on_while_a_reply_is_awaited() {
    let client = &mut WsClient::new(Mode::Demo);
    let trade = open(client);
    let (trade, command) = trade.step(client, wire("{\"msg_type\":\"proposal_open_contract\"}"));
    assert!(matches!(command, Command::Listen { poll_millis: 200, update: Some(_) }));
    let (trade, command) = trade.step(client, wire("{\"msg_type\":\"buy\"}"));
    assert!(matches!(command, Command::Listen { poll_millis: 200, update: None }));
    assert!(matches!(trade.stage, Stage::Proposing));
}

#[test]
fn a_trade_fails_at_any_stage() {
    let client = &mut WsClient::new(Mode::Demo);
    let reason = || "reset".to_string();
    assert_eq!(failure(open(client).step(client, Event::SendFailed(reason()))), "reset");
    *client = WsClient::new(Mode::Demo);
    assert_eq!(failure(open(client).step(client, proposal(None))), "No proposal.id");
    *client = WsClient::new(Mode::Demo);
    assert_eq!(
        failure(open(client).step(client, silence(20_000_000_001))),
        "Timeout waiting for proposal"
    );
    *client = WsClient::new(Mode::Demo);
    assert_eq!(failure(buying(client).step(client, purchase(None))), "No contract_id");
    *client = WsClient::new(Mode::Demo);
    assert_eq!(failure(buying(client).step(client, Event::Undecodable(reason()))), "reset");
    *client = WsClient::new(Mode::Demo);
    assert_eq!(
        failure(buying(client).step(client, silence(20_000_000_001))),
        "Timeout waiting for buy"
    );
    *client = WsClient::new(Mode::Demo);
    assert_eq!(
        failure(settling(client).step(
            client,
            Event::Wire { event: WireEvent::Closed, elapsed_nanos: 0 }
        )),
        "WebSocket closed during contract wait"
    );
    *client = WsClient::new(Mode::Demo);
    assert_eq!(
        failure(settling(client).step(client, wire("{\"msg_type\":\"buy\",\"error\":0}"))),
        "POC error: 0"
    );
}

#[test]
fn the_outcome_is_that_of_the_contract_bought() {
    let client = &mut WsClient::new(Mode::Real);
    let trade = settling(client);
    let (trade, command) = trade.step(client, update(6, 1, 0.95, 0));
    assert!(matches!(command, Command::Listen { poll_millis: 500, update: None }));
    assert!(matches!(trade.stage, Stage::Settling { contract_id: 7, .. }));
    let (_, command) = trade.step(client, update(7, 1, 0.0, 0));
    match command {
        Command::Finish(settlement) => assert_eq!(
            settlement,
            Settlement { won: false, buy_price: price(0.36), sell_price: price(0.0) }
        ),
        _ => panic!("not settled"),
    }
}

#[test]
fn updates_do_not_put_off_the_end_of_the_wait() {
    let late = 90_000_000_001;
    let client = &mut WsClient::new(Mode::Demo);
    let message = "Timeout waiting for contract to settle";
    assert_eq!(failure(settling(client).step(client, update(7, 0, 0.0, late))), message);
    *client = WsClient::new(Mode::Demo);
    assert_eq!(failure(settling(client).step(client, update(6, 1, 0.95, late))), message);
    *client = WsClient::new(Mode::Demo);
    let (_, command) = settling(client).step(client, update(7, 1, 0.95, late));
    assert!(matches!(command, Command::Finish(_)));
    *client = WsClient::new(Mode::Demo);
    let (_, command) = settling(client).step(client, update(7, 0, 0.0, late - 1));
    assert!(matches!(command, Command::Listen { .. }));
}

#[test]
fn a_failed_trade_passes_the_update_on() {
    let client = &mut WsClient::new(Mode::Demo);
    let text = "{\"msg_type\":\"proposal_open_contract\",\"error\":1}";
    match open(client).step(client, wire(text)).1 {
        Command::Abort { failure, update } => {
            assert_eq!(failure.message(), "Deriv API error: 1");
            assert_eq!(update, Some(parse(text)));
        }
        _ => panic!("no failure"),
    }
}

#[test]
fn an_event_of_another_stage_is_unexpected() {
    let client = &mut WsClient::new(Mode::Demo);
    let (trade, command) = open(client).step(client, purchase(Some(7)));
    assert!(matches!(command, Command::Unexpected));
    assert!(matches!(trade.stage, Stage::Proposing));
    let (trade, _) = trade.step(client, proposal(Some("p")));
    let (trade, command) = trade.step(client, Event::Sent);
    assert!(matches!(command, Command::Unexpected));
    match trade.stage {
        Stage::Quoting { proposal_id } => assert_eq!(proposal_id, "p"),
        _ => panic!("not quoting"),
    }
}
