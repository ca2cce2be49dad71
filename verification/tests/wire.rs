use serde_json::Value;
use sunderiv::client::{AppCfg, Mode, Setting, Variables, WsClient};
use sunderiv::json::{read_message, set_member};
use sunderiv::listen::{
    authorize_on_event, contract_on_event, is_overdue, reply_on_event, AuthorizeStep, ContractStep,
    ReplyStep, WireEvent,
};
use sunderiv::request::{
    authorize_request, buy_request, connect_url, proposal_request, subscribe_request,
    tagged_request, Direction,
};

fn parse(text: &str) -> Value {
    serde_json::from_str(text).unwrap()
}

fn text(text: &str) -> WireEvent {
    WireEvent::Text(text.to_string())
}

fn reason() -> String {
    "reset".to_string()
}

const SECOND: u128 = 1_000_000_000;

#[test]
fn a_message_gives_its_type_and_its_error() {
    let message = read_message("{\"msg_type\":\"buy\",\"error\":{\"code\":\"X\"},\"n\":1}");
    assert_eq!(message.msg_type.as_deref(), Some("buy"));
    assert_eq!(message.error.as_deref(), Some("{\"code\":\"X\"}"));
    assert_eq!(message.body, parse("{\"msg_type\":\"buy\",\"error\":{\"code\":\"X\"},\"n\":1}"));
    assert!(message.is_of_type("buy"));
    assert!(!message.is_of_type("proposal"));
}

#[test]
fn a_type_that_is_no_string_is_no_type() {
    let message = read_message("{\"msg_type\":3}");
    assert!(message.msg_type.is_none() && message.error.is_none());
    assert!(!message.is_of_type("3"));
}

#[test]
fn an_error_of_null_is_an_error() {
    assert_eq!(read_message("{\"error\":null}").error.as_deref(), Some("null"));
}

#[test]
fn garbage_counts_as_an_empty_object() {
    let message = read_message("no json");
    assert_eq!(message.body, parse("{}"));
    assert!(message.msg_type.is_none() && message.error.is_none());
    assert!(read_message("[\"msg_type\"]").msg_type.is_none());
}

#[test]
fn a_member_is_set_in_objects_only() {
    let mut value = parse("{\"a\":1,\"b\":2}");
    set_member(&mut value, "a", Value::from(3));
    set_member(&mut value, "c", Value::from("x"));
    assert_eq!(value, parse("{\"a\":3,\"b\":2,\"c\":\"x\"}"));
    let mut value = parse("[1]");
    set_member(&mut value, "a", Value::from(3));
    assert_eq!(value, parse("[1]"));
}

#[test]
fn the_address_holds_the_application_id() {
    assert_eq!(connect_url("1089"), "wss://ws.derivws.com/websockets/v3?app_id=1089");
}

#[test]
fn the_token_is_quoted() {
    assert_eq!(authorize_request("a\"b"), "{\"authorize\":\"a\\\"b\"}");
}

#[test]
fn a_request_for_a_fall() {
    assert_eq!(
        proposal_request(Direction::Fall, Value::from(0.5), "USD"),
        parse(
            "{\"proposal\":1,\"amount\":0.5,\"basis\":\"stake\",\"contract_type\":\"PUT\",\
             \"currency\":\"USD\",\"duration\":1,\"duration_unit\":\"m\",\"symbol\":\"R_10\"}"
        )
    );
}

#[test]
fn a_request_for_a_rise() {
    assert_eq!(
        proposal_request(Direction::Rise, Value::from(0.35), "EUR"),
        parse(
            "{\"proposal\":1,\"amount\":0.35,\"basis\":\"stake\",\"contract_type\":\"CALL\",\
             \"currency\":\"EUR\",\"duration\":1,\"duration_unit\":\"m\",\"symbol\":\"R_10\"}"
        )
    );
}

#[test]
fn a_purchase_and_a_subscription() {
    assert_eq!(buy_request("p", Value::from(0.55)), parse("{\"buy\":\"p\",\"price\":0.55}"));
    assert_eq!(
        parse(&subscribe_request(u64::MAX)),
        parse(
            "{\"proposal_open_contract\":1,\"contract_id\":18446744073709551615,\"subscribe\":1}"
        )
    );
}

#[test]
fn requests_are_numbered_from_one() {
    let mut client = WsClient::new(Mode::Real);
    assert_eq!(tagged_request(&mut client, parse("{\"a\":1}")), "{\"a\":1,\"req_id\":1}");
    assert_eq!(tagged_request(&mut client, parse("{\"req_id\":9}")), "{\"req_id\":2}");
    assert_eq!(tagged_request(&mut client, parse("[]")), "[]");
    assert_eq!(client, WsClient { req_id: 3, current_mode: Mode::Real });
    assert_eq!(client.next_req_id(), 4);
}

#[test]
fn large_ids_wrap_on_the_wire() {
    let mut client = WsClient { req_id: 9_223_372_036_854_775_806, current_mode: Mode::Demo };
    assert_eq!(tagged_request(&mut client, parse("{}")), "{\"req_id\":9223372036854775807}");
    assert_eq!(tagged_request(&mut client, parse("{}")), "{\"req_id\":-9223372036854775808}");
}

#[test]
fn time_is_up_after_the_limit() {
    assert!(!is_overdue(20 * SECOND, 20));
    assert!(is_overdue(20 * SECOND + 1, 20));
    assert!(!is_overdue(u64::MAX as u128, u64::MAX));
}

#[test]
fn a_token_is_accepted() {
    for elapsed in [0, 11 * SECOND] {
        let accepted = text("{\"msg_type\":\"authorize\"}");
        assert!(matches!(authorize_on_event(accepted, elapsed), AuthorizeStep::Authorized));
    }
}

#[test]
fn the_answer_to_a_token_is_waited_for() {
    for event in [text("{}"), text("no json"), text("{\"msg_type\":\"ping\"}"), WireEvent::Tick] {
        assert!(matches!(authorize_on_event(event, 10 * SECOND), AuthorizeStep::Wait));
    }
}

#[test]
fn the_wait_for_a_token_fails() {
    let late = 10 * SECOND + 1;
    let cases = [
        (text("{\"error\":{\"code\":\"X\"}}"), 0, "Authorize error: {\"code\":\"X\"}"),
        (WireEvent::Tick, late, "Authorize timeout"),
        (text("{\"msg_type\":\"ping\"}"), late, "Authorize timeout"),
        (text("no json"), late, "Authorize timeout"),
        (WireEvent::Closed, 0, "WebSocket connection closed"),
        (WireEvent::Closed, late, "WebSocket connection closed"),
        (WireEvent::Broken(reason()), 0, "reset"),
        (WireEvent::Unreadable(reason()), 0, "reset"),
    ];
    for (event, elapsed, message) in cases {
        match authorize_on_event(event, elapsed) {
            AuthorizeStep::Fail(failure) => assert_eq!(failure.message(), message),
            _ => panic!("no failure"),
        }
    }
}

#[test]
fn a_reply_comes_by_its_type() {
    for elapsed in [0, 21 * SECOND] {
        let reply = "{\"msg_type\":\"buy\",\"error\":{},\"k\":2}";
        match reply_on_event("buy", 20, text(reply), elapsed) {
            ReplyStep::Reply(value) => assert_eq!(value, parse(reply)),
            _ => panic!("no reply"),
        }
    }
}

#[test]
fn an_update_comes_before_the_reply() {
    let update = "{\"msg_type\":\"proposal_open_contract\",\"k\":2}";
    match reply_on_event("buy", 20, text(update), 20 * SECOND) {
        ReplyStep::Update(value) => assert_eq!(value, parse(update)),
        _ => panic!("no update"),
    }
    let awaited = reply_on_event("proposal_open_contract", 20, text(update), 0);
    assert!(matches!(awaited, ReplyStep::Reply(_)));
}

#[test]
fn a_reply_is_waited_for() {
    for event in [text("{\"msg_type\":\"ping\"}"), text("?"), WireEvent::Tick] {
        assert!(matches!(reply_on_event("buy", 20, event, 20 * SECOND), ReplyStep::Wait));
    }
}

#[test]
fn the_wait_for_a_reply_fails() {
    let late = 20 * SECOND + 1;
    let cases = [
        (text("{\"msg_type\":\"ping\",\"error\":1}"), 0, "Deriv API error: 1"),
        (WireEvent::Broken(reason()), 0, "WebSocket error: reset"),
        (WireEvent::Unreadable(reason()), 0, "reset"),
        (WireEvent::Closed, 0, "WebSocket connection closed"),
        (WireEvent::Tick, late, "Timeout waiting for buy"),
        (text("{\"msg_type\":\"ping\"}"), late, "Timeout waiting for buy"),
    ];
    for (event, elapsed, message) in cases {
        match reply_on_event("buy", 20, event, elapsed) {
            ReplyStep::Fail { failure, update } => {
                assert_eq!(failure.message(), message);
                assert!(update.is_none());
            }
            _ => panic!("no failure"),
        }
    }
}

#[test]
fn a_failure_passes_the_update_on() {
    let late = 20 * SECOND + 1;
    let cases = [
        (
            "{\"msg_type\":\"proposal_open_contract\",\"error\":true}",
            0,
            "Deriv API error: true",
        ),
        ("{\"msg_type\":\"proposal_open_contract\"}", late, "Timeout waiting for buy"),
    ];
    for (update_text, elapsed, message) in cases {
        match reply_on_event("buy", 20, text(update_text), elapsed) {
            ReplyStep::Fail { failure, update } => {
                assert_eq!(failure.message(), message);
                assert_eq!(update, Some(parse(update_text)));
            }
            _ => panic!("no failure"),
        }
    }
}

#[test]
fn a_running_contract_is_updated() {
    let update = "{\"msg_type\":\"proposal_open_contract\",\"error\":{}}";
    for elapsed in [0, 91 * SECOND] {
        match contract_on_event(text(update), elapsed) {
            ContractStep::Update(value) => assert_eq!(value, parse(update)),
            _ => panic!("no update"),
        }
    }
    for event in [text("{\"msg_type\":\"buy\"}"), WireEvent::Tick] {
        assert!(matches!(contract_on_event(event, 90 * SECOND), ContractStep::Wait));
    }
}

#[test]
fn the_wait_for_a_contract_fails() {
    let late = 90 * SECOND + 1;
    let cases = [
        (text("{\"error\":\"late\"}"), 0, "POC error: \"late\""),
        (WireEvent::Broken(reason()), 0, "WebSocket error: reset"),
        (WireEvent::Unreadable(reason()), 0, "reset"),
        (WireEvent::Closed, 0, "WebSocket closed during contract wait"),
        (WireEvent::Tick, late, "Timeout waiting for contract to settle"),
        (text("{\"msg_type\":\"buy\"}"), late, "Timeout waiting for contract to settle"),
    ];
    for (event, elapsed, message) in cases {
        match contract_on_event(event, elapsed) {
            ContractStep::Fail(failure) => assert_eq!(failure.message(), message),
            _ => panic!("no failure"),
        }
    }
}

fn variables() -> Variables {
    Variables {
        demo_app_id: Some("1".to_string()),
        real_app_id: Some("2".to_string()),
        demo_deriv_api: Some("d".to_string()),
        real_deriv_api: Some("r".to_string()),
        currency: None,
    }
}

#[test]
fn the_configuration_is_read() {
    let cfg = AppCfg::from_variables(variables()).unwrap();
    assert_eq!(cfg.currency, "USD");
    let demo = cfg.credentials(Mode::Demo);
    assert_eq!((demo.app_id, demo.token), ("1", "d"));
    let real = cfg.credentials(Mode::Real);
    assert_eq!((real.app_id, real.token), ("2", "r"));
    let mut vars = variables();
    vars.currency = Some("EUR".to_string());
    assert_eq!(AppCfg::from_variables(vars).unwrap().currency, "EUR");
}

#[test]
fn the_first_missing_setting_is_named() {
    let mut vars = variables();
    vars.real_deriv_api = None;
    let missing = AppCfg::from_variables(vars).unwrap_err();
    assert_eq!(missing, Setting::RealDerivApi);
    assert_eq!(missing.missing_message(), "REAL_DERIV_API missing in .env");
    let mut vars = variables();
    vars.demo_deriv_api = None;
    vars.real_deriv_api = None;
    assert_eq!(AppCfg::from_variables(vars).unwrap_err().name(), "DEMO_DERIV_API");
    let mut vars = variables();
    vars.real_app_id = None;
    assert_eq!(AppCfg::from_variables(vars).unwrap_err().name(), "REAL_APP_ID");
    let mut vars = variables();
    vars.demo_app_id = None;
    vars.real_app_id = None;
    assert_eq!(AppCfg::from_variables(vars).unwrap_err().name(), "DEMO_APP_ID");
}
