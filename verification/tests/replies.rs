use sunderiv::failure::Failure;
use sunderiv::price::Price;
use sunderiv::response::{
    BuyInner, BuyResponse, DerivError, PocInner, PocResp, ProposalInner, ProposalResp, Settlement,
};

fn price(value: f64) -> Price {
    Price { bits: value.to_bits() }
}

fn error() -> DerivError {
    DerivError { code: Some("Limit".to_string()), message: None }
}

fn proposal(inner: Option<ProposalInner>, error: Option<DerivError>) -> ProposalResp {
    ProposalResp { msg_type: "proposal".to_string(), proposal: inner, error }
}

fn bought(inner: Option<BuyInner>, error: Option<DerivError>) -> BuyResponse {
    BuyResponse { msg_type: "buy".to_string(), buy: inner, error }
}

fn contract(
    is_sold: Option<i64>,
    sell_price: Option<f64>,
    status: Option<&str>,
    profit: Option<f64>,
) -> PocResp {
    PocResp {
        msg_type: "proposal_open_contract".to_string(),
        poc: Some(PocInner {
            contract_id: Some(7),
            is_sold,
            buy_price: None,
            sell_price: sell_price.map(price),
            status: status.map(|s| s.to_string()),
            currency: None,
            payout: None,
            profit: profit.map(price),
        }),
        error: None,
    }
}

fn won(update: &PocResp, buy_price: f64) -> bool {
    update.settlement(7, price(buy_price)).unwrap().won
}

#[test]
fn prices_compare_as_floats_do() {
    let values = [
        0.0,
        -0.0,
        0.5,
        0.79,
        -0.5,
        -0.79,
        1e300,
        -1e300,
        5e-324,
        -5e-324,
        f64::INFINITY,
        f64::NEG_INFINITY,
        f64::NAN,
        -f64::NAN,
    ];
    for a in values {
        for b in values {
            assert_eq!(price(a).is_above(price(b)), a > b, "{} > {}", a, b);
            assert_eq!(price(a).is_above(price(b)), a - b > 0.0, "{} - {}", a, b);
        }
    }
    assert_eq!(Price::zero(), price(0.0));
}

#[test]
fn a_proposal_has_an_id_and_a_price() {
    let reply = proposal(
        Some(ProposalInner { id: Some("abc".to_string()), ask_price: Some(price(0.52)) }),
        None,
    );
    let (id, ask) = reply.terms(price(0.5)).unwrap();
    assert_eq!(id, "abc");
    assert_eq!(ask, price(0.52));
}

#[test]
fn a_proposal_without_a_price_costs_the_stake() {
    let reply =
        proposal(Some(ProposalInner { id: Some("abc".to_string()), ask_price: None }), None);
    assert_eq!(reply.terms(price(0.5)).unwrap().1, price(0.5));
}

#[test]
fn a_proposal_fails_by_its_error_first() {
    let inner = ProposalInner { id: Some("abc".to_string()), ask_price: None };
    let failure = proposal(Some(inner), Some(error())).terms(price(0.5)).unwrap_err();
    assert_eq!(
        failure.message(),
        "Proposal error: DerivError { code: Some(\"Limit\"), message: None }"
    );
    let failure = proposal(None, None).terms(price(0.5)).unwrap_err();
    assert_eq!(failure.message(), "No proposal in response");
    let inner = ProposalInner { id: None, ask_price: None };
    let failure = proposal(Some(inner), None).terms(price(0.5)).unwrap_err();
    assert_eq!(failure.message(), "No proposal.id");
}

#[test]
fn a_purchase_has_a_contract_and_a_price() {
    let inner = BuyInner { contract_id: Some(7), longcode: None, buy_price: Some(price(0.5)) };
    assert_eq!(bought(Some(inner), None).purchase().unwrap(), (7, price(0.5)));
    let inner = BuyInner { contract_id: Some(7), longcode: None, buy_price: None };
    assert_eq!(bought(Some(inner), None).purchase().unwrap(), (7, price(0.0)));
}

#[test]
fn a_purchase_fails_by_its_error_first() {
    let inner = BuyInner { contract_id: Some(7), longcode: None, buy_price: None };
    let failure = bought(Some(inner), Some(error())).purchase().unwrap_err();
    assert_eq!(failure.message(), "Buy error: DerivError { code: Some(\"Limit\"), message: None }");
    assert_eq!(bought(None, None).purchase().unwrap_err().message(), "No buy payload");
    let inner = BuyInner { contract_id: None, longcode: None, buy_price: None };
    assert_eq!(bought(Some(inner), None).purchase().unwrap_err().message(), "No contract_id");
}

#[test]
fn a_contract_settles_once_sold() {
    assert!(contract(None, Some(1.0), Some("won"), Some(0.5)).settlement(7, price(0.5)).is_none());
    assert!(contract(Some(0), Some(1.0), Some("won"), None).settlement(7, price(0.5)).is_none());
    let empty = PocResp { msg_type: String::new(), poc: None, error: None };
    assert!(empty.settlement(7, price(0.5)).is_none());
    assert_eq!(
        contract(Some(1), Some(0.95), Some("sold"), Some(0.45)).settlement(7, price(0.5)),
        Some(Settlement { won: true, buy_price: price(0.5), sell_price: price(0.95) })
    );
}

#[test]
fn an_update_on_another_contract_settles_nothing() {
    let update = contract(Some(1), Some(0.95), Some("won"), Some(0.45));
    assert!(update.settlement(6, price(0.5)).is_none());
    let mut nameless = contract(Some(1), Some(0.95), Some("won"), Some(0.45));
    nameless.poc.as_mut().unwrap().contract_id = None;
    assert!(nameless.settlement(6, price(0.5)).unwrap().won);
}

#[test]
fn a_contract_is_won_by_status_or_by_profit() {
    assert!(won(&contract(Some(1), None, Some("won"), Some(-0.5)), 0.5));
    assert!(won(&contract(Some(1), None, Some("lost"), Some(0.1)), 0.5));
    assert!(!won(&contract(Some(1), Some(9.0), Some("lost"), Some(-0.5)), 0.5));
    assert!(!won(&contract(Some(1), Some(9.0), None, Some(0.0)), 0.5));
}

#[test]
fn a_contract_without_a_profit_is_judged_by_its_prices() {
    assert!(won(&contract(Some(1), Some(0.95), None, None), 0.5));
    assert!(!won(&contract(Some(1), Some(0.5), None, None), 0.5));
    assert!(!won(&contract(Some(1), None, Some("lost"), None), 0.5));
    assert!(!won(&contract(Some(1), None, None, None), 0.0));
}

#[test]
fn a_closed_contract_is_worth_a_notice() {
    assert_eq!(contract(None, None, Some("sold"), None).notice(), Some((7, "sold")));
    assert_eq!(contract(None, None, Some("open"), None).notice(), None);
    assert_eq!(contract(None, None, None, None).notice(), None);
    let mut nameless = contract(None, None, Some("sold"), None);
    nameless.poc.as_mut().unwrap().contract_id = None;
    assert_eq!(nameless.notice(), None);
}

#[test]
fn failures_report_what_happened() {
    let text = || "x".to_string();
    assert_eq!(Failure::Authorize(text()).message(), "Authorize error: x");
    assert_eq!(Failure::AuthorizeTimeout.message(), "Authorize timeout");
    assert_eq!(Failure::Transport(text()).message(), "x");
    assert_eq!(Failure::Undecodable(text()).message(), "x");
    assert_eq!(Failure::Api(text()).message(), "Deriv API error: x");
    assert_eq!(Failure::WebSocket(text()).message(), "WebSocket error: x");
    assert_eq!(Failure::Closed.message(), "WebSocket connection closed");
    assert_eq!(Failure::ReplyTimeout(text()).message(), "Timeout waiting for x");
    assert_eq!(Failure::Poc(text()).message(), "POC error: x");
    assert_eq!(Failure::ClosedDuringContract.message(), "WebSocket closed during contract wait");
    assert_eq!(Failure::SettleTimeout.message(), "Timeout waiting for contract to settle");
}

#[test]
fn an_error_reports_its_strings_quoted() {
    let error = DerivError { code: None, message: Some("a \"b\"\n".to_string()) };
    assert_eq!(error.report(), "DerivError { code: None, message: Some(\"a \\\"b\\\"\\n\") }");
}
