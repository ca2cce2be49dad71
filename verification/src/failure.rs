//! Why a connection or a trade failed.

use vstd::prelude::*;

use crate::response::DerivError;

verus! {

/// Why a connection or a trade failed.
#[derive(Debug)]
pub enum Failure {
    /// The API refused the token; the error as JSON text.
    Authorize(String),
    /// No answer to the token in time.
    AuthorizeTimeout,
    /// The socket failed to send, or gave what is no text.
    Transport(String),
    /// A reply that is not of the expected shape.
    Undecodable(String),
    /// The API reported an error instead of the awaited reply.
    Api(String),
    /// The socket failed while something was awaited.
    WebSocket(String),
    /// The connection was closed while the answer to a token, or a reply, was
    /// awaited.
    Closed,
    /// No reply of the given type in time.
    ReplyTimeout(String),
    /// The proposal was refused.
    Proposal(DerivError),
    NoProposal,
    NoProposalId,
    /// The purchase was refused.
    Buy(DerivError),
    NoBuy,
    NoContractId,
    /// The API reported an error while a contract was running.
    Poc(String),
    /// The connection was closed while a contract was running.
    ClosedDuringContract,
    /// A contract that did not end in time.
    SettleTimeout,
}

/// A string in the form of `Debug`: quoted and escaped.
pub uninterp spec fn debug_text(text: Seq<char>) -> Seq<char>;

/// `Debug` of `str`: the text depends on the characters of the string alone.
#[verifier::external_body]
fn quoted(text: &str) -> (r: String)
    ensures
        r@ == debug_text(text@),
{
    format!("{:?}", text)
}

/// An optional string as it stands in the report of an error.
pub open spec fn optional_report(text: Option<String>) -> Seq<char> {
    match text {
        Some(text) => "Some("@ + debug_text(text@) + ")"@,
        None => "None"@,
    }
}

fn report_optional(text: &Option<String>) -> (r: String)
    ensures
        r@ == optional_report(*text),
{
    match text {
        Some(text) => "Some(".to_owned().concat(quoted(text.as_str()).as_str()).concat(")"),
        None => "None".to_owned(),
    }
}

impl DerivError {
    /// The error with its code and its message, in one line.
    pub open spec fn spec_report(self) -> Seq<char> {
        "DerivError { code: "@ + optional_report(self.code) + ", message: "@ + optional_report(
            self.message,
        ) + " }"@
    }

    /// The error with its code and its message, in one line.
    pub fn report(&self) -> (r: String)
        ensures
            r@ == self.spec_report(),
    {
        "DerivError { code: ".to_owned().concat(report_optional(&self.code).as_str()).concat(
            ", message: ",
        ).concat(report_optional(&self.message).as_str()).concat(" }")
    }
}

impl Failure {
    /// What is reported of the failure.
    pub open spec fn spec_message(self) -> Seq<char> {
        match self {
            Failure::Authorize(error) => "Authorize error: "@ + error@,
            Failure::AuthorizeTimeout => "Authorize timeout"@,
            Failure::Transport(error) => error@,
            Failure::Undecodable(error) => error@,
            Failure::Api(error) => "Deriv API error: "@ + error@,
            Failure::WebSocket(error) => "WebSocket error: "@ + error@,
            Failure::Closed => "WebSocket connection closed"@,
            Failure::ReplyTimeout(msg_type) => "Timeout waiting for "@ + msg_type@,
            Failure::Proposal(error) => "Proposal error: "@ + error.spec_report(),
            Failure::NoProposal => "No proposal in response"@,
            Failure::NoProposalId => "No proposal.id"@,
            Failure::Buy(error) => "Buy error: "@ + error.spec_report(),
            Failure::NoBuy => "No buy payload"@,
            Failure::NoContractId => "No contract_id"@,
            Failure::Poc(error) => "POC error: "@ + error@,
            Failure::ClosedDuringContract => "WebSocket closed during contract wait"@,
            Failure::SettleTimeout => "Timeout waiting for contract to settle"@,
        }
    }

    /// What is reported of the failure.
    pub fn message(&self) -> (r: String)
        ensures
            r@ == self.spec_message(),
    {
        match self {
            Failure::Authorize(error) => "Authorize error: ".to_owned().concat(error.as_str()),
            Failure::AuthorizeTimeout => "Authorize timeout".to_owned(),
            Failure::Transport(error) => error.clone(),
            Failure::Undecodable(error) => error.clone(),
            Failure::Api(error) => "Deriv API error: ".to_owned().concat(error.as_str()),
            Failure::WebSocket(error) => "WebSocket error: ".to_owned().concat(error.as_str()),
            Failure::Closed => "WebSocket connection closed".to_owned(),
            Failure::ReplyTimeout(msg_type) => "Timeout waiting for ".to_owned().concat(
                msg_type.as_str(),
            ),
            Failure::Proposal(error) => "Proposal error: ".to_owned().concat(
                error.report().as_str(),
            ),
            Failure::NoProposal => "No proposal in response".to_owned(),
            Failure::NoProposalId => "No proposal.id".to_owned(),
            Failure::Buy(error) => "Buy error: ".to_owned().concat(error.report().as_str()),
            Failure::NoBuy => "No buy payload".to_owned(),
            Failure::NoContractId => "No contract_id".to_owned(),
            Failure::Poc(error) => "POC error: ".to_owned().concat(error.as_str()),
            Failure::ClosedDuringContract => "WebSocket closed during contract wait".to_owned(),
            Failure::SettleTimeout => "Timeout waiting for contract to settle".to_owned(),
        }
    }
}

/// What is reported of a failure that came with a reason ends in that reason,
/// in full.
pub proof fn law_reason_is_reported_in_full(reason: String)
    ensures
        Failure::Authorize(reason).spec_message() == "Authorize error: "@ + reason@,
        Failure::Transport(reason).spec_message() == reason@,
        Failure::Undecodable(reason).spec_message() == reason@,
        Failure::Api(reason).spec_message() == "Deriv API error: "@ + reason@,
        Failure::WebSocket(reason).spec_message() == "WebSocket error: "@ + reason@,
        Failure::ReplyTimeout(reason).spec_message() == "Timeout waiting for "@ + reason@,
        Failure::Poc(reason).spec_message() == "POC error: "@ + reason@,
{
}

/// An error that the API reports is passed on with its code and its message,
/// each in quotes or left out as it was.
pub proof fn law_api_error_is_reported_in_full(error: DerivError)
    ensures
        Failure::Proposal(error).spec_message() == "Proposal error: "@ + error.spec_report(),
        Failure::Buy(error).spec_message() == "Buy error: "@ + error.spec_report(),
        match (error.code, error.message) {
            (Some(code), Some(message)) => error.spec_report() == "DerivError { code: "@ + (
            "Some("@ + debug_text(code@) + ")"@) + ", message: "@ + ("Some("@ + debug_text(
                message@,
            ) + ")"@) + " }"@,
            (Some(code), None) => error.spec_report() == "DerivError { code: "@ + ("Some("@
                + debug_text(code@) + ")"@) + ", message: "@ + "None"@ + " }"@,
            (None, Some(message)) => error.spec_report() == "DerivError { code: "@ + "None"@
                + ", message: "@ + ("Some("@ + debug_text(message@) + ")"@) + " }"@,
            (None, None) => error.spec_report() == "DerivError { code: "@ + "None"@
                + ", message: "@ + "None"@ + " }"@,
        },
{
}

/// What is reported of a failure without a reason.
pub proof fn law_plain_failures_are_named()
    ensures
        Failure::AuthorizeTimeout.spec_message() == "Authorize timeout"@,
        Failure::Closed.spec_message() == "WebSocket connection closed"@,
        Failure::NoProposal.spec_message() == "No proposal in response"@,
        Failure::NoProposalId.spec_message() == "No proposal.id"@,
        Failure::NoBuy.spec_message() == "No buy payload"@,
        Failure::NoContractId.spec_message() == "No contract_id"@,
        Failure::ClosedDuringContract.spec_message() == "WebSocket closed during contract wait"@,
        Failure::SettleTimeout.spec_message() == "Timeout waiting for contract to settle"@,
{
}

} // verus!
