//! The replies of the API, and what the bot takes from them.

use vstd::prelude::*;

use crate::failure::Failure;
use crate::price::Price;

verus! {

/// An error that the API reports inside a reply.
#[derive(Debug)]
pub struct DerivError {
    pub code: Option<String>,
    pub message: Option<String>,
}

/// The reply to a request for a proposal.
#[derive(Debug)]
pub struct ProposalResp {
    pub msg_type: String,
    pub proposal: Option<ProposalInner>,
    pub error: Option<DerivError>,
}

/// A proposal: a contract on offer.
#[derive(Debug)]
pub struct ProposalInner {
    pub id: Option<String>,
    pub ask_price: Option<Price>,
}

/// The reply to a purchase.
#[derive(Debug)]
pub struct BuyResponse {
    pub msg_type: String,
    pub buy: Option<BuyInner>,
    pub error: Option<DerivError>,
}

/// A purchase.
#[derive(Debug)]
pub struct BuyInner {
    pub contract_id: Option<u64>,
    pub longcode: Option<String>,
    pub buy_price: Option<Price>,
}

/// An update on an open contract.
#[derive(Debug)]
pub struct PocResp {
    pub msg_type: String,
    pub poc: Option<PocInner>,
    pub error: Option<DerivError>,
}

/// The state of a contract.
#[derive(Debug)]
pub struct PocInner {
    pub contract_id: Option<u64>,
    pub is_sold: Option<i64>,
    pub buy_price: Option<Price>,
    pub sell_price: Option<Price>,
    pub status: Option<String>,
    pub currency: Option<String>,
    pub payout: Option<Price>,
    pub profit: Option<Price>,
}

/// How a contract ended.
#[derive(Debug, Clone, Copy, PartialEq, Eq, Structural)]
pub struct Settlement {
    pub won: bool,
    pub buy_price: Price,
    pub sell_price: Price,
}

impl ProposalResp {
    /// The id and the price of the proposal, or why there is none. An error
    /// comes before everything else; the price is the staked amount where the
    /// reply names none.
    pub open spec fn spec_terms(self, amount: Price) -> Result<(String, Price), Failure> {
        match (self.error, self.proposal) {
            (Some(error), _) => Err(Failure::Proposal(error)),
            (None, None) => Err(Failure::NoProposal),
            (None, Some(proposal)) => match proposal.id {
                None => Err(Failure::NoProposalId),
                Some(id) => Ok(
                    (
                        id,
                        match proposal.ask_price {
                            Some(price) => price,
                            None => amount,
                        },
                    ),
                ),
            },
        }
    }

    /// The id and the price of the proposal, or why there is none.
    pub fn terms(self, amount: Price) -> (r: Result<(String, Price), Failure>)
        ensures
            r == self.spec_terms(amount),
    {
        if let Some(error) = self.error {
            return Err(Failure::Proposal(error));
        }
        let proposal = match self.proposal {
            Some(proposal) => proposal,
            None => return Err(Failure::NoProposal),
        };
        let id = match proposal.id {
            Some(id) => id,
            None => return Err(Failure::NoProposalId),
        };
        let price = match proposal.ask_price {
            Some(price) => price,
            None => amount,
        };
        Ok((id, price))
    }
}

impl BuyResponse {
    /// The contract that was bought and its price, or why there is none. An
    /// error comes before everything else; the price is zero where the reply
    /// names none.
    pub open spec fn spec_purchase(self) -> Result<(u64, Price), Failure> {
        match (self.error, self.buy) {
            (Some(error), _) => Err(Failure::Buy(error)),
            (None, None) => Err(Failure::NoBuy),
            (None, Some(buy)) => match buy.contract_id {
                None => Err(Failure::NoContractId),
                Some(contract_id) => Ok(
                    (
                        contract_id,
                        match buy.buy_price {
                            Some(price) => price,
                            None => Price::spec_zero(),
                        },
                    ),
                ),
            },
        }
    }

    /// The contract that was bought and its price, or why there is none.
    pub fn purchase(self) -> (r: Result<(u64, Price), Failure>)
        ensures
            r == self.spec_purchase(),
    {
        if let Some(error) = self.error {
            return Err(Failure::Buy(error));
        }
        let buy = match self.buy {
            Some(buy) => buy,
            None => return Err(Failure::NoBuy),
        };
        let contract_id: u64 = match buy.contract_id {
            Some(contract_id) => contract_id,
            None => return Err(Failure::NoContractId),
        };
        let price = match buy.buy_price {
            Some(price) => price,
            None => Price::zero(),
        };
        Ok((contract_id, price))
    }
}

impl PocInner {
    /// Whether this is the state of the given contract: it names that one or
    /// none.
    pub open spec fn concerns(self, contract_id: u64) -> bool {
        self.contract_id is None || self.contract_id == Some(contract_id)
    }

    /// Whether the status is the given one.
    pub open spec fn has_status(self, status: Seq<char>) -> bool {
        self.status matches Some(found) && found@ == status
    }

    /// The price at which the contract was sold; zero where none is named.
    pub open spec fn sold_for(self) -> Price {
        match self.sell_price {
            Some(price) => price,
            None => Price::spec_zero(),
        }
    }

    /// Whether a contract bought at `buy_price` made money: by the profit that
    /// the API names, else by the difference of the two prices. The difference
    /// of two binary64 numbers is above zero exactly when the first is above
    /// the second.
    pub open spec fn made_money(self, buy_price: Price) -> bool {
        match self.profit {
            Some(profit) => profit.above(Price::spec_zero()),
            None => self.sold_for().above(buy_price),
        }
    }

    /// Whether a contract bought at `buy_price` was won.
    pub open spec fn won(self, buy_price: Price) -> bool {
        self.has_status("won"@) || self.made_money(buy_price)
    }
}

impl PocResp {
    /// How the given contract, bought at `buy_price`, ended; nothing while it
    /// is not sold, and nothing where the update is on another contract.
    pub open spec fn spec_settlement(self, contract_id: u64, buy_price: Price) -> Option<
        Settlement,
    > {
        match self.poc {
            Some(contract) if contract.concerns(contract_id) && contract.is_sold == Some(
                1i64,
            ) => Some(
                Settlement {
                    won: contract.won(buy_price),
                    buy_price,
                    sell_price: contract.sold_for(),
                },
            ),
            _ => None,
        }
    }

    /// How the given contract, bought at `buy_price`, ended; nothing while it
    /// is not sold, and nothing where the update is on another contract.
    pub fn settlement(&self, contract_id: u64, buy_price: Price) -> (r: Option<Settlement>)
        ensures
            r == self.spec_settlement(contract_id, buy_price),
    {
        let contract = match &self.poc {
            Some(contract) => contract,
            None => return None,
        };
        if let Some(id) = contract.contract_id {
            if id != contract_id {
                return None;
            }
        }
        match contract.is_sold {
            Some(1) => {},
            _ => return None,
        }
        let sell_price = match contract.sell_price {
            Some(price) => price,
            None => Price::zero(),
        };
        let has_won_status = match &contract.status {
            Some(status) => *status == "won".to_owned(),
            None => false,
        };
        let made_money = match contract.profit {
            Some(profit) => profit.is_above(Price::zero()),
            None => sell_price.is_above(buy_price),
        };
        Some(Settlement { won: has_won_status || made_money, buy_price, sell_price })
    }

    /// The contract and the status that are worth a line in the log.
    pub open spec fn spec_notice(self) -> Option<(u64, Seq<char>)> {
        match self.poc {
            Some(contract) => match (contract.contract_id, contract.status) {
                (Some(contract_id), Some(status)) => if status@ == "open"@ {
                    None
                } else {
                    Some((contract_id, status@))
                },
                _ => None,
            },
            None => None,
        }
    }

    /// The contract and the status that are worth a line in the log while
    /// another reply is awaited: those of a contract that is no longer open.
    pub fn notice(&self) -> (r: Option<(u64, &str)>)
        ensures
            self.spec_notice() == match r {
                Some((contract_id, status)) => Some((contract_id, status@)),
                None => None,
            },
            match r {
                Some((contract_id, status)) => {
                    &&& self.poc matches Some(contract)
                    &&& contract.contract_id == Some(contract_id)
                    &&& contract.has_status(status@)
                    &&& status@ != "open"@
                },
                None => self.poc matches Some(contract) ==> {
                    ||| contract.contract_id is None
                    ||| contract.status is None
                    ||| contract.has_status("open"@)
                },
            },
    {
        match &self.poc {
            Some(contract) => match (contract.contract_id, &contract.status) {
                (Some(contract_id), Some(status)) => {
                    if *status == "open".to_owned() {
                        None
                    } else {
                        Some((contract_id, status.as_str()))
                    }
                },
                _ => None,
            },
            None => None,
        }
    }
}

/// A reply that reports an error leads to nothing else, whatever else it holds.
pub proof fn law_reported_error_prevails(
    proposal: ProposalResp,
    amount: Price,
    purchase: BuyResponse,
)
    ensures
        proposal.error matches Some(error) ==> proposal.spec_terms(amount) == Err::<
            (String, Price),
            Failure,
        >(Failure::Proposal(error)),
        purchase.error matches Some(error) ==> purchase.spec_purchase() == Err::<
            (u64, Price),
            Failure,
        >(Failure::Buy(error)),
{
}

/// A contract counts as settled once an update on it says that it is sold, and
/// not before; it is won if the API says so or if it made money, and lost
/// otherwise.
pub proof fn law_settled_once_sold(update: PocResp, contract_id: u64, buy_price: Price)
    ensures
        update.spec_settlement(contract_id, buy_price) is Some <==> (update.poc matches Some(
            contract,
        ) && contract.concerns(contract_id) && contract.is_sold == Some(1i64)),
        update.spec_settlement(contract_id, buy_price) matches Some(settlement) ==> {
            &&& settlement.buy_price == buy_price
            &&& settlement.won <==> (update.poc->0.has_status("won"@)
                || update.poc->0.made_money(buy_price))
        },
{
}

/// An update that names another contract settles nothing.
pub proof fn law_other_contract_settles_nothing(
    update: PocResp,
    contract_id: u64,
    other: u64,
    buy_price: Price,
)
    requires
        update.poc matches Some(contract) && contract.contract_id == Some(other),
        other != contract_id,
    ensures
        update.spec_settlement(contract_id, buy_price) is None,
{
}

/// A proposal is taken as it was offered. Where the reply reports no error and
/// holds a proposal with an id, that id is returned; the price is the one
/// asked, whatever it is, and the stake only where none was asked. Without a
/// proposal, or without an id, that is what is reported.
pub proof fn law_proposal_is_taken_as_offered(reply: ProposalResp, amount: Price)
    requires
        reply.error is None,
    ensures
        match reply.spec_terms(amount) {
            Ok((id, price)) => {
                &&& reply.proposal matches Some(proposal)
                &&& proposal.id == Some(id)
                &&& proposal.ask_price is Some ==> proposal.ask_price == Some(price)
                &&& proposal.ask_price is None ==> price == amount
            },
            Err(Failure::NoProposal) => reply.proposal is None,
            Err(Failure::NoProposalId) => reply.proposal matches Some(proposal)
                && proposal.id is None,
            Err(_) => false,
        },
{
}

/// The stake matters only where no price is asked, and the type of the message
/// never.
pub proof fn law_terms_rest_on_offer(a: ProposalResp, b: ProposalResp, stake: Price, other: Price)
    requires
        a.proposal == b.proposal,
        a.error == b.error,
        stake == other || (a.proposal matches Some(proposal) && proposal.ask_price is Some),
    ensures
        a.spec_terms(stake) == b.spec_terms(other),
{
}

/// The contract that is followed is the one that was bought. Where the reply
/// reports no error and names a contract, the id returned is that id, for
/// every id, and the price is the one named, zero where none is. Without a
/// purchase, or without a contract, that is what is reported.
pub proof fn law_purchase_is_taken_as_named(reply: BuyResponse)
    requires
        reply.error is None,
    ensures
        match reply.spec_purchase() {
            Ok((contract_id, price)) => {
                &&& reply.buy matches Some(buy)
                &&& buy.contract_id == Some(contract_id)
                &&& buy.buy_price is Some ==> buy.buy_price == Some(price)
                &&& buy.buy_price is None ==> price.bits == 0
            },
            Err(Failure::NoBuy) => reply.buy is None,
            Err(Failure::NoContractId) => reply.buy matches Some(buy) && buy.contract_id is None,
            Err(_) => false,
        },
{
}

/// What is taken from a purchase rests on the contract, the price and the
/// error, and on nothing else in the reply.
pub proof fn law_purchase_rests_on_named(a: BuyResponse, b: BuyResponse)
    requires
        a.error == b.error,
        a.buy is Some <==> b.buy is Some,
        a.buy is Some ==> a.buy->0.contract_id == b.buy->0.contract_id && a.buy->0.buy_price
            == b.buy->0.buy_price,
    ensures
        a.spec_purchase() == b.spec_purchase(),
{
}

/// Won or lost. A settled contract whose status is `won` is won. Any other is
/// won exactly if the profit that the update names is a number above zero; or,
/// where it names none, if the sell price is above the buy price, the sell
/// price being zero where it is missing.
pub proof fn law_outcome(update: PocResp, contract_id: u64, buy_price: Price)
    requires
        update.spec_settlement(contract_id, buy_price) is Some,
    ensures
        ({
            let contract = update.poc->0;
            let settlement = update.spec_settlement(contract_id, buy_price)->0;
            let says_won = contract.status is Some && contract.status->0@ == "won"@;
            &&& says_won ==> settlement.won
            &&& !says_won && contract.profit is Some ==> (settlement.won <==> 0
                < contract.profit->0.bits <= 0x7FF0_0000_0000_0000)
            &&& !says_won && contract.profit is None && contract.sell_price is Some ==> (
            settlement.won <==> contract.sell_price->0.above(buy_price))
            &&& !says_won && contract.profit is None && contract.sell_price is None ==> (
            settlement.won <==> 0x8000_0000_0000_0000 < buy_price.bits <= 0xFFF0_0000_0000_0000)
            &&& contract.sell_price is Some ==> settlement.sell_price == contract.sell_price->0
            &&& contract.sell_price is None ==> settlement.sell_price.bits == 0
            &&& settlement.buy_price == buy_price
        }),
{
}

/// Without a named profit, prices that are positive amounts decide by their
/// size: the contract is won by a higher sell price alone.
pub proof fn law_outcome_by_prices(update: PocResp, contract_id: u64, buy_price: Price)
    requires
        update.spec_settlement(contract_id, buy_price) is Some,
        update.poc->0.profit is None,
        update.poc->0.status is Some ==> update.poc->0.status->0@ != "won"@,
        update.poc->0.sell_price is Some,
        update.poc->0.sell_price->0.bits <= 0x7FF0_0000_0000_0000,
        buy_price.bits <= 0x7FF0_0000_0000_0000,
    ensures
        update.spec_settlement(contract_id, buy_price)->0.won <==> update.poc->0.sell_price->0.bits
            > buy_price.bits,
{
}

/// When a contract is settled: an update is on it, or names no contract, and
/// says by the number one that it is sold.
pub proof fn law_when_settled(update: PocResp, contract_id: u64, buy_price: Price)
    ensures
        update.spec_settlement(contract_id, buy_price) is Some <==> {
            &&& update.poc is Some
            &&& update.poc->0.is_sold is Some
            &&& update.poc->0.is_sold->0 == 1
            &&& update.poc->0.contract_id is Some ==> update.poc->0.contract_id->0 == contract_id
        },
{
}

/// Two updates that agree on the contract, on whether it is sold, on the
/// status, on the profit and on the sell price have the same outcome: payout,
/// currency, the price that the update says was paid, an error and the type of
/// the message do not matter.
pub proof fn law_outcome_rests_on(a: PocResp, b: PocResp, contract_id: u64, buy_price: Price)
    requires
        a.poc is Some,
        b.poc is Some,
        a.poc->0.contract_id == b.poc->0.contract_id,
        a.poc->0.is_sold == b.poc->0.is_sold,
        a.poc->0.status == b.poc->0.status,
        a.poc->0.profit == b.poc->0.profit,
        a.poc->0.sell_price == b.poc->0.sell_price,
    ensures
        a.spec_settlement(contract_id, buy_price) == b.spec_settlement(contract_id, buy_price),
{
}

/// A status is what it reads, to the letter.
pub proof fn law_status_to_the_letter(contract: PocInner, status: Seq<char>)
    ensures
        contract.has_status(status) <==> contract.status is Some && contract.status->0@ == status,
{
}

/// A notice names the contract and the status of an update that has both and
/// whose status is any other than `open`; there is none for other updates.
pub proof fn law_notice_of_ended_contracts(update: PocResp)
    ensures
        match update.spec_notice() {
            Some((contract_id, status)) => {
                &&& update.poc is Some
                &&& update.poc->0.contract_id == Some(contract_id)
                &&& update.poc->0.status is Some
                &&& update.poc->0.status->0@ == status
                &&& status != "open"@
            },
            None => {
                ||| update.poc is None
                ||| update.poc->0.contract_id is None
                ||| update.poc->0.status is None
                ||| update.poc->0.status->0@ == "open"@
            },
        },
{
}

} // verus!
