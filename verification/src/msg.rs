//! What comes into the contract, and what goes out of it.
use crate::expiration::{BlockInfo, Duration, Expiration};
use crate::proposal::Vote;
use crate::threshold::Threshold;
use crate::views::{lemma_views_add, lemma_views_push, views};
use vstd::prelude::*;

verus! {

/// An amount of a native token.
#[derive(Debug, PartialEq, Eq)]
pub struct Coin {
    pub denom: String,
    pub amount: u128,
}

/// What a `Coin` says.
pub struct CoinView {
    pub denom: Seq<char>,
    pub amount: u128,
}

impl View for Coin {
    type V = CoinView;

    open spec fn view(&self) -> CoinView {
        CoinView { denom: self.denom@, amount: self.amount }
    }
}

impl Clone for Coin {
    fn clone(&self) -> (copy: Self)
        ensures
            copy@ == self@,
    {
        Coin { denom: self.denom.clone(), amount: self.amount }
    }
}

/// A message for the chain to carry out.
#[derive(Debug, PartialEq, Eq)]
pub enum CosmosMsg {
    /// A call of another contract.
    WasmExecute { contract_addr: String, msg: Vec<u8>, funds: Vec<Coin> },
    /// Any other message, in its JSON encoding.
    Other { json: Vec<u8> },
}

/// What a `CosmosMsg` says.
pub enum CosmosMsgView {
    WasmExecute { contract_addr: Seq<char>, msg: Seq<u8>, funds: Seq<CoinView> },
    Other { json: Seq<u8> },
}

impl View for CosmosMsg {
    type V = CosmosMsgView;

    open spec fn view(&self) -> CosmosMsgView {
        match *self {
            CosmosMsg::WasmExecute { contract_addr, msg, funds } => CosmosMsgView::WasmExecute {
                contract_addr: contract_addr@,
                msg: msg@,
                funds: views(funds@),
            },
            CosmosMsg::Other { json } => CosmosMsgView::Other { json: json@ },
        }
    }
}

impl Clone for CosmosMsg {
    fn clone(&self) -> (copy: Self)
        ensures
            copy@ == self@,
    {
        match self {
            CosmosMsg::WasmExecute { contract_addr, msg, funds } => {
                let copied_msg = copy_bytes(msg);
                let copied_funds = copy_coins(funds);
                CosmosMsg::WasmExecute {
                    contract_addr: contract_addr.clone(),
                    msg: copied_msg,
                    funds: copied_funds,
                }
            },
            CosmosMsg::Other { json } => CosmosMsg::Other { json: copy_bytes(json) },
        }
    }
}

/// A copy of a list of bytes.
pub(crate) fn copy_bytes(bytes: &Vec<u8>) -> (copy: Vec<u8>)
    ensures
        copy@ == bytes@,
{
    let copy = bytes.clone();
    proof {
        assert(copy@ =~= bytes@);
    }
    copy
}

/// A copy of a list of coins.
pub(crate) fn copy_coins(coins: &Vec<Coin>) -> (copy: Vec<Coin>)
    ensures
        views(copy@) == views(coins@),
{
    let copy = coins.clone();
    proof {
        assert(views(copy@) =~= views(coins@));
    }
    copy
}

/// A copy of a list of messages.
pub(crate) fn copy_msgs(msgs: &Vec<CosmosMsg>) -> (copy: Vec<CosmosMsg>)
    ensures
        views(copy@) == views(msgs@),
{
    let copy = msgs.clone();
    proof {
        assert(views(copy@) =~= views(msgs@));
    }
    copy
}

/// A note that the contract attaches to what it did.
#[derive(Debug, PartialEq, Eq)]
pub struct Attribute {
    pub key: String,
    pub value: String,
}

/// What an `Attribute` says.
pub struct AttributeView {
    pub key: Seq<char>,
    pub value: Seq<char>,
}

impl View for Attribute {
    type V = AttributeView;

    open spec fn view(&self) -> AttributeView {
        AttributeView { key: self.key@, value: self.value@ }
    }
}

/// What the contract answers to a message it accepts.
#[derive(Debug, PartialEq, Eq)]
pub struct Response {
    /// Messages for the chain to carry out, in this order.
    pub messages: Vec<CosmosMsg>,
    pub attributes: Vec<Attribute>,
}

/// What a `Response` says.
#[verifier::ext_equal]
pub struct ResponseView {
    pub messages: Seq<CosmosMsgView>,
    pub attributes: Seq<AttributeView>,
}

impl View for Response {
    type V = ResponseView;

    open spec fn view(&self) -> ResponseView {
        ResponseView { messages: views(self.messages@), attributes: views(self.attributes@) }
    }
}

impl ResponseView {
    /// No messages and no attributes.
    pub open spec fn empty() -> ResponseView {
        ResponseView { messages: Seq::empty(), attributes: Seq::empty() }
    }

    /// The response with one more attribute.
    pub open spec fn with_attribute(self, key: Seq<char>, value: Seq<char>) -> ResponseView {
        ResponseView { attributes: self.attributes.push(AttributeView { key, value }), ..self }
    }

    /// The response with more messages.
    pub open spec fn with_messages(self, messages: Seq<CosmosMsgView>) -> ResponseView {
        ResponseView { messages: self.messages + messages, ..self }
    }
}

impl Response {
    /// A response with no messages and no attributes.
    pub fn new() -> (response: Response)
        ensures
            response@ == ResponseView::empty(),
    {
        let response = Response { messages: Vec::new(), attributes: Vec::new() };
        proof {
            assert(response@ =~= ResponseView::empty());
        }
        response
    }

    /// Adds an attribute at the end.
    pub fn add_attribute(self, key: &str, value: String) -> (response: Response)
        ensures
            response@ == self@.with_attribute(key@, value@),
    {
        let mut attributes = self.attributes;
        let attribute = Attribute { key: key.to_owned(), value };
        proof {
            lemma_views_push(attributes@, attribute);
        }
        attributes.push(attribute);
        Response { messages: self.messages, attributes }
    }

    /// Adds messages at the end, in their order.
    pub fn add_messages(self, messages: Vec<CosmosMsg>) -> (response: Response)
        ensures
            response@ == self@.with_messages(views(messages@)),
    {
        let mut all = self.messages;
        let mut more = messages;
        proof {
            lemma_views_add(all@, more@);
        }
        all.append(&mut more);
        Response { messages: all, attributes: self.attributes }
    }
}

/// Where and when a message is handled.
#[derive(Debug, PartialEq, Eq)]
pub struct Env {
    pub block: BlockInfo,
    pub contract: ContractInfo,
}

/// The contract itself.
#[derive(Debug, PartialEq, Eq)]
pub struct ContractInfo {
    pub address: String,
}

/// Who sent a message.
#[derive(Debug, PartialEq, Eq)]
pub struct MessageInfo {
    pub sender: String,
}

/// What the contract starts with.
#[derive(Debug, PartialEq, Eq)]
pub struct InstantiateMsg {
    pub cw20_addr: String,
    pub threshold: Threshold,
    pub max_voting_period: Duration,
    pub proposal_deposit_amount: u128,
    pub proposal_deposit_token_address: String,
}

/// What a token contract sends along with tokens.
#[derive(Debug, PartialEq, Eq)]
pub struct Cw20ReceiveMsg {
    pub sender: String,
    pub amount: u128,
    pub msg: Vec<u8>,
}

/// A message that may change the state.
#[derive(Debug, PartialEq, Eq)]
pub enum ExecuteMsg {
    Propose {
        title: String,
        description: String,
        msgs: Vec<CosmosMsg>,
        latest: Option<Expiration>,
    },
    Vote { proposal_id: u64, vote: Vote },
    Execute { proposal_id: u64 },
    Close { proposal_id: u64 },
    Receive(Cw20ReceiveMsg),
    UpdateConfig {
        threshold: Threshold,
        max_voting_period: Duration,
        proposal_deposit_amount: u128,
        proposal_deposit_token_address: String,
    },
}

/// A message that reads the state.
#[allow(inconsistent_fields)]
#[derive(Debug, PartialEq, Eq)]
pub enum QueryMsg {
    Threshold,
    Proposal { proposal_id: u64 },
    Vote { proposal_id: u64, voter: String },
    ListProposals { start_after: Option<u64>, limit: Option<u32> },
    ReverseProposals { start_before: Option<u64>, limit: Option<u32> },
    ListVotes { proposal_id: u64, start_after: Option<String>, limit: Option<u32> },
    Voter { address: String },
    AllBalances,
    GetConfig,
    Cw20TokenList,
}

} // verus!
