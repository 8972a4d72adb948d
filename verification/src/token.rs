//! Messages to token contracts.
use crate::error::{PlatformError, PlatformErrorView};
use crate::msg::{CosmosMsg, CosmosMsgView};
use crate::views::views;
use vstd::prelude::*;

verus! {

/// A message to a token contract.
#[derive(Debug, PartialEq, Eq)]
pub enum TokenMsg {
    /// Moves tokens of the sender.
    Transfer { recipient: String, amount: u128 },
    /// Moves tokens of an owner who has allowed it.
    TransferFrom { owner: String, recipient: String, amount: u128 },
}

/// What a `TokenMsg` says.
pub enum TokenMsgView {
    Transfer { recipient: Seq<char>, amount: u128 },
    TransferFrom { owner: Seq<char>, recipient: Seq<char>, amount: u128 },
}

impl View for TokenMsg {
    type V = TokenMsgView;

    open spec fn view(&self) -> TokenMsgView {
        match *self {
            TokenMsg::Transfer { recipient, amount } => TokenMsgView::Transfer {
                recipient: recipient@,
                amount,
            },
            TokenMsg::TransferFrom { owner, recipient, amount } => TokenMsgView::TransferFrom {
                owner: owner@,
                recipient: recipient@,
                amount,
            },
        }
    }
}

/// The bytes that `cosmwasm_std::to_json_binary` makes of a `cw20::Cw20ExecuteMsg`.
pub uninterp spec fn token_msg_encoding(msg: TokenMsgView) -> Seq<u8>;

/// `cosmwasm_std::to_json_binary` on the `cw20::Cw20ExecuteMsg` with the same fields. The contract
/// claims that it succeeds, since it does nothing with texts and amounts but write them to a buffer
/// that grows, and that the bytes follow from the message alone. Which bytes these are is left
/// unsaid.
#[verifier::external_body]
fn encode_token_msg(msg: &TokenMsg) -> (encoded: Result<Vec<u8>, cosmwasm_std::StdError>)
    ensures
        encoded is Ok,
        encoded->Ok_0@ == token_msg_encoding(msg@),
{
    let message = match msg {
        TokenMsg::Transfer { recipient, amount } => cw20::Cw20ExecuteMsg::Transfer {
            recipient: recipient.clone(),
            amount: cosmwasm_std::Uint128::new(*amount),
        },
        TokenMsg::TransferFrom { owner, recipient, amount } => cw20::Cw20ExecuteMsg::TransferFrom {
            owner: owner.clone(),
            recipient: recipient.clone(),
            amount: cosmwasm_std::Uint128::new(*amount),
        },
    };
    cosmwasm_std::to_json_binary(&message).map(|binary| binary.0)
}

/// The view of a list of messages, or of the error in its place.
pub open spec fn messages_result(result: Result<Vec<CosmosMsg>, PlatformError>) -> Result<
    Seq<CosmosMsgView>,
    PlatformErrorView,
> {
    match result {
        Ok(messages) => Ok(views(messages@)),
        Err(error) => Err(error@),
    }
}

/// The call of a token contract with an encoded message and no funds.
pub open spec fn token_call(token: Seq<char>, msg: Seq<u8>) -> Seq<CosmosMsgView> {
    seq![CosmosMsgView::WasmExecute { contract_addr: token, msg, funds: Seq::empty() }]
}

/// Turns an encoded message into the call of a token contract, without funds.
pub fn call_token(token: &String, msg: Vec<u8>) -> (messages: Vec<CosmosMsg>)
    ensures
        views(messages@) == token_call(token@, msg@),
{
    let call = CosmosMsg::WasmExecute { contract_addr: token.clone(), msg, funds: Vec::new() };
    let ghost seen = call@;
    let mut messages: Vec<CosmosMsg> = Vec::new();
    messages.push(call);
    proof {
        assert(seen->funds =~= Seq::empty());
        assert(views(messages@) =~= seq![seen]);
    }
    messages
}

/// The call of a token contract with a message.
pub fn token_message(token: &String, msg: &TokenMsg) -> (messages: Result<Vec<CosmosMsg>, PlatformError>)
    ensures
        messages matches Ok(list) && views(list@) == token_call(token@, token_msg_encoding(msg@)),
{
    match encode_token_msg(msg) {
        Ok(bytes) => Ok(call_token(token, bytes)),
        Err(error) => Err(PlatformError::Outside(error)),
    }
}

} // verus!
