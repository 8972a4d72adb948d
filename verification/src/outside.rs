//! What the contract has to ask of the chain and of token contracts.
use crate::error::{PlatformError, PlatformErrorView};
use crate::msg::Coin;
use vstd::prelude::*;

verus! {

/// A question to the chain or to a token contract.
#[derive(Debug, PartialEq, Eq)]
pub enum Question {
    /// Is this the address of an account, and how is it written?
    Address { input: String },
    /// How much of a token does an account hold?
    Balance { token: String, holder: String },
    /// How much of a token did an account hold at a height?
    BalanceAtHeight { token: String, holder: String, height: u64 },
    /// How much is there of a token?
    TotalSupply { token: String },
    /// Which native tokens does an account hold?
    NativeBalances { holder: String },
}

/// What a `Question` says.
pub enum QuestionView {
    Address { input: Seq<char> },
    Balance { token: Seq<char>, holder: Seq<char> },
    BalanceAtHeight { token: Seq<char>, holder: Seq<char>, height: u64 },
    TotalSupply { token: Seq<char> },
    NativeBalances { holder: Seq<char> },
}

impl View for Question {
    type V = QuestionView;

    open spec fn view(&self) -> QuestionView {
        match *self {
            Question::Address { input } => QuestionView::Address { input: input@ },
            Question::Balance { token, holder } => QuestionView::Balance {
                token: token@,
                holder: holder@,
            },
            Question::BalanceAtHeight { token, holder, height } => QuestionView::BalanceAtHeight {
                token: token@,
                holder: holder@,
                height,
            },
            Question::TotalSupply { token } => QuestionView::TotalSupply { token: token@ },
            Question::NativeBalances { holder } => QuestionView::NativeBalances { holder: holder@ },
        }
    }
}

/// The answers to the questions that a message raises. What was not asked is not read.
#[derive(Debug, PartialEq)]
pub struct Answers {
    /// The address as it is written, or why there is none.
    pub address: Result<String, PlatformError>,
    /// A balance, if there was an answer.
    pub balance: Option<u128>,
    /// A balance at a height, if there was an answer.
    pub balance_at_height: Option<u128>,
    /// The supply of a token, or why it is not known.
    pub total_supply: Result<u128, PlatformError>,
    /// The native tokens of the contract, or why they are not known.
    pub native_balances: Result<Vec<Coin>, PlatformError>,
    /// What the contract holds of each token in its list, in the order of the list.
    pub token_balances: Vec<u128>,
}

impl Answers {
    /// No question has been answered.
    pub fn unasked() -> (answers: Answers)
        ensures
            answers.balance is None,
            answers.balance_at_height is None,
            answers.token_balances@.len() == 0,
            answers.address matches Err(e) && e@ == not_asked(),
            answers.total_supply matches Err(e) && e@ == not_asked(),
            answers.native_balances matches Err(e) && e@ == not_asked(),
    {
        Answers {
            address: Err(PlatformError::GenericErr { msg: "not asked".to_owned() }),
            balance: None,
            balance_at_height: None,
            total_supply: Err(PlatformError::GenericErr { msg: "not asked".to_owned() }),
            native_balances: Err(PlatformError::GenericErr { msg: "not asked".to_owned() }),
            token_balances: Vec::new(),
        }
    }
}

/// The error that stands for an answer nobody asked for.
pub open spec fn not_asked() -> PlatformErrorView {
    PlatformErrorView::GenericErr { msg: "not asked"@ }
}

} // verus!
