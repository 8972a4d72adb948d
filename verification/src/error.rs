//! Why a message is refused.
use vstd::prelude::*;

verus! {

/// What a load from the contract's state looked for.
#[derive(Clone, Copy, Debug, PartialEq, Eq, Structural)]
pub enum Record {
    Config,
    TreasuryTokens,
    Proposal,
}

/// `cosmwasm_std::StdError`, carried as it is.
#[verifier::external_type_specification]
#[verifier::external_body]
pub struct ExCosmwasmError(cosmwasm_std::StdError);

/// An error of the platform: of the state, or of a call or an answer from outside.
#[derive(Debug, PartialEq)]
pub enum PlatformError {
    /// Nothing has been stored there yet.
    NotFound { record: Record },
    /// An error of the contract's own, with its text.
    GenericErr { msg: String },
    /// An error that came from outside, as it came.
    Outside(cosmwasm_std::StdError),
}

/// Why the contract refuses a message.
#[derive(Debug, PartialEq)]
pub enum ContractError {
    Std(PlatformError),
    Unauthorized,
    ZeroThreshold,
    UnreachableThreshold,
    WrongExpiration,
    NotOpen,
    Expired,
    NotExpired,
    AlreadyVoted,
    WrongExecuteStatus,
    WrongCloseStatus,
    InvalidCw20 { addr: String },
}

/// What a `PlatformError` says.
pub enum PlatformErrorView {
    NotFound { record: Record },
    GenericErr { msg: Seq<char> },
    Outside(cosmwasm_std::StdError),
}

/// What a `ContractError` says.
pub enum ContractErrorView {
    Std(PlatformErrorView),
    Unauthorized,
    ZeroThreshold,
    UnreachableThreshold,
    WrongExpiration,
    NotOpen,
    Expired,
    NotExpired,
    AlreadyVoted,
    WrongExecuteStatus,
    WrongCloseStatus,
    InvalidCw20 { addr: Seq<char> },
}

impl View for PlatformError {
    type V = PlatformErrorView;

    open spec fn view(&self) -> PlatformErrorView {
        match *self {
            PlatformError::NotFound { record } => PlatformErrorView::NotFound { record },
            PlatformError::GenericErr { msg } => PlatformErrorView::GenericErr { msg: msg@ },
            PlatformError::Outside(error) => PlatformErrorView::Outside(error),
        }
    }
}

impl View for ContractError {
    type V = ContractErrorView;

    open spec fn view(&self) -> ContractErrorView {
        match *self {
            ContractError::Std(error) => ContractErrorView::Std(error@),
            ContractError::Unauthorized => ContractErrorView::Unauthorized,
            ContractError::ZeroThreshold => ContractErrorView::ZeroThreshold,
            ContractError::UnreachableThreshold => ContractErrorView::UnreachableThreshold,
            ContractError::WrongExpiration => ContractErrorView::WrongExpiration,
            ContractError::NotOpen => ContractErrorView::NotOpen,
            ContractError::Expired => ContractErrorView::Expired,
            ContractError::NotExpired => ContractErrorView::NotExpired,
            ContractError::AlreadyVoted => ContractErrorView::AlreadyVoted,
            ContractError::WrongExecuteStatus => ContractErrorView::WrongExecuteStatus,
            ContractError::WrongCloseStatus => ContractErrorView::WrongCloseStatus,
            ContractError::InvalidCw20 { addr } => ContractErrorView::InvalidCw20 { addr: addr@ },
        }
    }
}

/// The view of a result, side by side.
pub open spec fn std_result<T: View>(result: Result<T, PlatformError>) -> Result<T::V, PlatformErrorView> {
    match result {
        Ok(value) => Ok(value@),
        Err(error) => Err(error@),
    }
}

/// The view of a result, side by side.
pub open spec fn contract_result<T: View>(result: Result<T, ContractError>) -> Result<
    T::V,
    ContractErrorView,
> {
    match result {
        Ok(value) => Ok(value@),
        Err(error) => Err(error@),
    }
}

impl PlatformError {
    /// The refusal for a record that is not there.
    pub open spec fn missing(record: Record) -> PlatformErrorView {
        PlatformErrorView::NotFound { record }
    }
}

impl ContractError {
    /// The refusal for a record that is not there.
    pub open spec fn missing(record: Record) -> ContractErrorView {
        ContractErrorView::Std(PlatformError::missing(record))
    }
}

} // verus!
