use vstd::prelude::*;
use cosmwasm_std::StdError;

verus! {

/// The error type of `cosmwasm_std`. Its values are carried through
/// unopened: they come from the address validator and from the storage.
#[verifier::external_type_specification]
#[verifier::external_body]
pub struct ExStdError(StdError);

/// The `StdError` that `StdError::generic_err` makes of a message.
pub uninterp spec fn generic_error(msg: Seq<char>) -> StdError;

/// `StdError::generic_err`: the generic error that carries `msg`. Without
/// backtraces the value is made of the message alone.
#[verifier::external_body]
pub(crate) fn generic_err(msg: &str) -> (e: StdError)
    ensures
        e == generic_error(msg@),
{
    StdError::generic_err(msg)
}

/// Why a command was refused.
#[derive(Debug)]
pub enum ContractError {
    /// The address validator or the storage refused; its error is inside.
    Std(StdError),
    /// A refusal in free words. No command gives it.
    CustomError { val: String },
    /// A game was started with no funds attached.
    MissingWagerAmount {},
    /// The caller named itself as its opponent.
    HostAndOpponentCannotBeTheSame { val: String },
    /// The two players already have a game that waits for its answer.
    ActiveGameAlreadyExists {},
    /// The answering funds differ from the host's wager.
    InsufficientWagerAmount {},
    /// There is no game to answer.
    GameNotFound {},
    /// A tally or a payout does not fit in 128 bits.
    CounterOverflow {},
}

impl From<StdError> for ContractError {
    /// Wraps an error of the validator or of the storage, unchanged.
    fn from(e: StdError) -> (r: ContractError) {
        ContractError::Std(e)
    }
}

impl vstd::std_specs::convert::FromSpecImpl<StdError> for ContractError {
    open spec fn obeys_from_spec() -> bool {
        true
    }

    open spec fn from_spec(e: StdError) -> ContractError {
        ContractError::Std(e)
    }
}

/// An error as a mathematical value.
pub ghost enum ContractErrorView {
    Std(StdError),
    CustomError { val: Seq<char> },
    MissingWagerAmount,
    HostAndOpponentCannotBeTheSame { val: Seq<char> },
    ActiveGameAlreadyExists,
    InsufficientWagerAmount,
    GameNotFound,
    CounterOverflow,
}

impl View for ContractError {
    type V = ContractErrorView;

    open spec fn view(&self) -> ContractErrorView {
        match *self {
            ContractError::Std(e) => ContractErrorView::Std(e),
            ContractError::CustomError { val } => ContractErrorView::CustomError { val: val@ },
            ContractError::MissingWagerAmount {  } => ContractErrorView::MissingWagerAmount,
            ContractError::HostAndOpponentCannotBeTheSame { val } =>
                ContractErrorView::HostAndOpponentCannotBeTheSame { val: val@ },
            ContractError::ActiveGameAlreadyExists {  } => ContractErrorView::ActiveGameAlreadyExists,
            ContractError::InsufficientWagerAmount {  } => ContractErrorView::InsufficientWagerAmount,
            ContractError::GameNotFound {  } => ContractErrorView::GameNotFound,
            ContractError::CounterOverflow {  } => ContractErrorView::CounterOverflow,
        }
    }
}

/// What the chain's address validator said of an address: the address in
/// its canonical form, or why it is none.
pub open spec fn validation_view(validated: Result<String, StdError>) -> Result<Seq<char>, StdError> {
    match validated {
        Ok(address) => Ok(address@),
        Err(e) => Err(e),
    }
}

/// The message of the error for a name that no storage key can hold.
pub open spec fn too_long() -> Seq<char> {
    "Address is too long for a storage key"@
}

/// The error for a name that no storage key can hold.
pub fn key_too_long() -> (e: StdError)
    ensures
        e == generic_error(too_long()),
{
    generic_err("Address is too long for a storage key")
}

} // verus!
