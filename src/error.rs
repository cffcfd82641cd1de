use vstd::prelude::*;
use vstd::string::*;

verus! {

/// The ways a call can fail. A failed call changes nothing.
#[derive(Clone, Debug, PartialEq)]
pub enum ContractError {
    /// The call carried no positive amount of the stable denomination.
    Validation,
    /// The caller is not the owner.
    Unauthorized,
    /// The host could not convert an address; its message is kept.
    AddressConversion { msg: String },
    /// No state record is stored: the contract was never instantiated.
    StateNotFound,
}

impl ContractError {
    /// A human-readable description of the error.
    pub fn message(&self) -> (r: String)
        ensures
            self is Validation ==> r@ == "You must pass some UST"@,
            self is Unauthorized ==> r@ == "Unauthorized"@,
            self is StateNotFound ==> r@ == "State not found"@,
            self is AddressConversion ==> r@ == self->msg@,
    {
        match self {
            ContractError::Validation => String::from_str("You must pass some UST"),
            ContractError::Unauthorized => String::from_str("Unauthorized"),
            ContractError::AddressConversion { msg } => msg.clone(),
            ContractError::StateNotFound => String::from_str("State not found"),
        }
    }
}

} // verus!
