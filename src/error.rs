use vstd::prelude::*;

use crate::bank::NativeBankContractError;
use crate::cycles::CyclesError;

verus! {

/// rlp's error for bytes that do not decode; carried, never inspected.
#[verifier::external_type_specification]
#[verifier::external_body]
pub struct ExDecoderError(rlp::DecoderError);

/// An error that a contract call returns to the execution engine.
#[derive(Debug)]
pub enum ProtocolError {
    /// An error of the bank contract.
    Executor(NativeBankContractError),
    /// The cycle meter refused a charge.
    Cycles(CyclesError),
}

impl From<NativeBankContractError> for ProtocolError {
    fn from(err: NativeBankContractError) -> (r: ProtocolError) {
        ProtocolError::Executor(err)
    }
}

impl vstd::std_specs::convert::FromSpecImpl<NativeBankContractError> for ProtocolError {
    open spec fn obeys_from_spec() -> bool {
        true
    }

    open spec fn from_spec(err: NativeBankContractError) -> ProtocolError {
        ProtocolError::Executor(err)
    }
}

impl From<CyclesError> for ProtocolError {
    fn from(err: CyclesError) -> (r: ProtocolError) {
        ProtocolError::Cycles(err)
    }
}

impl vstd::std_specs::convert::FromSpecImpl<CyclesError> for ProtocolError {
    open spec fn obeys_from_spec() -> bool {
        true
    }

    open spec fn from_spec(err: CyclesError) -> ProtocolError {
        ProtocolError::Cycles(err)
    }
}

} // verus!
