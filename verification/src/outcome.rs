//! The call executor's classifier: no raw transport or protocol failure
//! leaves this layer unclassified. A successful response must be of the
//! call-result kind; a contract-execution failure whose diagnostic says the
//! code or the method is absent becomes `ContractNotFound`; everything else
//! becomes `RPCError` with the original message kept for diagnostics.

use crate::error::DomainError;
use crate::text::contains_seq;
use crate::text::str_contains;
use vstd::prelude::*;

verus! {

/// Everything the transport can hand back for one view call, reduced to
/// plain values: the payload of a call-result response, a successful
/// response of some other kind, a contract-execution failure with the
/// execution environment's diagnostic and the full error message, or any
/// other failure with its message.
#[derive(Debug)]
pub enum RpcOutcome {
    CallResult { payload: Vec<u8> },
    OtherResponseKind,
    ExecutionFailure { vm_error: String, message: String },
    OtherFailure { message: String },
}

/// The diagnostic text means the query cannot be answered: the execution
/// environment found no contract code, or no such method. The protocol
/// exposes no structured discriminant for either, only these two phrases,
/// which must both be recognised, exactly as written.
pub open spec fn is_not_found_diag(d: Seq<char>) -> bool {
    contains_seq(d, "CodeDoesNotExist"@) || contains_seq(d, "MethodNotFound"@)
}

/// The message reported for a successful response of an unexpected kind.
pub open spec fn unexpected_kind_msg() -> Seq<char> {
    "Unexpected type of the response after CallFunction request"@
}

/// Classify one transport outcome for the query against `contract_id` at
/// `block_height`. Exactly the call-result payload passes through; every
/// failure becomes one classified `DomainError`.
pub fn classify_outcome(outcome: RpcOutcome, contract_id: &str, block_height: u64) -> (r: Result<
    Vec<u8>,
    DomainError,
>)
    ensures
        match outcome {
            RpcOutcome::CallResult { payload } => (r matches Ok(p) && p@ == payload@),
            RpcOutcome::OtherResponseKind => (r matches Err(e) && (e matches DomainError::RPCError(m)
                && m@ == unexpected_kind_msg())),
            RpcOutcome::ExecutionFailure { vm_error, message } => (r matches Err(e) && (if is_not_found_diag(
                vm_error@,
            ) {
                e matches DomainError::ContractNotFound { contract_id: c, block_height: h } && c@
                    == contract_id@ && h == block_height
            } else {
                e matches DomainError::RPCError(m) && m@ == message@
            })),
            RpcOutcome::OtherFailure { message } => (r matches Err(e) && (e
                matches DomainError::RPCError(m) && m@ == message@)),
        },
{
    match outcome {
        RpcOutcome::CallResult { payload } => Ok(payload),
        RpcOutcome::OtherResponseKind => Err(
            DomainError::RPCError(
                String::from_str("Unexpected type of the response after CallFunction request"),
            ),
        ),
        RpcOutcome::ExecutionFailure { vm_error, message } => {
            if str_contains(vm_error.as_str(), "CodeDoesNotExist") || str_contains(
                vm_error.as_str(),
                "MethodNotFound",
            ) {
                Err(
                    DomainError::ContractNotFound {
                        contract_id: String::from_str(contract_id),
                        block_height,
                    },
                )
            } else {
                Err(DomainError::RPCError(message))
            }
        },
        RpcOutcome::OtherFailure { message } => Err(DomainError::RPCError(message)),
    }
}

} // verus!
