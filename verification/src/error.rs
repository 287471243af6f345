//! The error taxonomy every query outcome is classified into before a caller
//! sees it.

use vstd::prelude::*;

verus! {

/// Every failure a query can surface. `InvalidInput` reports a
/// resource-identified input problem (for example a nonexistent token id),
/// `RPCError` a transport or protocol failure, `InternalError` a payload that
/// should have been well-formed but failed to decode, and `ContractNotFound`
/// a contract or method that cannot answer the query at the pinned height.
#[derive(Debug)]
pub enum DomainError {
    InvalidInput(String),
    RPCError(String),
    InternalError(String),
    ContractNotFound { contract_id: String, block_height: u64 },
}

impl DomainError {
    /// True when the error reports an infrastructure-level failure rather
    /// than an expected, reportable condition.
    pub open spec fn is_infrastructure(self) -> bool {
        self is RPCError || self is InternalError
    }
}

} // verus!
